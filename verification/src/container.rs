//! Reading a replay container: the bytes of a replay file go to
//! `wot_replay_parser`, and the records it decodes come back as trees.
//!
//! The parser is trusted for what a container decodes to; which records a
//! replay is made of, and what is done where the parser gives up, is
//! decided and proved here.

use crate::json::{json_tree, tree_of_json};
use crate::outcome::{Failure, FailureModel, Stage};
use crate::tree::{DecodedTree, TreeView};
use vstd::prelude::*;

verus! {

/// `wot_replay_parser::ReplayParser`: a parsed container. Nothing of its
/// inside is known here but what the items below say of it.
#[verifier::external_type_specification]
#[verifier::external_body]
pub struct ExReplayParser(wot_replay_parser::ReplayParser);

/// What `ReplayParser::parse_json` makes of the bytes of a file: the
/// records of the container in their order, or the cause of its failure as
/// the error's `Debug` text.
pub uninterp spec fn decoded_records(bytes: Seq<u8>) -> Result<Seq<TreeView>, Seq<char>>;

/// The records that a `ReplayParser` holds, in their order.
pub uninterp spec fn parser_records(parser: wot_replay_parser::ReplayParser) -> Seq<TreeView>;

/// The cause that `ReplayParser::replay_json_start` gives where the
/// container holds no record.
pub open spec fn missing_start_text() -> Seq<char> {
    "ReplayJsonFormatError(\"missing initial json object that is present in all replays\")"@
}

/// `ReplayParser::parse_json`: splits the container into its records and
/// decodes each of them as JSON; the packets behind the records are not
/// read. An error comes back as its `Debug` text. The outcome depends on
/// the bytes alone; the contract gives it its name and claims no more.
#[verifier::external_body]
fn parse_json(bytes: Vec<u8>) -> (r: Result<wot_replay_parser::ReplayParser, String>)
    ensures
        match r {
            Ok(parser) => decoded_records(bytes@) == Ok::<Seq<TreeView>, Seq<char>>(
                parser_records(parser),
            ),
            Err(cause) => decoded_records(bytes@) == Err::<Seq<TreeView>, Seq<char>>(cause@),
        },
{
    match wot_replay_parser::ReplayParser::parse_json(bytes) {
        Ok(parser) => Ok(parser),
        Err(e) => Err(format!("{:?}", e)),
    }
}

/// `ReplayParser::replay_json_start`: the first record where there is one,
/// else `ReplayError::ReplayJsonFormatError` with a fixed message, which
/// comes back as its `Debug` text.
#[verifier::external_body]
fn start_record<'a>(parser: &'a wot_replay_parser::ReplayParser) -> (r: Result<
    &'a serde_json::Value,
    String,
>)
    ensures
        match r {
            Ok(value) => parser_records(*parser).len() > 0 && json_tree(*value) == parser_records(
                *parser,
            )[0],
            Err(cause) => parser_records(*parser).len() == 0 && cause@ == missing_start_text(),
        },
{
    match parser.replay_json_start() {
        Ok(value) => Ok(value),
        Err(e) => Err(format!("{:?}", e)),
    }
}

/// `ReplayParser::replay_json_end`: the second record where there is one.
pub assume_specification<'a>[ wot_replay_parser::ReplayParser::replay_json_end ](
    parser: &'a wot_replay_parser::ReplayParser,
) -> (r: Option<&'a serde_json::Value>)
    ensures
        match r {
            Some(value) => parser_records(*parser).len() > 1 && json_tree(*value) == parser_records(
                *parser,
            )[1],
            None => parser_records(*parser).len() <= 1,
        },
;

/// A decoded replay: the start record, which every replay has, and the end
/// record, which only a replay of a finished match has.
#[derive(Debug, PartialEq, Eq)]
pub struct DecodedReplay {
    pub start: DecodedTree,
    pub end: Option<DecodedTree>,
}

/// The mathematical value of a `DecodedReplay`.
pub ghost struct ReplayView {
    pub start: TreeView,
    pub end: Option<TreeView>,
}

impl View for DecodedReplay {
    type V = ReplayView;

    open spec fn view(&self) -> ReplayView {
        ReplayView {
            start: self.start@,
            end: match self.end {
                Some(tree) => Some(tree@),
                None => None,
            },
        }
    }
}

/// The four bytes that every replay container begins with.
pub open spec fn magic() -> Seq<u8> {
    seq![0x12u8, 0x32u8, 0x34u8, 0x11u8]
}

/// Whether `bytes` begin as a replay container does.
pub open spec fn has_magic(bytes: Seq<u8>) -> bool {
    bytes.len() >= 4 && bytes.subrange(0, 4) == magic()
}

/// The cause of the failure on a file that does not begin as a replay
/// container does.
pub open spec fn missing_magic_text() -> Seq<char> {
    "the file does not begin with the magic number of a replay"@
}

/// The number that the four bytes from `at` on hold, lowest byte first.
pub open spec fn le_u32_at(bytes: Seq<u8>, at: int) -> int {
    bytes[at] + 256 * bytes[at + 1] + 65536 * bytes[at + 2] + 16777216 * bytes[at + 3]
}

/// Where the first `n` records of a container end, where they are all
/// there.
///
/// A container begins with four bytes of magic and, in four more, the
/// number of its records; each record is its length in four bytes and then
/// that many bytes. Eight bytes and the recorded packets follow the last
/// record.
pub open spec fn records_end(bytes: Seq<u8>, n: nat) -> Option<int>
    decreases n,
{
    if n == 0 {
        if bytes.len() >= 8 {
            Some(8)
        } else {
            None
        }
    } else {
        match records_end(bytes, (n - 1) as nat) {
            Some(at) => if at + 4 <= bytes.len() && at + 4 + le_u32_at(bytes, at) <= bytes.len() {
                Some(at + 4 + le_u32_at(bytes, at))
            } else {
                None
            },
            None => None,
        }
    }
}

/// A container that holds the first `n` records of `bytes` and nothing
/// else: the magic, the number `n`, the records as they stand in `bytes`,
/// and eight zero bytes. There is none where `bytes` claims fewer records
/// or does not hold them whole.
pub open spec fn leading_records(bytes: Seq<u8>, n: u8) -> Option<Seq<u8>> {
    match records_end(bytes, n as nat) {
        Some(end) => if le_u32_at(bytes, 4) >= n {
            Some(
                bytes.subrange(0, 4) + seq![n, 0u8, 0u8, 0u8] + bytes.subrange(8, end) + Seq::new(
                    8,
                    |i: int| 0u8,
                ),
            )
        } else {
            None
        },
        None => None,
    }
}

/// The replay that a list of decoded records makes: the first is the start
/// record and the second, where there is one, the end record. An empty list
/// has no start record, which is a failure.
pub open spec fn replay_of_records(list: Seq<TreeView>) -> Result<ReplayView, FailureModel> {
    if list.len() == 0 {
        Err(FailureModel { stage: Stage::StartRecord, message: missing_start_text() })
    } else {
        Ok(
            ReplayView {
                start: list[0],
                end: if list.len() > 1 {
                    Some(list[1])
                } else {
                    None
                },
            },
        )
    }
}

/// The replay that can be saved from the first `n` records of a container
/// that does not decode as a whole: what these records decode to by
/// themselves, where they are all there and decode.
pub open spec fn salvaged(bytes: Seq<u8>, n: u8) -> Option<ReplayView> {
    match leading_records(bytes, n) {
        Some(part) => match decoded_records(part) {
            Ok(list) => match replay_of_records(list) {
                Ok(replay) => Some(replay),
                Err(_) => None,
            },
            Err(_) => None,
        },
        None => None,
    }
}

/// The replay that the bytes of a file decode to, or the failure that
/// stands for it.
///
/// A file that does not begin with the magic number is refused. Where the
/// container decodes as a whole, its records make the replay. Where it
/// does not, whatever is wrong after the start record is not fatal: the
/// replay then has the start and the end record where these two decode by
/// themselves, and else the start record alone. Only where the start
/// record itself is cut short or does not decode the call fails, at the
/// parse stage and with the cause for which the whole did not decode.
pub open spec fn replay_of(bytes: Seq<u8>) -> Result<ReplayView, FailureModel> {
    if !has_magic(bytes) {
        Err(FailureModel { stage: Stage::Parse, message: missing_magic_text() })
    } else {
        match decoded_records(bytes) {
            Ok(list) => replay_of_records(list),
            Err(cause) => match salvaged(bytes, 2) {
                Some(replay) => Ok(replay),
                None => match salvaged(bytes, 1) {
                    Some(replay) => Ok(replay),
                    None => Err(FailureModel { stage: Stage::Parse, message: cause }),
                },
            },
        }
    }
}

/// What is wrong behind the start record is not fatal: a container that
/// begins as it should and whose first record decodes by itself gives a
/// replay, also where the container does not decode as a whole.
pub proof fn lemma_start_record_suffices(bytes: Seq<u8>)
    requires
        has_magic(bytes),
        decoded_records(bytes) is Err,
        salvaged(bytes, 1) is Some,
    ensures
        replay_of(bytes) is Ok,
        salvaged(bytes, 2) is None ==> replay_of(bytes) == Ok::<ReplayView, FailureModel>(
            salvaged(bytes, 1)->Some_0,
        ),
{
}

/// Tells whether a file begins as a replay container does.
pub fn starts_with_magic(bytes: &Vec<u8>) -> (found: bool)
    ensures
        found == has_magic(bytes@),
{
    if bytes.len() < 4 {
        return false;
    }
    let found = bytes[0] == 0x12 && bytes[1] == 0x32 && bytes[2] == 0x34 && bytes[3] == 0x11;
    assert(found == (bytes@.subrange(0, 4) =~= magic()));
    found
}

/// Reads the number that the four bytes from `at` on hold, lowest byte
/// first.
fn read_le_u32(bytes: &Vec<u8>, at: usize) -> (value: u64)
    requires
        at + 4 <= bytes.len(),
    ensures
        value == le_u32_at(bytes@, at as int),
        value <= 0xffff_ffff,
{
    let b0: u64 = bytes[at] as u64;
    let b1: u64 = bytes[at + 1] as u64;
    let b2: u64 = bytes[at + 2] as u64;
    let b3: u64 = bytes[at + 3] as u64;
    b0 + 256 * b1 + 65536 * b2 + 16777216 * b3
}

/// Finds where the first `n` records of a container end.
fn find_records_end(bytes: &Vec<u8>, n: u8) -> (r: Option<usize>)
    ensures
        match r {
            Some(end) => records_end(bytes@, n as nat) == Some(end as int) && 8 <= end
                <= bytes.len(),
            None => records_end(bytes@, n as nat) is None,
        },
{
    if bytes.len() < 8 {
        proof {
            lemma_no_records_in_short_container(bytes@, n as nat);
        }
        return None;
    }
    let mut at: usize = 8;
    let mut done: u8 = 0;
    while done < n
        invariant
            done <= n,
            8 <= at <= bytes.len(),
            records_end(bytes@, done as nat) == Some(at as int),
        decreases n - done,
    {
        if bytes.len() - at < 4 {
            proof {
                lemma_records_end_stays_none(bytes@, (done + 1) as nat, n as nat);
            }
            return None;
        }
        let length = read_le_u32(bytes, at);
        if length > (bytes.len() - at - 4) as u64 {
            proof {
                lemma_records_end_stays_none(bytes@, (done + 1) as nat, n as nat);
            }
            return None;
        }
        at = at + 4 + length as usize;
        done = done + 1;
    }
    Some(at)
}

/// A container of fewer than eight bytes holds no records at all.
proof fn lemma_no_records_in_short_container(bytes: Seq<u8>, n: nat)
    requires
        bytes.len() < 8,
    ensures
        records_end(bytes, n) is None,
    decreases n,
{
    if n > 0 {
        lemma_no_records_in_short_container(bytes, (n - 1) as nat);
    }
}

/// Where the first `m` records are not all there, no larger number of
/// records is.
proof fn lemma_records_end_stays_none(bytes: Seq<u8>, m: nat, n: nat)
    requires
        m <= n,
        records_end(bytes, m) is None,
    ensures
        records_end(bytes, n) is None,
    decreases n,
{
    if m < n {
        lemma_records_end_stays_none(bytes, m, (n - 1) as nat);
    }
}

/// Appends the bytes of `source` from `from` up to `to` to `target`.
fn append_range(target: &mut Vec<u8>, source: &Vec<u8>, from: usize, to: usize)
    requires
        from <= to <= source.len(),
    ensures
        final(target)@ == old(target)@ + source@.subrange(from as int, to as int),
{
    let mut i: usize = from;
    while i < to
        invariant
            from <= i <= to <= source.len(),
            target@ == old(target)@ + source@.subrange(from as int, i as int),
        decreases to - i,
    {
        target.push(source[i]);
        i += 1;
    }
}

/// Appends `count` zero bytes to `target`.
fn append_zeros(target: &mut Vec<u8>, count: usize)
    ensures
        final(target)@ == old(target)@ + Seq::new(count as nat, |i: int| 0u8),
{
    let mut i: usize = 0;
    while i < count
        invariant
            i <= count,
            target@ == old(target)@ + Seq::new(i as nat, |j: int| 0u8),
        decreases count - i,
    {
        target.push(0);
        i += 1;
    }
}

/// Frames the first `n` records of a container as a container of its own.
pub fn frame_leading_records(bytes: &Vec<u8>, n: u8) -> (r: Option<Vec<u8>>)
    ensures
        match r {
            Some(part) => leading_records(bytes@, n) == Some(part@),
            None => leading_records(bytes@, n) is None,
        },
{
    let end = match find_records_end(bytes, n) {
        Some(end) => end,
        None => {
            return None;
        },
    };
    if read_le_u32(bytes, 4) < n as u64 {
        return None;
    }
    let mut part: Vec<u8> = Vec::new();
    append_range(&mut part, bytes, 0, 4);
    part.push(n);
    append_zeros(&mut part, 3);
    append_range(&mut part, bytes, 8, end);
    append_zeros(&mut part, 8);
    Some(part)
}

/// Reads the start record and the end record out of a decoded container.
fn read_records(parser: &wot_replay_parser::ReplayParser) -> (r: Result<DecodedReplay, Failure>)
    ensures
        match r {
            Ok(replay) => replay_of_records(parser_records(*parser)) == Ok::<
                ReplayView,
                FailureModel,
            >(replay@),
            Err(failure) => replay_of_records(parser_records(*parser)) == Err::<
                ReplayView,
                FailureModel,
            >(failure@),
        },
{
    match start_record(parser) {
        Err(cause) => Err(Failure { stage: Stage::StartRecord, message: cause }),
        Ok(first) => {
            let start = tree_of_json(first);
            let end = match parser.replay_json_end() {
                Some(second) => Some(tree_of_json(second)),
                None => None,
            };
            Ok(DecodedReplay { start, end })
        },
    }
}

/// Decodes the first `n` records of a container by themselves.
fn salvage(bytes: &Vec<u8>, n: u8) -> (r: Option<DecodedReplay>)
    ensures
        match r {
            Some(replay) => salvaged(bytes@, n) == Some(replay@),
            None => salvaged(bytes@, n) is None,
        },
{
    match frame_leading_records(bytes, n) {
        Some(part) => match parse_json(part) {
            Ok(parser) => match read_records(&parser) {
                Ok(replay) => Some(replay),
                Err(_) => None,
            },
            Err(_) => None,
        },
        None => None,
    }
}

/// Decodes the bytes of a replay file into its start record and, where the
/// file has one that decodes, its end record.
pub fn decode_replay(bytes: Vec<u8>) -> (r: Result<DecodedReplay, Failure>)
    ensures
        match r {
            Ok(replay) => replay_of(bytes@) == Ok::<ReplayView, FailureModel>(replay@),
            Err(failure) => replay_of(bytes@) == Err::<ReplayView, FailureModel>(failure@),
        },
{
    if !starts_with_magic(&bytes) {
        return Err(
            Failure {
                stage: Stage::Parse,
                message: "the file does not begin with the magic number of a replay".to_owned(),
            },
        );
    }
    let kept = bytes.clone();
    match parse_json(bytes) {
        Ok(parser) => read_records(&parser),
        Err(cause) => match salvage(&kept, 2) {
            Some(replay) => Ok(replay),
            None => match salvage(&kept, 1) {
                Some(replay) => Ok(replay),
                None => Err(Failure { stage: Stage::Parse, message: cause }),
            },
        },
    }
}

} // verus!
