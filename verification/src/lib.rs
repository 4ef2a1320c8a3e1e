//! Summaries of replay files: the bytes of a replay are decoded into its
//! records, a handful of fields is read out of them, and the result is
//! handed back as one text, a JSON object or a diagnostic.

use crate::container::{ReplayView, decode_replay, decoded_records, has_magic, replay_of};
use crate::outcome::{
    Failure, FailureModel, OutcomeView, ParseOutcome, Stage, holds_word, lemma_diagnostic_names_stage,
    render_outcome, rendered,
};
use crate::summary::{extract_summary, summary_of};
use crate::tree::TreeView;
use vstd::prelude::*;

pub mod container;
pub mod json;
pub mod outcome;
pub mod summary;
pub mod tree;

verus! {

/// The outcome that a decoded replay, or the failure to decode it, leads
/// to.
pub open spec fn outcome_of_replay(path: Seq<char>, replay: Result<ReplayView, FailureModel>) -> OutcomeView {
    match replay {
        Ok(decoded) => OutcomeView::Summary(summary_of(path, decoded.start, decoded.end)),
        Err(failure) => OutcomeView::Failure(failure),
    }
}

/// The outcome of a parse call on the file at `path`, of which `file`
/// holds the bytes, or the cause for which it could not be read.
pub open spec fn outcome_of(path: Seq<char>, file: Result<Seq<u8>, Seq<char>>) -> OutcomeView {
    match file {
        Ok(bytes) => outcome_of_replay(path, replay_of(bytes)),
        Err(cause) => OutcomeView::Failure(FailureModel { stage: Stage::Read, message: cause }),
    }
}

/// What a caller holds of a file: its bytes, or the cause for which it
/// could not be read.
pub open spec fn file_view(file: Result<Vec<u8>, String>) -> Result<Seq<u8>, Seq<char>> {
    match file {
        Ok(bytes) => Ok(bytes@),
        Err(cause) => Err(cause@),
    }
}

/// Runs one parse call up to its outcome. `file` is what reading the file
/// at `path` gave: its bytes, or the cause of the failure to read it.
pub fn parse_outcome(path: &str, file: Result<Vec<u8>, String>) -> (outcome: ParseOutcome)
    ensures
        outcome@ == outcome_of(path@, file_view(file)),
{
    match file {
        Err(cause) => ParseOutcome::Failure(Failure { stage: Stage::Read, message: cause }),
        Ok(bytes) => match decode_replay(bytes) {
            Err(failure) => ParseOutcome::Failure(failure),
            Ok(replay) => {
                let summary = match &replay.end {
                    Some(end) => extract_summary(path, &replay.start, Some(end)),
                    None => extract_summary(path, &replay.start, None),
                };
                ParseOutcome::Summary(summary)
            },
        },
    }
}

/// Parses the replay file at `path` and returns the text that stands for
/// the outcome: the summary as a pretty-printed JSON object with the path
/// in it, or a diagnostic that begins with the stage that failed.
pub fn parse_replay(path: &str, file: Result<Vec<u8>, String>) -> (text: String)
    ensures
        text@ == rendered(outcome_of(path@, file_view(file))),
{
    let outcome = parse_outcome(path, file);
    render_outcome(&outcome)
}

/// Releases a text that `parse_replay` returned. The handle is empty
/// afterwards; on an empty handle this does nothing.
pub fn free_string(handle: &mut Option<String>)
    ensures
        *final(handle) is None,
{
    *handle = None;
}

/// A container that begins as it should, decodes and holds a start record
/// always ends in a summary, whatever the records hold: that of its first
/// record, with its second, where there is one, as the end record.
pub proof fn lemma_decoded_replay_gives_summary(
    path: Seq<char>,
    bytes: Seq<u8>,
    records: Seq<TreeView>,
)
    requires
        has_magic(bytes),
        decoded_records(bytes) == Ok::<Seq<TreeView>, Seq<char>>(records),
        records.len() > 0,
    ensures
        outcome_of(path, Ok(bytes)) == OutcomeView::Summary(
            summary_of(
                path,
                records[0],
                if records.len() > 1 {
                    Some(records[1])
                } else {
                    None
                },
            ),
        ),
{
}

/// A file that cannot be read, that does not begin as a replay container
/// does, or that does not decode and from which no start record can be
/// saved either, ends in a failure to read or to parse: the text that the
/// caller gets begins with "Failed to " and holds the word "parse".
pub proof fn lemma_unusable_file_fails_at_parse(path: Seq<char>, file: Result<Seq<u8>, Seq<char>>)
    requires
        match file {
            Ok(bytes) => !has_magic(bytes) || (decoded_records(bytes) is Err && replay_of(bytes)
                is Err),
            Err(_) => true,
        },
    ensures
        outcome_of(path, file) is Failure,
        file is Err ==> outcome_of(path, file)->Failure_0.stage == Stage::Read,
        file is Ok ==> outcome_of(path, file)->Failure_0.stage == Stage::Parse,
        "Failed to "@.is_prefix_of(rendered(outcome_of(path, file))),
        holds_word(rendered(outcome_of(path, file)), "parse"@),
{
    lemma_diagnostic_names_stage(outcome_of(path, file)->Failure_0);
}

} // verus!
