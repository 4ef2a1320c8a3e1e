//! The summary of a match: a record of fixed shape, read from the start
//! record of a replay and, for the damage, from its end record where the
//! start record has none.

use crate::tree::{DecodedTree, TreeView, item_views, member_views};
use vstd::prelude::*;

verus! {

/// The summary of one replay. Every text is empty and the damage is zero
/// where the replay does not give them.
#[derive(Clone, Debug, PartialEq, Eq)]
pub struct MatchSummary {
    pub path: String,
    pub player_name: String,
    pub tank: String,
    pub map: String,
    pub date: String,
    pub damage: i64,
    pub server: String,
    pub version: String,
}

/// The mathematical value of a `MatchSummary`.
pub ghost struct SummaryView {
    pub path: Seq<char>,
    pub player_name: Seq<char>,
    pub tank: Seq<char>,
    pub map: Seq<char>,
    pub date: Seq<char>,
    pub damage: int,
    pub server: Seq<char>,
    pub version: Seq<char>,
}

impl View for MatchSummary {
    type V = SummaryView;

    open spec fn view(&self) -> SummaryView {
        SummaryView {
            path: self.path@,
            player_name: self.player_name@,
            tank: self.tank@,
            map: self.map@,
            date: self.date@,
            damage: self.damage as int,
            server: self.server@,
            version: self.version@,
        }
    }
}

/// The text that `record` holds under `key`; empty where it holds none
/// there, or something that is no string.
pub open spec fn text_field(record: TreeView, key: Seq<char>) -> Seq<char> {
    match record.get(key) {
        Some(value) => match value.as_str() {
            Some(text) => text,
            None => Seq::empty(),
        },
        None => Seq::empty(),
    }
}

/// The integer that `record` holds under `key`; zero where it holds none
/// there, or something that is no integer of 64 bits.
pub open spec fn int_field(record: TreeView, key: Seq<char>) -> int {
    match record.get(key) {
        Some(value) => match value.as_i64() {
            Some(number) => number,
            None => 0,
        },
        None => 0,
    }
}

/// The statistics of the first vehicle of an end record: the end record is
/// an array, its first item holds an object under `personal`, and the
/// statistics are the value of that object's first member, in the order in
/// which the decoder produced the members.
pub open spec fn first_vehicle(end: TreeView) -> Option<TreeView> {
    match end.as_array() {
        Some(blocks) => if blocks.len() > 0 {
            match blocks[0].get("personal"@) {
                Some(personal) => match personal.as_object() {
                    Some(vehicles) => if vehicles.len() > 0 {
                        Some(vehicles[0].1)
                    } else {
                        None
                    },
                    None => None,
                },
                None => None,
            }
        } else {
            None
        },
        None => None,
    }
}

/// The damage that an end record gives: that of its first vehicle, zero
/// where it has none.
pub open spec fn fallback_damage(end: TreeView) -> int {
    match first_vehicle(end) {
        Some(vehicle) => int_field(vehicle, "damageDealt"@),
        None => 0,
    }
}

/// The damage of a summary: that of the start record unless it is zero,
/// and then that of the end record, where there is one.
pub open spec fn damage_of(start: TreeView, end: Option<TreeView>) -> int {
    let own = int_field(start, "damageDealt"@);
    if own != 0 {
        own
    } else {
        match end {
            Some(record) => fallback_damage(record),
            None => 0,
        }
    }
}

/// The summary of a replay read from `path`, with the start record `start`
/// and the end record `end`.
pub open spec fn summary_of(path: Seq<char>, start: TreeView, end: Option<TreeView>) -> SummaryView {
    SummaryView {
        path,
        player_name: text_field(start, "playerName"@),
        tank: text_field(start, "playerVehicle"@),
        map: text_field(start, "mapDisplayName"@),
        date: text_field(start, "dateTime"@),
        damage: damage_of(start, end),
        server: text_field(start, "serverName"@),
        version: text_field(start, "clientVersionFromXml"@),
    }
}

/// Reads a text field of a record, with the empty text as its default.
pub fn read_text(record: &DecodedTree, key: &str) -> (text: String)
    ensures
        text@ == text_field(record@, key@),
{
    match record.get(key) {
        Some(value) => match value.as_str() {
            Some(text) => text.to_owned(),
            None => String::new(),
        },
        None => String::new(),
    }
}

/// Reads an integer field of a record, with zero as its default.
pub fn read_integer(record: &DecodedTree, key: &str) -> (number: i64)
    ensures
        number == int_field(record@, key@),
{
    match record.get(key) {
        Some(value) => match value.as_i64() {
            Some(number) => number,
            None => 0,
        },
        None => 0,
    }
}

/// Finds the statistics of the first vehicle of an end record.
pub fn find_first_vehicle(end: &DecodedTree) -> (r: Option<&DecodedTree>)
    ensures
        match r {
            Some(vehicle) => first_vehicle(end@) == Some(vehicle@),
            None => first_vehicle(end@) is None,
        },
{
    let blocks = match end.as_array() {
        Some(blocks) => blocks,
        None => {
            return None;
        },
    };
    if blocks.len() == 0 {
        return None;
    }
    assert(item_views(blocks@)[0] == blocks@[0]@);
    let personal = match blocks[0].get("personal") {
        Some(personal) => personal,
        None => {
            return None;
        },
    };
    let vehicles = match personal.as_object() {
        Some(vehicles) => vehicles,
        None => {
            return None;
        },
    };
    if vehicles.len() == 0 {
        return None;
    }
    assert(member_views(vehicles@)[0].1 == vehicles@[0].1@);
    Some(&vehicles[0].1)
}

/// Reads the damage of a summary from the start record and, where that
/// gives zero, from the end record.
pub fn read_damage(start: &DecodedTree, end: Option<&DecodedTree>) -> (damage: i64)
    ensures
        damage == damage_of(
            start@,
            match end {
                Some(record) => Some(record@),
                None => None,
            },
        ),
{
    let own = read_integer(start, "damageDealt");
    if own != 0 {
        return own;
    }
    match end {
        Some(record) => match find_first_vehicle(record) {
            Some(vehicle) => read_integer(vehicle, "damageDealt"),
            None => 0,
        },
        None => 0,
    }
}

/// Produces the summary of a replay from its start record and, where it
/// has one, its end record. No field can make this fail: each falls back
/// to its default by itself.
pub fn extract_summary(path: &str, start: &DecodedTree, end: Option<&DecodedTree>) -> (summary:
    MatchSummary)
    ensures
        summary@ == summary_of(
            path@,
            start@,
            match end {
                Some(record) => Some(record@),
                None => None,
            },
        ),
{
    MatchSummary {
        path: path.to_owned(),
        player_name: read_text(start, "playerName"),
        tank: read_text(start, "playerVehicle"),
        map: read_text(start, "mapDisplayName"),
        date: read_text(start, "dateTime"),
        damage: read_damage(start, end),
        server: read_text(start, "serverName"),
        version: read_text(start, "clientVersionFromXml"),
    }
}

/// Where the start record gives a damage other than zero, the summary has
/// exactly that damage, whatever the end record holds and also where there
/// is none.
pub proof fn lemma_damage_from_start(path: Seq<char>, start: TreeView, end: Option<TreeView>)
    requires
        int_field(start, "damageDealt"@) != 0,
    ensures
        summary_of(path, start, end).damage == int_field(start, "damageDealt"@),
{
}

/// Where the start record gives no damage and the first item of the end
/// record holds a mapping of vehicles that is not empty, the summary has
/// the damage of the first vehicle of that mapping.
pub proof fn lemma_damage_from_first_vehicle(
    path: Seq<char>,
    start: TreeView,
    end: TreeView,
    blocks: Seq<TreeView>,
    vehicles: Seq<(Seq<char>, TreeView)>,
)
    requires
        int_field(start, "damageDealt"@) == 0,
        end == TreeView::Array(blocks),
        blocks.len() > 0,
        blocks[0].get("personal"@) == Some(TreeView::Object(vehicles)),
        vehicles.len() > 0,
    ensures
        summary_of(path, start, Some(end)).damage == int_field(vehicles[0].1, "damageDealt"@),
{
}

/// A replay without an end record has a summary all the same, made of the
/// fields of the start record alone; its damage is what the start record
/// gives, or zero.
pub proof fn lemma_summary_without_end(path: Seq<char>, start: TreeView)
    ensures
        summary_of(path, start, None) == (SummaryView {
            path,
            player_name: text_field(start, "playerName"@),
            tank: text_field(start, "playerVehicle"@),
            map: text_field(start, "mapDisplayName"@),
            date: text_field(start, "dateTime"@),
            damage: int_field(start, "damageDealt"@),
            server: text_field(start, "serverName"@),
            version: text_field(start, "clientVersionFromXml"@),
        }),
{
}

/// Every text that the start record holds under one of the six keys that a
/// summary reads stands in the summary as it is, and so does the path.
pub proof fn lemma_texts_copied_verbatim(
    path: Seq<char>,
    start: TreeView,
    end: Option<TreeView>,
    text: Seq<char>,
)
    ensures
        summary_of(path, start, end).path == path,
        start.get("playerName"@) == Some(TreeView::Str(text)) ==> summary_of(
            path,
            start,
            end,
        ).player_name == text,
        start.get("playerVehicle"@) == Some(TreeView::Str(text)) ==> summary_of(
            path,
            start,
            end,
        ).tank == text,
        start.get("mapDisplayName"@) == Some(TreeView::Str(text)) ==> summary_of(
            path,
            start,
            end,
        ).map == text,
        start.get("dateTime"@) == Some(TreeView::Str(text)) ==> summary_of(path, start, end).date
            == text,
        start.get("serverName"@) == Some(TreeView::Str(text)) ==> summary_of(
            path,
            start,
            end,
        ).server == text,
        start.get("clientVersionFromXml"@) == Some(TreeView::Str(text)) ==> summary_of(
            path,
            start,
            end,
        ).version == text,
{
}

} // verus!
