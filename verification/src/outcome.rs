//! What one parse call ends in: a summary, or the stage that failed with
//! its cause; and the text that stands for either.

use crate::json::{FieldValue, FieldView, pretty_json, record_view, to_json_pretty};
use crate::summary::{MatchSummary, SummaryView};
use vstd::prelude::*;
use vstd::string::StringExecFns;

verus! {

/// The stage of a parse call at which it can fail.
#[derive(Clone, Copy, Debug, PartialEq, Eq, Structural)]
pub enum Stage {
    /// The path handed in is not text.
    PathText,
    /// The file cannot be read.
    Read,
    /// The file is no replay container, or its start record does not
    /// decode.
    Parse,
    /// The container holds no start record.
    StartRecord,
}

/// A fatal failure: the stage and the underlying cause.
#[derive(Clone, Debug, PartialEq, Eq)]
pub struct Failure {
    pub stage: Stage,
    pub message: String,
}

/// The mathematical value of a `Failure`.
pub ghost struct FailureModel {
    pub stage: Stage,
    pub message: Seq<char>,
}

impl View for Failure {
    type V = FailureModel;

    open spec fn view(&self) -> FailureModel {
        FailureModel { stage: self.stage, message: self.message@ }
    }
}

/// The outcome of one parse call.
#[derive(Clone, Debug, PartialEq, Eq)]
pub enum ParseOutcome {
    Summary(MatchSummary),
    Failure(Failure),
}

/// The mathematical value of a `ParseOutcome`.
pub ghost enum OutcomeView {
    Summary(SummaryView),
    Failure(FailureModel),
}

impl View for ParseOutcome {
    type V = OutcomeView;

    open spec fn view(&self) -> OutcomeView {
        match self {
            ParseOutcome::Summary(summary) => OutcomeView::Summary(summary@),
            ParseOutcome::Failure(failure) => OutcomeView::Failure(failure@),
        }
    }
}

/// The words with which the diagnostic of a failure at `stage` begins. A
/// file that cannot be read and one that cannot be parsed are told in the
/// same words; the cause that follows tells them apart.
pub open spec fn stage_text(stage: Stage) -> Seq<char> {
    match stage {
        Stage::PathText => "Failed to convert CStr to str: "@,
        Stage::Read => "Failed to parse replay: "@,
        Stage::Parse => "Failed to parse replay: "@,
        Stage::StartRecord => "Failed to get start JSON: "@,
    }
}

/// The record that a summary is written out as: its eight fields under
/// their keys, in a fixed order, the damage as a number and the rest as
/// text.
pub open spec fn record_of(summary: SummaryView) -> Seq<(Seq<char>, FieldView)> {
    seq![
        ("path"@, FieldView::Text(summary.path)),
        ("playerName"@, FieldView::Text(summary.player_name)),
        ("tank"@, FieldView::Text(summary.tank)),
        ("map"@, FieldView::Text(summary.map)),
        ("date"@, FieldView::Text(summary.date)),
        ("damage"@, FieldView::Integer(summary.damage)),
        ("server"@, FieldView::Text(summary.server)),
        ("version"@, FieldView::Text(summary.version)),
    ]
}

/// The text that stands for an outcome: a summary as a pretty-printed JSON
/// object, a failure as the words of its stage followed by its cause.
pub open spec fn rendered(outcome: OutcomeView) -> Seq<char> {
    match outcome {
        OutcomeView::Summary(summary) => pretty_json(record_of(summary)),
        OutcomeView::Failure(failure) => stage_text(failure.stage) + failure.message,
    }
}

/// Lays a summary out as a record.
pub fn summary_record(summary: &MatchSummary) -> (fields: Vec<(String, FieldValue)>)
    ensures
        record_view(fields@) == record_of(summary@),
{
    let mut fields: Vec<(String, FieldValue)> = Vec::new();
    fields.push(("path".to_owned(), FieldValue::Text(summary.path.clone())));
    fields.push(("playerName".to_owned(), FieldValue::Text(summary.player_name.clone())));
    fields.push(("tank".to_owned(), FieldValue::Text(summary.tank.clone())));
    fields.push(("map".to_owned(), FieldValue::Text(summary.map.clone())));
    fields.push(("date".to_owned(), FieldValue::Text(summary.date.clone())));
    fields.push(("damage".to_owned(), FieldValue::Integer(summary.damage)));
    fields.push(("server".to_owned(), FieldValue::Text(summary.server.clone())));
    fields.push(("version".to_owned(), FieldValue::Text(summary.version.clone())));
    fields
}

/// The words of a stage.
pub fn describe_stage(stage: Stage) -> (words: &'static str)
    ensures
        words@ == stage_text(stage),
{
    match stage {
        Stage::PathText => "Failed to convert CStr to str: ",
        Stage::Read => "Failed to parse replay: ",
        Stage::Parse => "Failed to parse replay: ",
        Stage::StartRecord => "Failed to get start JSON: ",
    }
}

/// Writes an outcome out as the text that a caller gets.
pub fn render_outcome(outcome: &ParseOutcome) -> (text: String)
    ensures
        text@ == rendered(outcome@),
{
    match outcome {
        ParseOutcome::Summary(summary) => {
            let fields = summary_record(summary);
            to_json_pretty(&fields)
        },
        ParseOutcome::Failure(failure) => {
            let mut text = describe_stage(failure.stage).to_owned();
            text.append(failure.message.as_str());
            text
        },
    }
}

/// Whether `word` stands in `text` from position `at` on.
pub open spec fn word_at(text: Seq<char>, at: int, word: Seq<char>) -> bool {
    0 <= at && at + word.len() <= text.len() && text.subrange(at, at + word.len()) == word
}

/// Whether `word` stands somewhere in `text`.
pub open spec fn holds_word(text: Seq<char>, word: Seq<char>) -> bool {
    exists|at: int| word_at(text, at, word)
}

/// The diagnostic of a failure begins with the words of its stage, which
/// no JSON object begins with, and that of a failure to read or to parse
/// holds the word "parse".
pub proof fn lemma_diagnostic_names_stage(failure: FailureModel)
    ensures
        stage_text(failure.stage).is_prefix_of(rendered(OutcomeView::Failure(failure))),
        "Failed to "@.is_prefix_of(rendered(OutcomeView::Failure(failure))),
        failure.stage == Stage::Read || failure.stage == Stage::Parse ==> holds_word(
            rendered(OutcomeView::Failure(failure)),
            "parse"@,
        ),
{
    let words = stage_text(failure.stage);
    let text = rendered(OutcomeView::Failure(failure));
    reveal_strlit("Failed to ");
    reveal_strlit("Failed to convert CStr to str: ");
    reveal_strlit("Failed to parse replay: ");
    reveal_strlit("Failed to get start JSON: ");
    reveal_strlit("parse");
    if failure.stage == Stage::Read || failure.stage == Stage::Parse {
        assert(text.subrange(10, 15) =~= "parse"@);
        assert(word_at(text, 10, "parse"@));
    }
}

} // verus!
