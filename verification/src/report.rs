//! What the user is told: the running total, one line for each item that
//! failed, and the answer to a status check.

use vstd::prelude::*;
use crate::coordinator::Coordinator;
use crate::decimal::{decimal, push_decimal};
use crate::batch::census;
use crate::pipeline::{
    ItemPipeline, OutcomeModel, PipelineModel, PipelineOutcome, PipelineResult, ResultModel,
};

verus! {

/// The text that `indicatif::HumanBytes` shows for a number of bytes.
pub uninterp spec fn human_bytes_text(bytes: u64) -> Seq<char>;

/// `indicatif::HumanBytes`, shown through its `Display`: the number of
/// bytes in binary units, as that crate writes them.
#[verifier::external_body]
fn human_bytes(bytes: u64) -> (text: String)
    ensures
        text@ == human_bytes_text(bytes),
{
    indicatif::HumanBytes(bytes).to_string()
}

/// The message that shows the running total: the total for human eyes, in
/// square brackets.
pub fn progress_message(total: u64) -> (message: String)
    ensures
        message@ == "["@ + human_bytes_text(total) + "]"@,
{
    let mut message = String::from_str("[");
    let shown = human_bytes(total);
    message.append(shown.as_str());
    message.append("]");
    message
}

pub const PINNED: &'static str = "Pinned.";

pub const NOT_PINNED: &'static str = "Not pinned.";

/// The answer to a status check, given what the lookup found.
pub fn status_line(found: Option<u64>) -> (line: &'static str)
    ensures
        found is Some ==> line@ == PINNED@,
        found is None ==> line@ == NOT_PINNED@,
{
    match found {
        Some(_) => PINNED,
        None => NOT_PINNED,
    }
}

/// The outcomes of `pipelines`: that of each one that is done, in their
/// order.
pub open spec fn outcomes_of(pipelines: Seq<PipelineModel>) -> Seq<OutcomeModel>
    decreases pipelines.len(),
{
    if pipelines.len() == 0 {
        Seq::empty()
    } else {
        match pipelines.last().outcome() {
            Some(outcome) => outcomes_of(pipelines.drop_last()).push(outcome),
            None => outcomes_of(pipelines.drop_last()),
        }
    }
}

/// The outcomes of a batch: one for each item that is done, in the order
/// of discovery.
pub fn outcomes(batch: &Coordinator) -> (outcomes: Vec<PipelineOutcome>)
    ensures
        outcomes.deep_view() == outcomes_of(batch@.pipelines),
{
    let mut outcomes: Vec<PipelineOutcome> = Vec::new();
    let mut at: usize = 0;
    let count = batch.len();
    assert(batch@.pipelines.subrange(0, 0) =~= Seq::empty());
    assert(outcomes.deep_view() =~= Seq::empty());
    while at < count
        invariant
            at <= count,
            count == batch@.pipelines.len(),
            outcomes.deep_view() == outcomes_of(batch@.pipelines.subrange(0, at as int)),
        decreases count - at,
    {
        let ghost seen = batch@.pipelines.subrange(0, at as int);
        let ghost next = batch@.pipelines.subrange(0, at + 1);
        let ghost before = outcomes.deep_view();
        proof {
            assert(next.drop_last() =~= seen);
            assert(next.last() == batch@.pipelines[at as int]);
        }
        match batch.pipeline(at).outcome() {
            Some(outcome) => {
                outcomes.push(outcome);
                assert(outcomes.deep_view() =~= before.push(outcome@));
            },
            None => {},
        }
        at += 1;
    }
    assert(batch@.pipelines.subrange(0, at as int) =~= batch@.pipelines);
    outcomes
}

/// Every item that is done has its outcome among the outcomes, and no
/// other has: there are as many outcomes as items done.
pub proof fn lemma_no_outcome_is_dropped(pipelines: Seq<PipelineModel>)
    requires
        forall|i: int| 0 <= i < pipelines.len() ==> (#[trigger] pipelines[i]).wf(),
    ensures
        outcomes_of(pipelines).len() == census(pipelines).done,
        forall|i: int|
            0 <= i < pipelines.len() && pipelines[i].stage is Done ==> outcomes_of(
                pipelines,
            ).contains((#[trigger] pipelines[i]).outcome()->0),
    decreases pipelines.len(),
{
    if pipelines.len() > 0 {
        let fewer = pipelines.drop_last();
        lemma_no_outcome_is_dropped(fewer);
        let all = outcomes_of(pipelines);
        assert forall|i: int| 0 <= i < pipelines.len() && pipelines[i].stage is Done implies all.contains(
            (#[trigger] pipelines[i]).outcome()->0,
        ) by {
            if i < fewer.len() {
                assert(fewer[i] == pipelines[i]);
                let found = choose|k: int|
                    0 <= k < outcomes_of(fewer).len() && outcomes_of(fewer)[k]
                        == pipelines[i].outcome()->0;
                assert(all[found] == pipelines[i].outcome()->0);
            } else {
                assert(all[all.len() - 1] == pipelines[i].outcome()->0);
            }
        }
    }
}

/// The line that reports the failure of the item `item_id` for `reason`.
pub open spec fn failure_text(item_id: u64, reason: Seq<char>) -> Seq<char> {
    "Token n."@ + decimal(item_id as nat) + ": "@ + reason
}

/// The line that reports the failure of the item `item_id` for `reason`.
pub fn failure_line(item_id: u64, reason: &str) -> (line: String)
    ensures
        line@ == failure_text(item_id, reason@),
{
    let mut line = String::from_str("Token n.");
    push_decimal(&mut line, item_id);
    line.append(": ");
    line.append(reason);
    line
}

/// The line that a pipeline adds to the report: one if it failed, none
/// otherwise.
pub open spec fn line_of(pipeline: PipelineModel) -> Option<Seq<char>> {
    match pipeline.result {
        Some(ResultModel::ResolutionError { reason }) => Some(
            failure_text(pipeline.item_id, reason),
        ),
        Some(ResultModel::DispatchError { reason }) => Some(
            failure_text(pipeline.item_id, reason),
        ),
        _ => None,
    }
}

/// The report on `pipelines`: the line of each that failed, in their
/// order.
pub open spec fn report_of(pipelines: Seq<PipelineModel>) -> Seq<Seq<char>>
    decreases pipelines.len(),
{
    if pipelines.len() == 0 {
        Seq::empty()
    } else {
        match line_of(pipelines.last()) {
            Some(line) => report_of(pipelines.drop_last()).push(line),
            None => report_of(pipelines.drop_last()),
        }
    }
}

/// The line that `pipeline` adds to the report.
pub fn pipeline_line(pipeline: &ItemPipeline) -> (line: Option<String>)
    ensures
        line.deep_view() == line_of(pipeline@),
{
    match pipeline.result() {
        Some(PipelineResult::ResolutionError { reason }) => Some(
            failure_line(pipeline.item_id(), reason.as_str()),
        ),
        Some(PipelineResult::DispatchError { reason }) => Some(
            failure_line(pipeline.item_id(), reason.as_str()),
        ),
        _ => None,
    }
}

/// The report on a batch: one line for each item that has failed, in the
/// order of discovery.
pub fn failure_report(batch: &Coordinator) -> (lines: Vec<String>)
    ensures
        lines.deep_view() == report_of(batch@.pipelines),
{
    let mut lines: Vec<String> = Vec::new();
    let mut at: usize = 0;
    let count = batch.len();
    assert(batch@.pipelines.subrange(0, 0) =~= Seq::empty());
    assert(lines.deep_view() =~= Seq::empty());
    while at < count
        invariant
            at <= count,
            count == batch@.pipelines.len(),
            lines.deep_view() == report_of(batch@.pipelines.subrange(0, at as int)),
        decreases count - at,
    {
        let ghost seen = batch@.pipelines.subrange(0, at as int);
        let ghost next = batch@.pipelines.subrange(0, at + 1);
        let ghost before = lines.deep_view();
        proof {
            assert(next.drop_last() =~= seen);
            assert(next.last() == batch@.pipelines[at as int]);
        }
        match pipeline_line(batch.pipeline(at)) {
            Some(line) => {
                lines.push(line);
                assert(lines.deep_view() =~= before.push(line@));
            },
            None => {},
        }
        at += 1;
    }
    assert(batch@.pipelines.subrange(0, at as int) =~= batch@.pipelines);
    lines
}

} // verus!
