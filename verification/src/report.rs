//! The report of a run: one entry per task, in the order of submission.

use vstd::prelude::*;
use crate::outcome::{classified, classify, outcome_kind, JoinedPush, OutcomeKind, TaskOutcome};

verus! {

/// The report that stands for the joined tasks of a run: entry `i` is what
/// became of task `i`.
pub open spec fn report_of(joined: Seq<JoinedPush>) -> Seq<TaskOutcome> {
    Seq::new(joined.len(), |i: int| classified(joined[i]))
}

/// How many entries of `report` ended as `kind`.
pub open spec fn count_kind(report: Seq<TaskOutcome>, kind: OutcomeKind) -> nat
    decreases report.len(),
{
    if report.len() == 0 {
        0
    } else {
        let rest = count_kind(report.drop_last(), kind);
        if outcome_kind(report.last()) == kind {
            rest + 1
        } else {
            rest
        }
    }
}

/// A report has one entry for each joined task, and entry `i` is what
/// became of task `i`.
pub proof fn lemma_report_aligned(joined: Seq<JoinedPush>, i: int)
    requires
        0 <= i < joined.len(),
    ensures
        report_of(joined).len() == joined.len(),
        report_of(joined)[i] == classified(joined[i]),
{
}

/// What becomes of one task leaves every other entry as it was.
pub proof fn lemma_entries_independent(joined: Seq<JoinedPush>, i: int, other: JoinedPush, j: int)
    requires
        0 <= i < joined.len(),
        0 <= j < joined.len(),
        i != j,
    ensures
        report_of(joined.update(i, other)).len() == report_of(joined).len(),
        report_of(joined.update(i, other))[j] == report_of(joined)[j],
{
}

/// Where the registry client fails the push of task `i` and accepts all
/// others, entry `i` is a protocol failure with the client's error, and
/// every other entry is pushed.
pub proof fn lemma_failure_isolated(joined: Seq<JoinedPush>, i: int)
    requires
        0 <= i < joined.len(),
        joined[i] matches Ok(Err(_)),
        forall|j: int| 0 <= j < joined.len() && j != i ==> (#[trigger] joined[j]) matches Ok(Ok(_)),
    ensures
        report_of(joined).len() == joined.len(),
        outcome_kind(report_of(joined)[i]) == OutcomeKind::ProtocolFailure,
        forall|j: int|
            0 <= j < joined.len() && j != i ==> outcome_kind(#[trigger] report_of(joined)[j])
                == OutcomeKind::Pushed,
{
    assert forall|j: int| 0 <= j < joined.len() && j != i implies outcome_kind(
        #[trigger] report_of(joined)[j],
    ) == OutcomeKind::Pushed by {
        assert(joined[j] matches Ok(Ok(_)));
    }
}

/// Builds the report from the joined tasks, given in the order in which the
/// tasks were submitted. Every task gets its entry, whatever became of it,
/// and the entries keep that order.
pub fn collect_report(joined: Vec<JoinedPush>) -> (report: Vec<TaskOutcome>)
    ensures
        report@ == report_of(joined@),
        report@.len() == joined@.len(),
{
    let mut report: Vec<TaskOutcome> = Vec::new();
    for entry in it: joined.into_iter()
        invariant
            it.seq() == joined@,
            report@ == report_of(joined@.take(it.index() as int)),
    {
        proof {
            let done = it.index() as int;
            assert(joined@.take(done + 1) =~= joined@.take(done).push(joined@[done]));
            assert(report_of(joined@.take(done + 1)) =~= report_of(joined@.take(done)).push(
                classified(joined@[done]),
            ));
        }
        report.push(classify(entry));
    }
    proof {
        assert(joined@.take(joined@.len() as int) =~= joined@);
    }
    report
}

/// The totals of a report.
#[derive(Clone, Copy, Debug, PartialEq, Eq, Structural)]
pub struct ReportSummary {
    /// How many pushes were attempted: the number of entries.
    pub attempted: usize,
    /// How many images the registry accepted.
    pub pushed: usize,
    /// How many pushes the registry client reported as failed.
    pub protocol_failures: usize,
    /// How many tasks could not be joined.
    pub scheduling_failures: usize,
}

/// Every entry ends in exactly one of the three ways, so the three counts
/// add up to the number of entries.
pub proof fn lemma_counts_partition(report: Seq<TaskOutcome>)
    ensures
        count_kind(report, OutcomeKind::Pushed) + count_kind(report, OutcomeKind::ProtocolFailure)
            + count_kind(report, OutcomeKind::SchedulingFailure) == report.len(),
    decreases report.len(),
{
    if report.len() > 0 {
        lemma_counts_partition(report.drop_last());
    }
}

/// Counts the entries of a report by the way they ended.
pub fn summarize(report: &Vec<TaskOutcome>) -> (summary: ReportSummary)
    ensures
        summary.attempted == report@.len(),
        summary.pushed == count_kind(report@, OutcomeKind::Pushed),
        summary.protocol_failures == count_kind(report@, OutcomeKind::ProtocolFailure),
        summary.scheduling_failures == count_kind(report@, OutcomeKind::SchedulingFailure),
{
    let mut pushed: usize = 0;
    let mut protocol_failures: usize = 0;
    let mut scheduling_failures: usize = 0;
    let mut i: usize = 0;
    while i < report.len()
        invariant
            i <= report@.len(),
            pushed == count_kind(report@.take(i as int), OutcomeKind::Pushed),
            protocol_failures == count_kind(report@.take(i as int), OutcomeKind::ProtocolFailure),
            scheduling_failures == count_kind(
                report@.take(i as int),
                OutcomeKind::SchedulingFailure,
            ),
        decreases report@.len() - i,
    {
        proof {
            lemma_counts_partition(report@.take(i as int));
            assert(report@.take(i + 1).drop_last() =~= report@.take(i as int));
            assert(report@.take(i + 1).last() == report@[i as int]);
        }
        match crate::outcome::kind_of(&report[i]) {
            OutcomeKind::Pushed => {
                pushed = pushed + 1;
            },
            OutcomeKind::ProtocolFailure => {
                protocol_failures = protocol_failures + 1;
            },
            OutcomeKind::SchedulingFailure => {
                scheduling_failures = scheduling_failures + 1;
            },
        }
        i = i + 1;
    }
    proof {
        assert(report@.take(report@.len() as int) =~= report@);
    }
    ReportSummary { attempted: report.len(), pushed, protocol_failures, scheduling_failures }
}

} // verus!
