//! The commit/abort decision for one run's batch of inserts.
//!
//! The rows of a run are persisted inside a single database transaction:
//! the batch is committed only if every insert succeeded, so a run leaves
//! either all of its rows visible or none. The decision logic lives here;
//! the binary merely carries it out on a real transaction.

use vstd::prelude::*;
use crate::metrics::MetricRow;

verus! {

/// What becomes of one run's transaction.
#[derive(Clone, Copy, PartialEq, Eq, Structural, Debug)]
pub enum TxnDecision {
    Commit,
    Abort,
}

/// Commit exactly when every insert of the run succeeded.
pub open spec fn spec_decide(results: Seq<bool>) -> TxnDecision {
    if forall|i: int| 0 <= i < results.len() ==> results[i] {
        TxnDecision::Commit
    } else {
        TxnDecision::Abort
    }
}

/// Decides whether to commit a run, given the success of each insert.
pub fn decide_commit(results: &Vec<bool>) -> (d: TxnDecision)
    ensures
        d == spec_decide(results@),
{
    let mut i: usize = 0;
    while i < results.len()
        invariant
            i <= results@.len(),
            forall|k: int| 0 <= k < i ==> results@[k],
        decreases results@.len() - i,
    {
        if !results[i] {
            return TxnDecision::Abort;
        }
        i += 1;
    }
    TxnDecision::Commit
}

/// The rows of the run that the database shows afterwards: all of them after
/// a commit, none after an abort.
pub open spec fn visible_rows(rows: Seq<MetricRow>, d: TxnDecision) -> Seq<MetricRow> {
    match d {
        TxnDecision::Commit => rows,
        TxnDecision::Abort => Seq::empty(),
    }
}

/// All-or-nothing: if any insert of a run failed, none of the run's rows
/// is visible afterwards.
pub proof fn lemma_all_or_nothing(rows: Seq<MetricRow>, results: Seq<bool>, i: int)
    requires
        0 <= i < results.len(),
        !results[i],
    ensures
        visible_rows(rows, spec_decide(results)) == Seq::<MetricRow>::empty(),
{
}

/// The complement: if every insert of a run succeeded, every row is visible.
pub proof fn lemma_commit_keeps_all(rows: Seq<MetricRow>, results: Seq<bool>)
    requires
        forall|i: int| 0 <= i < results.len() ==> results[i],
    ensures
        visible_rows(rows, spec_decide(results)) == rows,
{
}

} // verus!
