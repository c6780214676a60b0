use sysmetrics::txn::TxnDecision;
use sysmetrics::txn::decide_commit;

#[test]
fn commits_when_every_insert_succeeded() {
    assert_eq!(decide_commit(&vec![true, true, true]), TxnDecision::Commit);
}

#[test]
fn commits_an_empty_run() {
    assert_eq!(decide_commit(&vec![]), TxnDecision::Commit);
}

#[test]
fn aborts_when_any_insert_failed() {
    assert_eq!(decide_commit(&vec![true, false, true]), TxnDecision::Abort);
    assert_eq!(decide_commit(&vec![false]), TxnDecision::Abort);
    assert_eq!(decide_commit(&vec![true, true, false]), TxnDecision::Abort);
}
