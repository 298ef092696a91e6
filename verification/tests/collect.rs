use smart_bench::chain::{BlockHeader, ExtrinsicEvent, SubmitOutcome, TxKey};
use smart_bench::error::Error;
use smart_bench::stats::{Collector, RunStatus};

const ALICE: [u8; 32] = [0xa1; 32];

fn key(nonce: u64) -> TxKey {
    TxKey { signer: ALICE, nonce }
}

fn header(height: u64) -> BlockHeader {
    BlockHeader { id: [height as u8; 32], height }
}

fn events(nonces: &[(u64, bool)]) -> Vec<ExtrinsicEvent> {
    nonces
        .iter()
        .enumerate()
        .map(|(i, (nonce, success))| ExtrinsicEvent { index: i as u32, key: key(*nonce), success: *success, contract: None })
        .collect()
}

#[test]
fn each_block_counts_the_transactions_it_holds() {
    let mut collector = Collector::new(10);
    for nonce in 0..6 {
        collector.on_submitted(key(nonce), SubmitOutcome::Accepted);
    }
    collector.dispatch_finished();
    let first = collector.on_block(&header(100), &events(&[(0, true), (1, true), (9, true)])).unwrap();
    assert_eq!(first.block, [100u8; 32]);
    assert_eq!(first.height, 100);
    assert_eq!(first.included, 2);
    assert_eq!(first.failed, 0);
    let second = collector.on_block(&header(101), &events(&[])).unwrap();
    assert_eq!(second.included, 0);
    let third = collector.on_block(&header(102), &events(&[(2, true), (3, false), (4, true), (5, true)])).unwrap();
    assert_eq!(third.included, 4);
    assert_eq!(third.failed, 1);
    assert_eq!(collector.status(), RunStatus::Complete);
    assert!(collector.finished());
    assert!(collector.on_block(&header(103), &events(&[(0, true)])).is_none());
    let summary = collector.summary();
    assert_eq!(summary.succeeded, 5);
    assert_eq!(summary.failed, 1);
    assert_eq!(summary.dropped, 0);
    assert_eq!(summary.rejected, 0);
    assert_eq!(summary.status, RunStatus::Complete);
    assert_eq!(first.included + second.included + third.included, 6);
}

#[test]
fn transaction_is_counted_in_one_block_only() {
    let mut collector = Collector::new(10);
    collector.on_submitted(key(0), SubmitOutcome::Accepted);
    collector.on_submitted(key(1), SubmitOutcome::Accepted);
    let first = collector.on_block(&header(1), &events(&[(0, true)])).unwrap();
    let second = collector.on_block(&header(2), &events(&[(0, true)])).unwrap();
    assert_eq!(first.included, 1);
    assert_eq!(second.included, 0);
    assert_eq!(collector.summary().dropped, 1);
}

#[test]
fn one_rejection_of_six_leaves_five_resolved() {
    let mut collector = Collector::new(10);
    for nonce in 0..6 {
        let outcome = if nonce == 2 { SubmitOutcome::Rejected } else { SubmitOutcome::Accepted };
        collector.on_submitted(key(nonce), outcome);
    }
    collector.dispatch_finished();
    let stats = collector.on_block(&header(7), &events(&[(0, true), (1, true), (2, true), (3, true), (4, true), (5, true)])).unwrap();
    assert_eq!(stats.included, 5);
    let summary = collector.summary();
    assert_eq!(summary.succeeded + summary.failed, 5);
    assert_eq!(summary.rejected, 1);
    assert_eq!(summary.dropped, 0);
    assert_eq!(summary.succeeded + summary.failed + summary.dropped + summary.rejected, 6);
    assert_eq!(summary.status, RunStatus::Complete);
    assert_eq!(summary.status.error(), None);
}

#[test]
fn run_without_blocks_times_out_and_reports_all_as_dropped() {
    let mut collector = Collector::new(4);
    for nonce in 0..6 {
        collector.on_submitted(key(nonce), SubmitOutcome::Accepted);
    }
    collector.dispatch_finished();
    let mut waits = 0;
    while !collector.finished() {
        collector.on_idle();
        waits += 1;
        assert!(waits <= 4);
    }
    assert_eq!(waits, 4);
    let summary = collector.summary();
    assert_eq!(summary.status, RunStatus::TimedOut);
    assert_eq!(summary.status.error(), Some(Error::Timeout));
    assert_eq!(summary.dropped, 6);
    assert_eq!(summary.succeeded, 0);
    assert_eq!(summary.failed, 0);
    let dropped: Vec<u64> = collector.unresolved().iter().map(|k| k.nonce).collect();
    assert_eq!(dropped, vec![0, 1, 2, 3, 4, 5]);
    assert!(collector.on_block(&header(1), &events(&[(0, true)])).is_none());
    assert_eq!(collector.summary().dropped, 6);
}

#[test]
fn run_with_nothing_submitted_emits_nothing() {
    let mut collector = Collector::new(10);
    assert_eq!(collector.status(), RunStatus::Running);
    collector.dispatch_finished();
    assert_eq!(collector.status(), RunStatus::Complete);
    assert!(collector.on_block(&header(1), &events(&[(0, true)])).is_none());
    assert!(collector.on_block(&header(2), &events(&[])).is_none());
    let summary = collector.summary();
    assert_eq!(summary.succeeded + summary.failed + summary.dropped + summary.rejected, 0);
}

#[test]
fn lost_connection_ends_the_run() {
    let mut collector = Collector::new(10);
    collector.on_submitted(key(0), SubmitOutcome::Accepted);
    collector.on_submitted(key(1), SubmitOutcome::NetworkDown);
    assert_eq!(collector.status(), RunStatus::Disconnected);
    assert_eq!(collector.status().error(), Some(Error::Network));
    collector.on_submitted(key(2), SubmitOutcome::Accepted);
    assert!(collector.on_block(&header(1), &events(&[(0, true)])).is_none());
    let summary = collector.summary();
    assert_eq!(summary.dropped, 1);
    assert_eq!(summary.succeeded, 0);
}

#[test]
fn run_keeps_waiting_while_dispatch_goes_on() {
    let mut collector = Collector::new(10);
    collector.on_submitted(key(0), SubmitOutcome::Accepted);
    let stats = collector.on_block(&header(1), &events(&[(0, true)])).unwrap();
    assert_eq!(stats.included, 1);
    assert_eq!(collector.status(), RunStatus::Running);
    collector.on_submitted(key(1), SubmitOutcome::Accepted);
    collector.dispatch_finished();
    assert_eq!(collector.status(), RunStatus::Running);
    collector.on_submitted(key(2), SubmitOutcome::Accepted);
    assert_eq!(collector.summary().dropped, 1);
}

#[test]
fn statistics_line_tells_the_block_and_the_counts() {
    let mut collector = Collector::new(10);
    for nonce in 0..3 {
        collector.on_submitted(key(nonce), SubmitOutcome::Accepted);
    }
    let stats = collector.on_block(&header(4711), &events(&[(0, true), (1, false), (2, false)])).unwrap();
    assert_eq!(stats.stats, "block 4711: 3 calls included, 2 of them failed");
}

#[test]
fn block_delivered_twice_is_counted_once() {
    let mut collector = Collector::new(10);
    for nonce in 0..3 {
        collector.on_submitted(key(nonce), SubmitOutcome::Accepted);
    }
    let first = collector.on_block(&header(5), &events(&[(0, true)])).unwrap();
    assert_eq!(first.included, 1);
    assert!(collector.on_block(&header(5), &events(&[(0, true), (1, true)])).is_none());
    assert!(collector.on_block(&header(4), &events(&[(1, true)])).is_none());
    assert_eq!(collector.summary().dropped, 2);
    let next = collector.on_block(&header(6), &events(&[(1, true)])).unwrap();
    assert_eq!(next.included, 1);
    assert_eq!(next.height, 6);
}

#[test]
fn included_counts_never_add_up_to_more_than_was_submitted() {
    let mut collector = Collector::new(50);
    let mut included = 0;
    for round in 0..5u64 {
        for i in 0..4u64 {
            let outcome = if i == 3 { SubmitOutcome::Rejected } else { SubmitOutcome::Accepted };
            collector.on_submitted(key(round * 4 + i), outcome);
        }
        let reported: Vec<(u64, bool)> = (0..20).map(|nonce| (nonce, nonce % 2 == 0)).collect();
        let stats = collector.on_block(&header(round + 1), &events(&reported)).unwrap();
        included += stats.included;
        let summary = collector.summary();
        assert_eq!(summary.succeeded + summary.failed, included);
        assert!(included <= summary.succeeded + summary.failed + summary.dropped + summary.rejected);
    }
    assert_eq!(included, 15);
    assert_eq!(collector.summary().rejected, 5);
}

#[test]
fn statistics_line_writes_numbers_in_decimal() {
    let mut collector = Collector::new(10);
    let first = collector.on_block(&BlockHeader { id: [0; 32], height: 0 }, &events(&[])).unwrap();
    assert_eq!(first.stats, "block 0: 0 calls included, 0 of them failed");
    for nonce in 0..12 {
        collector.on_submitted(key(nonce), SubmitOutcome::Accepted);
    }
    let reported: Vec<(u64, bool)> = (0..12).map(|nonce| (nonce, nonce != 3)).collect();
    let last = collector.on_block(&BlockHeader { id: [1; 32], height: u64::MAX }, &events(&reported)).unwrap();
    assert_eq!(last.stats, "block 18446744073709551615: 12 calls included, 1 of them failed");
    assert_eq!(collector.submitted(), 12);
}
