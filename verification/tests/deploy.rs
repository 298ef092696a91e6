use smart_bench::account::Account;
use smart_bench::chain::{ExtrinsicEvent, SubmitOutcome, TxKey};
use smart_bench::deployer::{DeployAction, Deployer};
use smart_bench::error::{DeploymentError, Error};
use smart_bench::transaction::{ChainMetadata, PendingTransaction, Target};

const ALICE: [u8; 32] = [0xa1; 32];

fn metadata() -> ChainMetadata {
    ChainMetadata { genesis_hash: [0xaa; 32], spec_version: 9, transaction_version: 2, mortality: 0 }
}

fn included(key: TxKey, success: bool, contract: Option<[u8; 32]>) -> Vec<ExtrinsicEvent> {
    vec![ExtrinsicEvent { index: 1, key, success, contract }]
}

fn submit(deployer: &mut Deployer, account: &mut Account) -> PendingTransaction {
    match deployer.next_action(account, &metadata()) {
        DeployAction::Submit(tx) => tx,
        other => panic!("expected a submission, got {:?}", other),
    }
}

#[test]
fn instances_are_deployed_one_after_the_other() {
    let mut account = Account::new(ALICE, 20);
    let mut deployer = Deployer::new("pool", vec![1, 2, 3, 4], 3, 5);
    for i in 0..3u8 {
        let tx = submit(&mut deployer, &mut account);
        assert_eq!(tx.key.nonce, 20 + i as u64);
        assert_eq!(tx.key.signer, ALICE);
        assert!(matches!(tx.target, Target::Instantiate));
        assert_eq!(tx.payload, vec![4 << 2, 1, 2, 3, 4]);
        assert_eq!(tx.tag, "pool");
        deployer.on_submitted(SubmitOutcome::Accepted);
        assert!(matches!(deployer.next_action(&mut account, &metadata()), DeployAction::AwaitBlock));
        deployer.on_block(&Vec::new());
        assert!(matches!(deployer.next_action(&mut account, &metadata()), DeployAction::AwaitBlock));
        deployer.on_block(&included(tx.key, true, Some([0x40 + i; 32])));
    }
    assert!(matches!(deployer.next_action(&mut account, &metadata()), DeployAction::Done));
    assert_eq!(account.peek_nonce(), 23);
    assert_eq!(deployer.failure(), None);
    let instances = deployer.into_instances();
    assert_eq!(instances.len(), 3);
    for (i, instance) in instances.iter().enumerate() {
        assert_eq!(instance.contract, "pool");
        assert_eq!(instance.address, [0x40 + i as u8; 32]);
        assert_eq!(instance.owner, ALICE);
    }
}

#[test]
fn no_instances_asked_for_means_nothing_to_do() {
    let mut account = Account::new(ALICE, 20);
    let mut deployer = Deployer::new("pool", vec![1, 2, 3, 4], 0, 5);
    assert!(matches!(deployer.next_action(&mut account, &metadata()), DeployAction::Done));
    assert_eq!(account.peek_nonce(), 20);
    assert!(deployer.instances().is_empty());
    assert_eq!(deployer.failure(), None);
}

#[test]
fn rejected_constructor_aborts_the_rest() {
    let mut account = Account::new(ALICE, 0);
    let mut deployer = Deployer::new("pool", vec![9], 3, 5);
    let first = submit(&mut deployer, &mut account);
    deployer.on_submitted(SubmitOutcome::Accepted);
    deployer.on_block(&included(first.key, true, Some([0x40; 32])));
    let _second = submit(&mut deployer, &mut account);
    deployer.on_submitted(SubmitOutcome::Rejected);
    let expected = Error::Deployment(DeploymentError::Rejected);
    assert!(matches!(deployer.next_action(&mut account, &metadata()), DeployAction::Failed(e) if e == expected));
    assert!(matches!(deployer.next_action(&mut account, &metadata()), DeployAction::Failed(e) if e == expected));
    assert_eq!(deployer.failure(), Some(expected));
    assert_eq!(deployer.instances().len(), 1);
    assert_eq!(account.peek_nonce(), 2);
}

#[test]
fn lost_connection_ends_the_deployment() {
    let mut account = Account::new(ALICE, 0);
    let mut deployer = Deployer::new("pool", vec![9], 1, 5);
    let _tx = submit(&mut deployer, &mut account);
    deployer.on_submitted(SubmitOutcome::NetworkDown);
    assert_eq!(deployer.failure(), Some(Error::Network));
}

#[test]
fn failed_constructor_is_a_deployment_error() {
    let mut account = Account::new(ALICE, 0);
    let mut deployer = Deployer::new("pool", vec![9], 2, 5);
    let tx = submit(&mut deployer, &mut account);
    deployer.on_submitted(SubmitOutcome::Accepted);
    deployer.on_block(&included(tx.key, false, None));
    assert_eq!(deployer.failure(), Some(Error::Deployment(DeploymentError::ConstructorFailed)));
    assert!(deployer.instances().is_empty());
}

#[test]
fn success_without_an_address_is_a_deployment_error() {
    let mut account = Account::new(ALICE, 0);
    let mut deployer = Deployer::new("pool", vec![9], 1, 5);
    let tx = submit(&mut deployer, &mut account);
    deployer.on_block(&included(tx.key, true, None));
    assert_eq!(deployer.failure(), Some(Error::Deployment(DeploymentError::ConstructorFailed)));
}

#[test]
fn constructor_not_seen_within_the_window_times_out() {
    let mut account = Account::new(ALICE, 0);
    let mut deployer = Deployer::new("pool", vec![9], 1, 3);
    let _tx = submit(&mut deployer, &mut account);
    deployer.on_submitted(SubmitOutcome::Accepted);
    deployer.on_block(&Vec::new());
    deployer.on_idle();
    assert_eq!(deployer.failure(), None);
    deployer.on_block(&included(TxKey { signer: ALICE, nonce: 77 }, true, Some([1; 32])));
    assert_eq!(deployer.failure(), Some(Error::Deployment(DeploymentError::Timeout)));
    assert!(matches!(
        deployer.next_action(&mut account, &metadata()),
        DeployAction::Failed(Error::Deployment(DeploymentError::Timeout))
    ));
}

#[test]
fn every_constructor_gets_a_window_of_its_own() {
    let mut account = Account::new(ALICE, 0);
    let mut deployer = Deployer::new("pool", vec![9], 2, 2);
    let first = submit(&mut deployer, &mut account);
    deployer.on_idle();
    deployer.on_block(&included(first.key, true, Some([0x40; 32])));
    let second = submit(&mut deployer, &mut account);
    deployer.on_idle();
    assert_eq!(deployer.failure(), None);
    deployer.on_block(&included(second.key, true, Some([0x41; 32])));
    assert_eq!(deployer.failure(), None);
    assert_eq!(deployer.instances().len(), 2);
}

#[test]
fn blocks_before_any_submission_change_nothing() {
    let mut deployer = Deployer::new("pool", vec![9], 1, 1);
    deployer.on_block(&Vec::new());
    deployer.on_idle();
    deployer.on_submitted(SubmitOutcome::Rejected);
    assert_eq!(deployer.failure(), None);
    assert_eq!(deployer.name(), "pool");
}
