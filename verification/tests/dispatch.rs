use smart_bench::account::Account;
use smart_bench::call::{CallProducer, EncodedMessage, FixedMessage};
use smart_bench::deployer::DeployedInstance;
use smart_bench::dispatcher::{batch_end, dispatch, issue};
use smart_bench::error::Error;
use smart_bench::pendulum_amm::messages::get_reserves;
use smart_bench::transaction::{ChainMetadata, Target};

fn metadata() -> ChainMetadata {
    ChainMetadata { genesis_hash: [0xaa; 32], spec_version: 9, transaction_version: 2, mortality: 0 }
}

fn instances(count: u8) -> Vec<DeployedInstance> {
    (0..count)
        .map(|i| DeployedInstance {
            contract: "pool".to_string(),
            address: [0x40 + i; 32],
            owner: [1u8; 32],
        })
        .collect()
}

struct Counting {
    calls: u8,
}

impl CallProducer for Counting {
    fn next(&mut self) -> Result<EncodedMessage, Error> {
        self.calls += 1;
        Ok(EncodedMessage(vec![0xde, 0xad, 0xbe, 0xef, self.calls]))
    }
}

struct FailingEveryThird {
    calls: u8,
}

impl CallProducer for FailingEveryThird {
    fn next(&mut self) -> Result<EncodedMessage, Error> {
        self.calls += 1;
        if self.calls % 3 == 0 {
            Err(Error::Encoding)
        } else {
            Ok(EncodedMessage(vec![self.calls]))
        }
    }
}

#[test]
fn three_instances_two_rounds_give_six_transactions() {
    let mut account = Account::new([1u8; 32], 3);
    let mut producer = FixedMessage::new(&get_reserves()).unwrap();
    let out = dispatch(&instances(3), &mut producer, 2, &mut account, &metadata());
    assert_eq!(out.len(), 6);
    assert_eq!(account.peek_nonce(), 9);
    for (k, slot) in out.iter().enumerate() {
        let tx = slot.as_ref().unwrap();
        assert_eq!(tx.key.signer, [1u8; 32]);
        assert_eq!(tx.key.nonce, 3 + k as u64);
        let expected = [0x40 + (k % 3) as u8; 32];
        assert!(matches!(tx.target, Target::Call(address) if address == expected));
        assert_eq!(tx.payload, vec![4 << 2, 0x8a, 0x0d, 0x11, 0x6f]);
        assert_eq!(tx.tag, "pool");
    }
}

#[test]
fn producer_is_asked_once_for_every_call() {
    let mut account = Account::new([1u8; 32], 0);
    let mut producer = Counting { calls: 0 };
    let out = dispatch(&instances(2), &mut producer, 3, &mut account, &metadata());
    assert_eq!(producer.calls, 6);
    for (k, slot) in out.iter().enumerate() {
        let tx = slot.as_ref().unwrap();
        assert_eq!(tx.payload, vec![5 << 2, 0xde, 0xad, 0xbe, 0xef, k as u8 + 1]);
    }
}

#[test]
fn call_that_cannot_be_built_costs_no_nonce() {
    let mut account = Account::new([1u8; 32], 100);
    let mut producer = FailingEveryThird { calls: 0 };
    let out = dispatch(&instances(3), &mut producer, 2, &mut account, &metadata());
    assert_eq!(out.len(), 6);
    let nonces: Vec<Option<u64>> = out.iter().map(|slot| slot.as_ref().ok().map(|tx| tx.key.nonce)).collect();
    assert_eq!(nonces, vec![Some(100), Some(101), None, Some(102), Some(103), None]);
    assert_eq!(out[2].as_ref().err(), Some(&Error::Encoding));
    assert_eq!(account.peek_nonce(), 104);
    let third = out[3].as_ref().unwrap();
    assert!(matches!(third.target, Target::Call(address) if address == [0x40; 32]));
}

#[test]
fn no_instances_or_no_rounds_give_no_transactions() {
    let mut account = Account::new([1u8; 32], 5);
    let mut producer = Counting { calls: 0 };
    assert!(dispatch(&instances(0), &mut producer, 4, &mut account, &metadata()).is_empty());
    assert!(dispatch(&instances(3), &mut producer, 0, &mut account, &metadata()).is_empty());
    assert_eq!(producer.calls, 0);
    assert_eq!(account.peek_nonce(), 5);
}

#[test]
fn issue_passes_a_producers_error_through() {
    let mut account = Account::new([1u8; 32], 5);
    let instance = &instances(1)[0];
    let out = issue(&mut account, instance, Err(Error::Encoding), &metadata());
    assert_eq!(out.err(), Some(Error::Encoding));
    assert_eq!(account.peek_nonce(), 5);
    let out = issue(&mut account, instance, Ok(EncodedMessage(vec![7])), &metadata()).unwrap();
    assert_eq!(out.key.nonce, 5);
    assert_eq!(out.payload, vec![4, 7]);
    assert_eq!(account.peek_nonce(), 6);
}

#[test]
fn batches_are_bounded_by_the_fan_out() {
    assert_eq!(batch_end(0, 6, 4), 4);
    assert_eq!(batch_end(4, 6, 4), 6);
    assert_eq!(batch_end(6, 6, 4), 6);
    assert_eq!(batch_end(0, 6, 0), 1);
    assert_eq!(batch_end(0, 0, 3), 0);
    assert_eq!(batch_end(2, 6, usize::MAX), 6);
}

#[test]
fn steady_producer_has_every_call_built_with_its_message() {
    let mut account = Account::new([1u8; 32], 10);
    let mut producer = FixedMessage::new(&get_reserves()).unwrap();
    let out = dispatch(&instances(3), &mut producer, 2, &mut account, &metadata());
    assert!(out.iter().all(|slot| slot.is_ok()));
    let per_address: Vec<usize> = (0..3u8)
        .map(|i| {
            out.iter()
                .filter(|slot| matches!(slot.as_ref().unwrap().target, Target::Call(address) if address == [0x40 + i; 32]))
                .count()
        })
        .collect();
    assert_eq!(per_address, vec![2, 2, 2]);
    let nonces: Vec<u64> = out.iter().map(|slot| slot.as_ref().unwrap().key.nonce).collect();
    assert_eq!(nonces, vec![10, 11, 12, 13, 14, 15]);
    assert_eq!(account.peek_nonce(), 16);
    assert_eq!(producer.next().unwrap().0, vec![0x8a, 0x0d, 0x11, 0x6f]);
}
