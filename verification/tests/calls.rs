use smart_bench::call::{encode_constructor, with_selector, CallProducer, EncodedMessage, FixedMessage};
use smart_bench::pendulum_amm::constructors::{new, New};
use smart_bench::pendulum_amm::messages::{get_reserves, set_fee_to, GetReserves, SetFeeTo};
use smart_bench::scenario::{contract_named, contract_spec, Contract};
use smart_bench::{InkConstructor, InkMessage};

const ISSUER: &str = "GAKNDFRRWA3RPWNLTI3G4EBSD3RGNZZOY5WKWYMQ6CQTG3KIEKPYWAYC";

fn pool_call_data() -> Vec<u8> {
    let mut expected = vec![0x9b, 0xae, 0x9d, 0x5e];
    expected.push(4 << 2);
    expected.extend_from_slice(b"USDC");
    expected.push(56 << 2);
    expected.extend_from_slice(ISSUER.as_bytes());
    expected.push(3 << 2);
    expected.extend_from_slice(b"EUR");
    expected.push(56 << 2);
    expected.extend_from_slice(ISSUER.as_bytes());
    expected
}

#[test]
fn selector_comes_before_the_arguments() {
    assert_eq!(with_selector([1, 2, 3, 4], vec![9, 8]), vec![1, 2, 3, 4, 9, 8]);
    assert_eq!(with_selector([1, 2, 3, 4], Vec::new()), vec![1, 2, 3, 4]);
}

#[test]
fn constructor_call_data_is_selector_and_four_texts() {
    let constructor = new("USDC".to_string(), ISSUER.to_string(), "EUR".to_string(), ISSUER.to_string());
    assert_eq!(New::SELECTOR, [0x9b, 0xae, 0x9d, 0x5e]);
    assert_eq!(encode_constructor(&constructor).unwrap(), pool_call_data());
}

#[test]
fn constructor_arguments_are_encoded_without_the_selector() {
    let constructor = new("a".to_string(), String::new(), "bc".to_string(), "d".to_string());
    assert_eq!(constructor.encode().unwrap(), vec![4, b'a', 0, 8, b'b', b'c', 4, b'd']);
}

#[test]
fn set_fee_to_carries_the_account() {
    let bob = [0xb0u8; 32];
    let message = EncodedMessage::new(&set_fee_to(bob)).unwrap();
    let mut expected = vec![0x67, 0xb3, 0xae, 0x9d];
    expected.extend_from_slice(&bob);
    assert_eq!(message.0, expected);
    assert_eq!(SetFeeTo::SELECTOR, [0x67, 0xb3, 0xae, 0x9d]);
}

#[test]
fn get_reserves_is_its_selector_alone() {
    let message = EncodedMessage::new(&get_reserves()).unwrap();
    assert_eq!(message.0, vec![0x8a, 0x0d, 0x11, 0x6f]);
    assert_eq!(GetReserves::SELECTOR, [0x8a, 0x0d, 0x11, 0x6f]);
}

#[test]
fn fixed_message_hands_out_the_same_message_every_time() {
    let mut producer = FixedMessage::new(&get_reserves()).unwrap();
    let first = producer.next().unwrap();
    let second = producer.next().unwrap();
    assert_eq!(first.0, vec![0x8a, 0x0d, 0x11, 0x6f]);
    assert_eq!(second.0, first.0);
    assert_eq!(first.duplicate().0, first.0);
}

#[test]
fn scenarios_are_found_by_name() {
    assert_eq!(contract_named("set-fee-to"), Some(Contract::SetFeeTo));
    assert_eq!(contract_named("get-reserves"), Some(Contract::GetReserves));
    assert_eq!(contract_named("set_fee_to"), None);
    assert_eq!(contract_named(""), None);
}

#[test]
fn both_scenarios_deploy_the_same_pool() {
    let bob = [0xb0u8; 32];
    let first = contract_spec(Contract::SetFeeTo, bob).unwrap();
    let second = contract_spec(Contract::GetReserves, bob).unwrap();
    assert_eq!(first.name, "pendulum_amm");
    assert_eq!(second.name, "pendulum_amm");
    assert_eq!(encode_constructor(&first.constructor).unwrap(), pool_call_data());
    assert_eq!(encode_constructor(&second.constructor).unwrap(), pool_call_data());
}

#[test]
fn scenarios_differ_in_their_message() {
    let bob = [0xb0u8; 32];
    let mut expected = vec![0x67, 0xb3, 0xae, 0x9d];
    expected.extend_from_slice(&bob);
    let first = contract_spec(Contract::SetFeeTo, bob).unwrap();
    assert_eq!(first.producer.message.0, expected);
    let second = contract_spec(Contract::GetReserves, bob).unwrap();
    assert_eq!(second.producer.message.0, vec![0x8a, 0x0d, 0x11, 0x6f]);
}
