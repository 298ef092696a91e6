//! The contract scenarios that can be benchmarked, each with the constructor
//! that deploys it and the message that a run sends to it.

use vstd::prelude::*;
use crate::call::{call_data, FixedMessage};
use crate::error::Error;
use crate::pendulum_amm::constructors::{new, New};
use crate::pendulum_amm::messages::{get_reserves, set_fee_to, GetReserves, SetFeeTo};
use crate::scale::short_text_is_encodable;
use crate::{AccountId, InkConstructor, InkMessage};

verus! {

/// The scenarios.
#[derive(Clone, Copy, Debug, PartialEq, Eq, Structural)]
pub enum Contract {
    /// The AMM pool, called with `set_fee_to`.
    SetFeeTo,
    /// The AMM pool, called with `get_reserves`.
    GetReserves,
}

/// A scenario made ready: the contract's name, the constructor that deploys
/// an instance, and the producer of the message that each call sends.
pub struct ContractSpec {
    pub name: String,
    pub constructor: New,
    pub producer: FixedMessage,
}

/// The call data that the scenario `contract` sends, with `fee_to` as the
/// account that `set_fee_to` names.
pub open spec fn scenario_message(contract: Contract, fee_to: AccountId) -> Seq<u8> {
    match contract {
        Contract::SetFeeTo => call_data(SetFeeTo::SELECTOR, fee_to@),
        Contract::GetReserves => call_data(GetReserves::SELECTOR, Seq::empty()),
    }
}

/// The scenario with this name on the command line, if there is one.
pub fn contract_named(name: &str) -> (out: Option<Contract>)
    ensures
        out == if name@ == "set-fee-to"@ {
            Some(Contract::SetFeeTo)
        } else if name@ == "get-reserves"@ {
            Some(Contract::GetReserves)
        } else {
            None
        },
{
    let given = name.to_owned();
    if given == "set-fee-to".to_owned() {
        Some(Contract::SetFeeTo)
    } else if given == "get-reserves".to_owned() {
        Some(Contract::GetReserves)
    } else {
        None
    }
}

/// Makes a scenario ready. Both scenarios deploy the same pool, of the
/// assets USDC and EUR under one issuer; they differ in the message sent.
pub fn contract_spec(contract: Contract, fee_to: AccountId) -> (out: Result<ContractSpec, Error>)
    ensures
        out is Ok,
        out->Ok_0.name@ == "pendulum_amm"@,
        out->Ok_0.constructor.asset_code_0@ == "USDC"@,
        out->Ok_0.constructor.issuer_0@
            == "GAKNDFRRWA3RPWNLTI3G4EBSD3RGNZZOY5WKWYMQ6CQTG3KIEKPYWAYC"@,
        out->Ok_0.constructor.asset_code_1@ == "EUR"@,
        out->Ok_0.constructor.issuer_1@
            == "GAKNDFRRWA3RPWNLTI3G4EBSD3RGNZZOY5WKWYMQ6CQTG3KIEKPYWAYC"@,
        out->Ok_0.producer.message@ == scenario_message(contract, fee_to),
        out->Ok_0.constructor.encodable(),
{
    proof {
        reveal_strlit("USDC");
        reveal_strlit("EUR");
        reveal_strlit("GAKNDFRRWA3RPWNLTI3G4EBSD3RGNZZOY5WKWYMQ6CQTG3KIEKPYWAYC");
        short_text_is_encodable("USDC"@);
        short_text_is_encodable("EUR"@);
        short_text_is_encodable("GAKNDFRRWA3RPWNLTI3G4EBSD3RGNZZOY5WKWYMQ6CQTG3KIEKPYWAYC"@);
    }
    let constructor = new(
        "USDC".to_owned(),
        "GAKNDFRRWA3RPWNLTI3G4EBSD3RGNZZOY5WKWYMQ6CQTG3KIEKPYWAYC".to_owned(),
        "EUR".to_owned(),
        "GAKNDFRRWA3RPWNLTI3G4EBSD3RGNZZOY5WKWYMQ6CQTG3KIEKPYWAYC".to_owned(),
    );
    let producer = match contract {
        Contract::SetFeeTo => FixedMessage::new(&set_fee_to(fee_to))?,
        Contract::GetReserves => FixedMessage::new(&get_reserves())?,
    };
    Ok(ContractSpec { name: "pendulum_amm".to_owned(), constructor, producer })
}

} // verus!
