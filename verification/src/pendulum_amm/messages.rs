//! Messages of the Pendulum AMM contract.

use vstd::prelude::*;
use crate::error::Error;
use crate::scale::encode_account;
use crate::{AccountId, InkMessage};

verus! {

/// `set_fee_to`: names the account that receives the pool's fees.
#[derive(Debug)]
pub struct SetFeeTo {
    pub to: AccountId,
}

/// `get_reserves`: reads the pool's two reserves.
#[derive(Debug)]
pub struct GetReserves;

/// The message `set_fee_to` with its argument.
pub fn set_fee_to(to: AccountId) -> (out: SetFeeTo)
    ensures
        out.to == to,
{
    SetFeeTo { to }
}

/// The message `get_reserves`, which takes no argument.
pub fn get_reserves() -> GetReserves {
    GetReserves
}

impl InkMessage for SetFeeTo {
    const SELECTOR: [u8; 4] = [0x67, 0xb3, 0xae, 0x9d];

    open spec fn args(&self) -> Seq<u8> {
        self.to@
    }

    open spec fn encodable(&self) -> bool {
        true
    }

    fn encode(&self) -> (out: Result<Vec<u8>, Error>) {
        Ok(encode_account(&self.to))
    }
}

impl InkMessage for GetReserves {
    const SELECTOR: [u8; 4] = [0x8a, 0x0d, 0x11, 0x6f];

    open spec fn args(&self) -> Seq<u8> {
        Seq::empty()
    }

    open spec fn encodable(&self) -> bool {
        true
    }

    fn encode(&self) -> (out: Result<Vec<u8>, Error>) {
        Ok(Vec::new())
    }
}

} // verus!
