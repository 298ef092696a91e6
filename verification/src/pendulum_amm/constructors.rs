//! Constructors of the Pendulum AMM contract.

use vstd::prelude::*;
use crate::error::Error;
use crate::scale::{encodable_text, encode_text, encoded_text};
use crate::InkConstructor;

verus! {

/// `new`: a pool of two assets, each given by its code and its issuer.
#[derive(Debug)]
pub struct New {
    pub asset_code_0: String,
    pub issuer_0: String,
    pub asset_code_1: String,
    pub issuer_1: String,
}

/// The constructor `new` with its four arguments.
pub fn new(asset_code_0: String, issuer_0: String, asset_code_1: String, issuer_1: String) -> (out:
    New)
    ensures
        out.asset_code_0 == asset_code_0,
        out.issuer_0 == issuer_0,
        out.asset_code_1 == asset_code_1,
        out.issuer_1 == issuer_1,
{
    New { asset_code_0, issuer_0, asset_code_1, issuer_1 }
}

impl InkConstructor for New {
    const SELECTOR: [u8; 4] = [0x9b, 0xae, 0x9d, 0x5e];

    open spec fn args(&self) -> Seq<u8> {
        encoded_text(self.asset_code_0@) + encoded_text(self.issuer_0@) + encoded_text(
            self.asset_code_1@,
        ) + encoded_text(self.issuer_1@)
    }

    open spec fn encodable(&self) -> bool {
        &&& encodable_text(self.asset_code_0@)
        &&& encodable_text(self.issuer_0@)
        &&& encodable_text(self.asset_code_1@)
        &&& encodable_text(self.issuer_1@)
    }

    fn encode(&self) -> (out: Result<Vec<u8>, Error>) {
        let mut bytes = encode_text(self.asset_code_0.as_str())?;
        let mut second = encode_text(self.issuer_0.as_str())?;
        let mut third = encode_text(self.asset_code_1.as_str())?;
        let mut fourth = encode_text(self.issuer_1.as_str())?;
        bytes.append(&mut second);
        bytes.append(&mut third);
        bytes.append(&mut fourth);
        Ok(bytes)
    }
}

} // verus!
