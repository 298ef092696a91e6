//! A load generator for smart-contract calls: it deploys contract instances,
//! issues nonce-ordered call transactions against them and counts, block by
//! block, how many of them the chain has included.

use vstd::prelude::*;

pub mod account;
pub mod call;
pub mod chain;
pub mod deployer;
pub mod dispatcher;
pub mod error;
pub mod pendulum_amm;
pub mod runner;
pub mod scale;
pub mod scenario;
pub mod stats;
pub mod tracker;
pub mod transaction;

use crate::error::Error;

verus! {

/// Balance of an account, in the chain's smallest unit.
pub type Balance = u128;

/// Weight of a contract call.
pub type Gas = u64;

/// Identifier of an account: the 32 bytes derived from its public key.
pub type AccountId = [u8; 32];

/// Identifier of a block.
pub type BlockHash = [u8; 32];

/// A contract constructor: its selector and its arguments in SCALE form.
pub trait InkConstructor {
    /// The four bytes by which the contract tells its constructors apart.
    const SELECTOR: [u8; 4];

    /// The SCALE encoding of the arguments.
    spec fn args(&self) -> Seq<u8>;

    /// Whether the arguments are within what SCALE can encode.
    spec fn encodable(&self) -> bool;

    /// Encodes the arguments, without the selector.
    fn encode(&self) -> (out: Result<Vec<u8>, Error>)
        ensures
            match out {
                Ok(bytes) => self.encodable() && bytes@ == self.args(),
                Err(e) => !self.encodable() && e == Error::Encoding,
            },
    ;
}

/// A contract message: its selector and its arguments in SCALE form.
pub trait InkMessage {
    /// The four bytes by which the contract tells its messages apart.
    const SELECTOR: [u8; 4];

    /// The SCALE encoding of the arguments.
    spec fn args(&self) -> Seq<u8>;

    /// Whether the arguments are within what SCALE can encode.
    spec fn encodable(&self) -> bool;

    /// Encodes the arguments, without the selector.
    fn encode(&self) -> (out: Result<Vec<u8>, Error>)
        ensures
            match out {
                Ok(bytes) => self.encodable() && bytes@ == self.args(),
                Err(e) => !self.encodable() && e == Error::Encoding,
            },
    ;
}

} // verus!
