//! Building transactions: a call payload, the account's next nonce and the
//! chain's cached metadata become one transaction ready to be signed and sent.

use vstd::prelude::*;
use crate::account::Account;
use crate::chain::TxKey;
use crate::error::Error;
use crate::scale::{encodable_len, encode_bytes, encoded_bytes};
use crate::{AccountId, BlockHash};

verus! {

/// What a transaction must state of the chain it is meant for. Read from the
/// node once and kept for the whole run.
#[derive(Clone, Copy, Debug)]
pub struct ChainMetadata {
    pub genesis_hash: BlockHash,
    pub spec_version: u32,
    pub transaction_version: u32,
    /// For how many blocks a transaction stays valid; 0 for ever.
    pub mortality: u64,
}

/// What a transaction asks of the contracts runtime.
#[derive(Clone, Copy, Debug)]
pub enum Target {
    /// Instantiate a new contract.
    Instantiate,
    /// Call the contract at this address.
    Call(AccountId),
}

/// A transaction that has been built and whose outcome is not yet known.
#[derive(Debug)]
pub struct PendingTransaction {
    /// The signer and the nonce: what the transaction is found again by.
    pub key: TxKey,
    pub target: Target,
    /// The call data as the transaction carries it: SCALE-encoded bytes.
    pub payload: Vec<u8>,
    /// The name of the contract scenario that the transaction belongs to.
    pub tag: String,
    pub metadata: ChainMetadata,
}

/// Builds the transaction that carries `call` for `account`. The transaction
/// takes the account's next nonce, and the account's counter moves on by one.
/// Where `call` is too long to be serialized nothing is built: the result is
/// `Error::Encoding` and the account keeps its nonce.
pub fn build(
    account: &mut Account,
    target: Target,
    call: &[u8],
    tag: &str,
    metadata: &ChainMetadata,
) -> (out: Result<PendingTransaction, Error>)
    requires
        old(account).wf(),
        old(account)@.can_issue(),
    ensures
        final(account).wf(),
        match out {
            Ok(tx) => {
                &&& encodable_len(call@.len())
                &&& final(account)@ == old(account)@.advanced(1)
                &&& tx.key.signer == old(account)@.id
                &&& tx.key.nonce == old(account)@.next
                &&& tx.target == target
                &&& tx.payload@ == encoded_bytes(call@)
                &&& tx.tag@ == tag@
                &&& tx.metadata == *metadata
            },
            Err(e) => {
                &&& !encodable_len(call@.len())
                &&& e == Error::Encoding
                &&& final(account)@ == old(account)@
            },
        },
{
    match encode_bytes(call) {
        Ok(payload) => {
            let nonce = account.next_nonce();
            Ok(
                PendingTransaction {
                    key: TxKey { signer: account.id(), nonce },
                    target,
                    payload,
                    tag: tag.to_owned(),
                    metadata: *metadata,
                },
            )
        },
        Err(e) => Err(e),
    }
}

} // verus!
