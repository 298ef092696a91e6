//! The values that cross the boundary to the node: what a submission came
//! to, and what a finalized block says of the transactions in it.

use vstd::prelude::*;
use crate::error::Error;
use crate::{AccountId, BlockHash};

verus! {

/// Whether two account identifiers are the same account.
pub fn same_account(a: &AccountId, b: &AccountId) -> (out: bool)
    ensures
        out == (*a == *b),
{
    let mut i: usize = 0;
    while i < 32
        invariant
            i <= 32,
            forall|j: int| 0 <= j < i ==> a[j] == b[j],
        decreases 32 - i,
    {
        if a[i] != b[i] {
            return false;
        }
        i = i + 1;
    }
    assert(*a =~= *b);
    true
}

/// What identifies a transaction on chain: who signed it, and with which
/// nonce. An account never signs two transactions with one nonce.
#[derive(Clone, Copy, Debug)]
pub struct TxKey {
    pub signer: AccountId,
    pub nonce: u64,
}

impl TxKey {
    /// Whether both keys name the same transaction.
    pub fn matches(&self, other: &TxKey) -> (out: bool)
        ensures
            out == (*self == *other),
    {
        self.nonce == other.nonce && same_account(&self.signer, &other.signer)
    }
}

/// What the node answered to a submission.
#[derive(Clone, Copy, Debug, PartialEq, Eq, Structural)]
pub enum SubmitOutcome {
    /// The node took the transaction into its pool.
    Accepted,
    /// The node refused the transaction outright.
    Rejected,
    /// The node could not be reached.
    NetworkDown,
}

impl SubmitOutcome {
    /// The answer as success or failure: a refusal is `Error::Rejected`, an
    /// unreachable node `Error::Network`.
    pub fn into_result(self) -> (out: Result<(), Error>)
        ensures
            out == match self {
                SubmitOutcome::Accepted => Ok::<(), Error>(()),
                SubmitOutcome::Rejected => Err::<(), Error>(Error::Rejected),
                SubmitOutcome::NetworkDown => Err::<(), Error>(Error::Network),
            },
    {
        match self {
            SubmitOutcome::Accepted => Ok(()),
            SubmitOutcome::Rejected => Err(Error::Rejected),
            SubmitOutcome::NetworkDown => Err(Error::Network),
        }
    }
}

/// The header of a finalized block.
#[derive(Clone, Copy, Debug)]
pub struct BlockHeader {
    pub id: BlockHash,
    pub height: u64,
}

/// One transaction as a finalized block reports it.
#[derive(Clone, Copy, Debug)]
pub struct ExtrinsicEvent {
    /// Position of the transaction in the block.
    pub index: u32,
    /// Who signed it, and with which nonce.
    pub key: TxKey,
    /// Whether it ran to success.
    pub success: bool,
    /// The address of the contract it instantiated, if it did.
    pub contract: Option<AccountId>,
}

/// The account that signed a transaction, read from the address field of
/// the transaction as the block holds it: a byte 0, which says that an
/// account identifier follows, and the 32 bytes of that identifier. Any
/// other form of address names no account that this crate signs for.
pub fn signer_of(address: &[u8]) -> (out: Option<AccountId>)
    ensures
        out is Some <==> address@.len() == 33 && address@[0] == 0,
        out is Some ==> out->Some_0@ == address@.subrange(1, 33),
{
    if address.len() != 33 || address[0] != 0 {
        return None;
    }
    let mut id: AccountId = [0u8; 32];
    let mut i: usize = 0;
    while i < 32
        invariant
            i <= 32,
            address@.len() == 33,
            forall|j: int| 0 <= j < i ==> id[j] == address@[j + 1],
        decreases 32 - i,
    {
        id[i] = address[i + 1];
        i = i + 1;
    }
    Some(id)
}

impl ExtrinsicEvent {
    /// A transaction found in a block, of which no event has been read yet:
    /// not known to have succeeded, and with no contract to its name.
    pub fn unsettled(index: u32, key: TxKey) -> (out: ExtrinsicEvent)
        ensures
            out == (ExtrinsicEvent { index, key, success: false, contract: None }),
    {
        ExtrinsicEvent { index, key, success: false, contract: None }
    }

    /// Whether the event `variant` of `pallet` says that the transaction ran
    /// to success.
    pub open spec fn is_success(pallet: Seq<char>, variant: Seq<char>) -> bool {
        pallet == "System"@ && variant == "ExtrinsicSuccess"@
    }

    /// Whether the event `variant` of `pallet`, with these field bytes, says
    /// that the transaction instantiated a contract: the fields are then the
    /// deployer's account followed by the contract's.
    pub open spec fn is_instantiation(
        pallet: Seq<char>,
        variant: Seq<char>,
        fields: Seq<u8>,
    ) -> bool {
        pallet == "Contracts"@ && variant == "Instantiated"@ && fields.len() >= 64
    }

    /// Takes in one of the events that the chain emitted for the transaction.
    /// A success event marks the transaction as successful, an instantiation
    /// event gives it the contract's address, and every other event leaves
    /// it as it was.
    pub fn note(&mut self, pallet: &str, variant: &str, fields: &[u8])
        ensures
            final(self).index == old(self).index,
            final(self).key == old(self).key,
            final(self).success == (old(self).success || Self::is_success(pallet@, variant@)),
            if Self::is_instantiation(pallet@, variant@, fields@) {
                final(self).contract is Some && final(self).contract->Some_0@ == fields@.subrange(
                    32,
                    64,
                )
            } else {
                final(self).contract == old(self).contract
            },
    {
        let pallet = pallet.to_owned();
        let variant = variant.to_owned();
        if pallet == "System".to_owned() && variant == "ExtrinsicSuccess".to_owned() {
            self.success = true;
        }
        if pallet == "Contracts".to_owned() && variant == "Instantiated".to_owned() && fields.len()
            >= 64 {
            let mut address: AccountId = [0u8; 32];
            let mut i: usize = 0;
            while i < 32
                invariant
                    i <= 32,
                    fields@.len() >= 64,
                    forall|j: int| 0 <= j < i ==> address[j] == fields@[j + 32],
                decreases 32 - i,
            {
                address[i] = fields[i + 32];
                i = i + 1;
            }
            self.contract = Some(address);
        }
    }
}

} // verus!
