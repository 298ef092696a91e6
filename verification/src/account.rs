//! A signing identity and the sequence numbers it hands out.

use vstd::prelude::*;
use crate::AccountId;

verus! {

/// What an account is to the contracts of this crate: its identity, the
/// nonce it started from and the next nonce it will hand out.
pub struct AccountState {
    pub id: AccountId,
    pub first: nat,
    pub next: nat,
}

impl AccountState {
    /// The counter never runs backwards and fits the chain's nonce type.
    pub open spec fn wf(self) -> bool {
        self.first <= self.next <= u64::MAX
    }

    /// The nonces handed out so far, oldest first.
    pub open spec fn issued(self) -> Seq<nat> {
        Seq::new((self.next - self.first) as nat, |i: int| (self.first + i) as nat)
    }

    /// Whether one more nonce can be handed out.
    pub open spec fn can_issue(self) -> bool {
        self.next < u64::MAX
    }

    /// The state after `count` more nonces have been handed out.
    pub open spec fn advanced(self, count: nat) -> AccountState {
        AccountState { id: self.id, first: self.first, next: self.next + count }
    }
}

/// A signing identity with its nonce counter. The counter is read from the
/// chain once, when the account is made; from then on this value alone
/// decides which nonce comes next.
#[derive(Debug)]
pub struct Account {
    id: AccountId,
    first: u64,
    next: u64,
}

impl View for Account {
    type V = AccountState;

    closed spec fn view(&self) -> AccountState {
        AccountState { id: self.id, first: self.first as nat, next: self.next as nat }
    }
}

impl Account {
    /// Whether the account's counter is in order.
    pub open spec fn wf(&self) -> bool {
        self@.wf()
    }

    /// An account that has handed out nothing yet and starts at the nonce
    /// the chain reports for it.
    pub fn new(id: AccountId, on_chain_nonce: u64) -> (out: Account)
        ensures
            out.wf(),
            out@ == (AccountState { id, first: on_chain_nonce as nat, next: on_chain_nonce as nat }),
            out@.issued() == Seq::<nat>::empty(),
    {
        let out = Account { id, first: on_chain_nonce, next: on_chain_nonce };
        out
    }

    /// The account's identity.
    pub fn id(&self) -> (out: AccountId)
        ensures
            out == self@.id,
    {
        self.id
    }

    /// The nonce the account started from.
    pub fn initial_nonce(&self) -> (out: u64)
        ensures
            out == self@.first,
    {
        self.first
    }

    /// The nonce that the next transaction will carry. Hands out nothing.
    pub fn peek_nonce(&self) -> (out: u64)
        ensures
            out == self@.next,
    {
        self.next
    }

    /// Takes the next nonce: returns the counter's value and moves the
    /// counter on by one. The exclusive borrow makes two callers take turns,
    /// so no nonce is handed out twice.
    pub fn next_nonce(&mut self) -> (out: u64)
        requires
            old(self).wf(),
            old(self)@.can_issue(),
        ensures
            final(self).wf(),
            out == old(self)@.next,
            final(self)@ == old(self)@.advanced(1),
            final(self)@.issued() == old(self)@.issued().push(out as nat),
    {
        let out = self.next;
        self.next = self.next + 1;
        out
    }
}

/// The nonces an account has handed out are the consecutive numbers from the
/// nonce it started with: each is one more than the one before, so they
/// strictly increase and none occurs twice.
pub proof fn nonces_are_contiguous(account: AccountState)
    requires
        account.wf(),
    ensures
        account.issued().len() == account.next - account.first,
        forall|i: int|
            0 <= i < account.issued().len() ==> #[trigger] account.issued()[i] == account.first + i,
        forall|i: int, j: int|
            0 <= i < j < account.issued().len() ==> account.issued()[i] < account.issued()[j],
        account.issued().no_duplicates(),
{
}

/// Handing out `count` nonces one after the other hands out the next `count`
/// numbers, in order, and leaves the earlier ones as they were.
pub proof fn advancing_appends(account: AccountState, count: nat)
    requires
        account.wf(),
    ensures
        account.advanced(count).issued() == account.issued() + Seq::new(
            count,
            |i: int| (account.next + i) as nat,
        ),
        account.advanced(0) == account,
        account.advanced(count).advanced(1) == account.advanced(count + 1),
{
    assert(account.advanced(count).issued() =~= account.issued() + Seq::new(
        count,
        |i: int| (account.next + i) as nat,
    ));
}

} // verus!
