//! Dispatching calls: for every round and every deployed instance one
//! message is asked of the producer and built into a transaction that
//! carries the owning account's next nonce.

use vstd::prelude::*;
use vstd::arithmetic::div_mod::lemma_fundamental_div_mod_converse;
use crate::account::{Account, AccountState};
use crate::call::{CallProducer, EncodedMessage};
use crate::deployer::DeployedInstance;
use crate::error::Error;
use crate::scale::{encodable_len, encoded_bytes};
use crate::transaction::{build, ChainMetadata, PendingTransaction, Target};

verus! {

/// Builds the transaction for one call of `instance`, given what the
/// producer handed out for it. A message becomes a transaction with the
/// account's next nonce; a producer's error, or a message too long to be
/// serialized, becomes that error and costs no nonce.
pub fn issue(
    account: &mut Account,
    instance: &DeployedInstance,
    produced: Result<EncodedMessage, Error>,
    metadata: &ChainMetadata,
) -> (out: Result<PendingTransaction, Error>)
    requires
        old(account).wf(),
        old(account)@.can_issue(),
    ensures
        final(account).wf(),
        match produced {
            Ok(message) => if encodable_len(message@.len()) {
                &&& out is Ok
                &&& out->Ok_0.key.signer == old(account)@.id
                &&& out->Ok_0.key.nonce == old(account)@.next
                &&& out->Ok_0.target == Target::Call(instance.address)
                &&& out->Ok_0.payload@ == encoded_bytes(message@)
                &&& out->Ok_0.tag@ == instance.contract@
                &&& out->Ok_0.metadata == *metadata
                &&& final(account)@ == old(account)@.advanced(1)
            } else {
                &&& out == Err::<PendingTransaction, Error>(Error::Encoding)
                &&& final(account)@ == old(account)@
            },
            Err(e) => out == Err::<PendingTransaction, Error>(e) && final(account)@ == old(
                account,
            )@,
        },
{
    match produced {
        Ok(message) => build(
            account,
            Target::Call(instance.address),
            message.0.as_slice(),
            instance.contract.as_str(),
            metadata,
        ),
        Err(e) => Err(e),
    }
}

/// How many of the first `upto` calls became a transaction.
pub open spec fn built(slots: Seq<Result<PendingTransaction, Error>>, upto: int) -> nat
    decreases upto,
{
    if upto <= 0 {
        0
    } else {
        built(slots, upto - 1) + if slots[upto - 1] is Ok {
            1nat
        } else {
            0nat
        }
    }
}

/// What holds of the call at position `at` of a run that started with the
/// account in the state `start`, where the call is the `turn`-th among those
/// of `instances`: if it became a transaction, that transaction is signed by
/// the account, calls the instance whose turn it was, and carries the nonce
/// that follows those of the transactions built before it.
pub open spec fn call_in_order(
    slots: Seq<Result<PendingTransaction, Error>>,
    at: int,
    turn: int,
    instances: Seq<DeployedInstance>,
    start: AccountState,
    metadata: ChainMetadata,
) -> bool {
    match slots[at] {
        Ok(tx) => {
            &&& tx.key.signer == start.id
            &&& tx.key.nonce == start.next + built(slots, at)
            &&& tx.target == Target::Call(instances[turn % instances.len() as int].address)
            &&& tx.tag@ == instances[turn % instances.len() as int].contract@
            &&& tx.metadata == metadata
        },
        Err(_) => true,
    }
}

/// No more calls are built than are made.
pub proof fn built_at_most(slots: Seq<Result<PendingTransaction, Error>>, upto: int)
    requires
        0 <= upto,
    ensures
        built(slots, upto) <= upto,
    decreases upto,
{
    if upto > 0 {
        built_at_most(slots, upto - 1);
    }
}

/// A later call changes nothing about the calls before it.
pub proof fn built_is_stable(
    slots: Seq<Result<PendingTransaction, Error>>,
    more: Result<PendingTransaction, Error>,
    upto: int,
)
    requires
        0 <= upto <= slots.len(),
    ensures
        built(slots.push(more), upto) == built(slots, upto),
    decreases upto,
{
    if upto > 0 {
        built_is_stable(slots, more, upto - 1);
    }
}

/// Counting over two runs of calls laid end to end: the calls of the first
/// run count as they did, and those of the second come on top.
pub proof fn built_over_both(
    first: Seq<Result<PendingTransaction, Error>>,
    second: Seq<Result<PendingTransaction, Error>>,
    upto: int,
)
    requires
        0 <= upto <= second.len(),
    ensures
        built(first + second, first.len() + upto) == built(first, first.len() as int) + built(
            second,
            upto,
        ),
        forall|j: int| 0 <= j <= first.len() ==> built(first + second, j) == built(first, j),
    decreases upto,
{
    assert forall|j: int| 0 <= j <= first.len() implies built(first + second, j) == built(
        first,
        j,
    ) by {
        built_of_prefix(first, first + second, j);
    }
    if upto > 0 {
        built_over_both(first, second, upto - 1);
    }
}

/// The count of the first `upto` calls depends on those calls alone.
pub proof fn built_of_prefix(
    a: Seq<Result<PendingTransaction, Error>>,
    b: Seq<Result<PendingTransaction, Error>>,
    upto: int,
)
    requires
        0 <= upto <= a.len(),
        upto <= b.len(),
        forall|j: int| 0 <= j < upto ==> a[j] == b[j],
    ensures
        built(a, upto) == built(b, upto),
    decreases upto,
{
    if upto > 0 {
        built_of_prefix(a, b, upto - 1);
    }
}

/// Of two calls that became transactions, the later one has counted more
/// transactions before it: with consecutive nonces, the later transaction
/// carries the greater nonce, and no two carry the same.
pub proof fn later_call_counts_more(
    slots: Seq<Result<PendingTransaction, Error>>,
    earlier: int,
    later: int,
)
    requires
        0 <= earlier < later <= slots.len(),
        slots[earlier] is Ok,
    ensures
        built(slots, earlier) < built(slots, later),
    decreases later - earlier,
{
    if later > earlier + 1 {
        later_call_counts_more(slots, earlier, later - 1);
    }
}

/// Where the batch of submissions that starts at position `sent` ends: at
/// most `fan_out` submissions are in flight together (one, where `fan_out`
/// is 0), and never more than are left of `total`.
pub open spec fn batch_end_of(sent: nat, total: nat, fan_out: nat) -> nat {
    let width = if fan_out == 0 {
        1
    } else {
        fan_out
    };
    if sent + width < total {
        sent + width
    } else {
        total
    }
}

/// The end of the next batch of submissions. The batches follow one another
/// in the order of dispatch, so a transaction is on its way before any with
/// a later nonce is.
pub fn batch_end(sent: usize, total: usize, fan_out: usize) -> (end: usize)
    ensures
        end == batch_end_of(sent as nat, total as nat, fan_out as nat),
{
    let width = if fan_out == 0 {
        1
    } else {
        fan_out
    };
    if sent < total && width < total - sent {
        sent + width
    } else {
        total
    }
}

/// Whether the producer hands out one and the same message on every call,
/// and one that can be serialized: every call to it becomes a transaction.
pub open spec fn reliable<F: CallProducer>(producer: &F) -> bool {
    producer.steady() is Some && encodable_len(producer.steady()->Some_0.len())
}

/// Where every one of the first `upto` calls became a transaction, as many
/// transactions were built as calls were made.
pub proof fn all_built(slots: Seq<Result<PendingTransaction, Error>>, upto: int)
    requires
        0 <= upto <= slots.len(),
        forall|j: int| 0 <= j < upto ==> (#[trigger] slots[j]) is Ok,
    ensures
        built(slots, upto) == upto,
    decreases upto,
{
    if upto > 0 {
        all_built(slots, upto - 1);
    }
}

/// Dispatches `call_count` rounds of calls: in each round every instance is
/// called once, in the order of `instances`. The result has one entry for
/// every call, in the order of dispatch: the transaction to submit, or the
/// error for which none could be built. The account's counter has moved on
/// by the number of transactions built, and their nonces are consecutive.
/// With a reliable producer every call becomes a transaction that carries
/// the producer's message, and the counter has moved on by the number of
/// calls.
pub fn dispatch<F: CallProducer>(
    instances: &Vec<DeployedInstance>,
    producer: &mut F,
    call_count: u32,
    account: &mut Account,
    metadata: &ChainMetadata,
) -> (out: Vec<Result<PendingTransaction, Error>>)
    requires
        old(account).wf(),
        old(account)@.next + instances.len() * call_count <= u64::MAX,
    ensures
        final(account).wf(),
        out.len() == instances.len() * call_count,
        final(account)@ == old(account)@.advanced(built(out@, out.len() as int)),
        forall|k: int|
            #![trigger out@[k]]
            0 <= k < out.len() ==> call_in_order(out@, k, k, instances@, old(account)@, *metadata),
        old(producer).steady() is Some ==> final(producer).steady() == old(producer).steady(),
        reliable(old(producer)) ==> final(account)@ == old(account)@.advanced(out.len() as nat),
        reliable(old(producer)) ==> forall|k: int|
            0 <= k < out.len() ==> (#[trigger] out@[k]) is Ok && out@[k]->Ok_0.payload@
                == encoded_bytes(old(producer).steady()->Some_0) && out@[k]->Ok_0.key.nonce
                == old(account)@.next + k,
{
    let n = instances.len();
    let ghost start = account@;
    let mut out: Vec<Result<PendingTransaction, Error>> = Vec::new();
    let mut round: u32 = 0;
    while round < call_count
        invariant
            n == instances.len(),
            round <= call_count,
            account.wf(),
            start == old(account)@,
            start.next + n * call_count <= u64::MAX,
            out.len() == n * round,
            account@ == start.advanced(built(out@, out.len() as int)),
            forall|k: int| 0 <= k < out.len() ==> call_in_order(out@, k, k, instances@, start, *metadata),
            old(producer).steady() is Some ==> producer.steady() == old(producer).steady(),
            reliable(old(producer)) ==> forall|k: int|
                0 <= k < out.len() ==> (#[trigger] out@[k]) is Ok && out@[k]->Ok_0.payload@
                    == encoded_bytes(old(producer).steady()->Some_0),
        decreases call_count - round,
    {
        let mut i: usize = 0;
        while i < n
            invariant
                n == instances.len(),
                i <= n,
                round < call_count,
                account.wf(),
                start == old(account)@,
                start.next + n * call_count <= u64::MAX,
                out.len() == n * round + i,
                account@ == start.advanced(built(out@, out.len() as int)),
                forall|k: int|
                    0 <= k < out.len() ==> call_in_order(out@, k, k, instances@, start, *metadata),
                old(producer).steady() is Some ==> producer.steady() == old(producer).steady(),
                reliable(old(producer)) ==> forall|k: int|
                    0 <= k < out.len() ==> (#[trigger] out@[k]) is Ok && out@[k]->Ok_0.payload@
                        == encoded_bytes(old(producer).steady()->Some_0),
            decreases n - i,
        {
            proof {
                built_at_most(out@, out.len() as int);
                assert(n * round + n <= n * call_count) by (nonlinear_arith)
                    requires
                        round + 1 <= call_count,
                        n >= 0,
                ;
            }
            let produced = producer.next();
            let slot = issue(account, &instances[i], produced, metadata);
            proof {
                let before = out@;
                let k = before.len() as int;
                let after = before.push(slot);
                built_is_stable(before, slot, k);
                assert(built(after, k + 1) == built(before, k) + if slot is Ok {
                    1nat
                } else {
                    0nat
                });
                lemma_fundamental_div_mod_converse(k, n as int, round as int, i as int);
                assert forall|j: int| 0 <= j < after.len() implies call_in_order(
                    after,
                    j,
                    j,
                    instances@,
                    start,
                    *metadata,
                ) by {
                    if j < k {
                        assert(call_in_order(before, j, j, instances@, start, *metadata));
                        built_is_stable(before, slot, j);
                    }
                }
            }
            out.push(slot);
            i = i + 1;
        }
        assert(n * (round + 1) == n * round + n) by (nonlinear_arith);
        round = round + 1;
    }
    proof {
        if reliable(old(producer)) {
            assert forall|k: int| 0 <= k < out.len() implies (#[trigger] out@[k])->Ok_0.key.nonce
                == start.next + k by {
                assert(call_in_order(out@, k, k, instances@, start, *metadata));
                all_built(out@, k);
            }
            all_built(out@, out.len() as int);
        }
    }
    out
}

} // verus!
