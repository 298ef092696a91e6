//! The bench runner: it holds the signing account and the contracts that
//! were prepared, and turns a call count into the transactions of a run.

use vstd::prelude::*;
use crate::account::{Account, AccountState};
use crate::call::{call_data, encode_constructor, CallProducer};
use crate::deployer::{DeployAction, DeployStep, DeployedInstance, Deployer, DeployerState};
use crate::dispatcher::{
    all_built, built, built_at_most, built_over_both, call_in_order, dispatch, reliable,
};
use crate::error::Error;
use crate::scale::{encodable_len, encoded_bytes};
use crate::stats::Collector;
use crate::tracker::TrackerState;
use crate::transaction::{ChainMetadata, PendingTransaction, Target};
use crate::InkConstructor;

verus! {

/// A contract scenario that is ready to be called: its instances on chain
/// and the producer of its messages.
pub struct Prepared<F> {
    pub name: String,
    pub instances: Vec<DeployedInstance>,
    pub producer: F,
}

/// How many calls a run of `call_count` rounds makes to the first `upto`
/// contracts: for each, its instances times the rounds.
pub open spec fn planned<F>(contracts: Seq<Prepared<F>>, call_count: nat, upto: int) -> nat
    decreases upto,
{
    if upto <= 0 {
        0
    } else {
        planned(contracts, call_count, upto - 1) + contracts[upto - 1].instances@.len()
            * call_count
    }
}

/// What holds of the `turn`-th call that a run makes to the contract at
/// position `c`: it stands after all the calls to the contracts before it,
/// and is in order there.
pub open spec fn contract_call_in_order<F>(
    slots: Seq<Result<PendingTransaction, Error>>,
    contracts: Seq<Prepared<F>>,
    call_count: nat,
    c: int,
    turn: int,
    start: AccountState,
    metadata: ChainMetadata,
) -> bool {
    call_in_order(
        slots,
        planned(contracts, call_count, c) + turn,
        turn,
        contracts[c].instances@,
        start,
        metadata,
    )
}

/// What holds of the `turn`-th call that a run makes to the contract at
/// position `c`, where that contract's producer is reliable: the call became
/// a transaction, and the transaction carries the producer's message.
pub open spec fn contract_call_built<F: CallProducer>(
    slots: Seq<Result<PendingTransaction, Error>>,
    contracts: Seq<Prepared<F>>,
    call_count: nat,
    c: int,
    turn: int,
) -> bool {
    let at = planned(contracts, call_count, c) + turn;
    slots[at] is Ok && slots[at]->Ok_0.payload@ == encoded_bytes(
        contracts[c].producer.steady()->Some_0,
    )
}

/// Whether the producers of the first `upto` contracts are all reliable.
pub open spec fn reliable_upto<F: CallProducer>(contracts: Seq<Prepared<F>>, upto: int) -> bool {
    forall|c: int| 0 <= c < upto ==> reliable(&(#[trigger] contracts[c]).producer)
}

/// Whether two lists hold the same contracts with the same instances; the
/// producers may have moved on, but a steady one still hands out its
/// message.
pub open spec fn same_contracts<F: CallProducer>(a: Seq<Prepared<F>>, b: Seq<Prepared<F>>) -> bool {
    &&& a.len() == b.len()
    &&& forall|c: int|
        0 <= c < a.len() ==> {
            &&& (#[trigger] a[c]).name == b[c].name
            &&& a[c].instances == b[c].instances
            &&& b[c].producer.steady() is Some ==> a[c].producer.steady() == b[c].producer.steady()
        }
}

/// A runner as the contracts see it.
pub struct RunnerState<F> {
    pub account: AccountState,
    pub metadata: ChainMetadata,
    /// The length of every wait window, in steps.
    pub max_blocks: nat,
    /// The contracts prepared so far, in the order of their preparation.
    pub contracts: Seq<Prepared<F>>,
}

/// Prepares contracts and runs calls against them, for one signing account.
pub struct BenchRunner<F> {
    account: Account,
    metadata: ChainMetadata,
    max_blocks: u64,
    contracts: Vec<Prepared<F>>,
}

impl<F> View for BenchRunner<F> {
    type V = RunnerState<F>;

    closed spec fn view(&self) -> RunnerState<F> {
        RunnerState {
            account: self.account@,
            metadata: self.metadata,
            max_blocks: self.max_blocks as nat,
            contracts: self.contracts@,
        }
    }
}

impl<F: CallProducer> BenchRunner<F> {
    pub open spec fn wf(&self) -> bool {
        self@.account.wf()
    }

    /// A runner with no contract prepared.
    pub fn new(account: Account, metadata: ChainMetadata, max_blocks: u64) -> (out: Self)
        requires
            account.wf(),
        ensures
            out.wf(),
            out@ == (RunnerState::<F> {
                account: account@,
                metadata,
                max_blocks: max_blocks as nat,
                contracts: Seq::empty(),
            }),
    {
        BenchRunner { account, metadata, max_blocks, contracts: Vec::new() }
    }

    /// Starts the preparation of a contract: the deployer for
    /// `instance_count` instances made by `constructor`, or
    /// `Error::Encoding` where the constructor's arguments cannot be encoded.
    pub fn prepare<C: InkConstructor>(
        &self,
        name: &str,
        constructor: &C,
        instance_count: u32,
    ) -> (out: Result<Deployer, Error>)
        ensures
            match out {
                Ok(deployer) => {
                    &&& constructor.encodable()
                    &&& deployer.wf()
                    &&& deployer@.name@ == name@
                    &&& deployer@.call == call_data(C::SELECTOR, constructor.args())
                    &&& deployer@.wanted == instance_count
                    &&& deployer@.instances == Seq::<DeployedInstance>::empty()
                    &&& deployer@.tracker == (TrackerState {
                        outstanding: Seq::empty(),
                        waited: 0,
                        limit: self@.max_blocks,
                    })
                    &&& deployer@.failure == None::<Error>
                },
                Err(e) => !constructor.encodable() && e == Error::Encoding,
            },
    {
        match encode_constructor(constructor) {
            Ok(call) => Ok(Deployer::new(name, call, instance_count, self.max_blocks)),
            Err(e) => Err(e),
        }
    }

    /// Asks `deployer` for its next action, with this runner's account and
    /// metadata.
    pub fn deploy_step(&mut self, deployer: &mut Deployer) -> (out: DeployAction)
        requires
            old(self).wf(),
            old(deployer).wf(),
            old(self)@.account.can_issue(),
        ensures
            final(self).wf(),
            final(deployer).wf(),
            final(self)@.metadata == old(self)@.metadata,
            final(self)@.max_blocks == old(self)@.max_blocks,
            final(self)@.contracts == old(self)@.contracts,
            match old(deployer)@.step() {
                DeployStep::Failed(e) => out == DeployAction::Failed(e) && final(deployer)@ == old(
                    deployer,
                )@ && final(self)@.account == old(self)@.account,
                DeployStep::AwaitBlock => out == DeployAction::AwaitBlock && final(deployer)@
                    == old(deployer)@ && final(self)@.account == old(self)@.account,
                DeployStep::Done => out == DeployAction::Done && final(deployer)@ == old(
                    deployer,
                )@ && final(self)@.account == old(self)@.account,
                DeployStep::Submit => if encodable_len(old(deployer)@.call.len()) {
                    &&& out is Submit
                    &&& out->Submit_0.key.signer == old(self)@.account.id
                    &&& out->Submit_0.key.nonce == old(self)@.account.next
                    &&& out->Submit_0.target == Target::Instantiate
                    &&& out->Submit_0.payload@ == encoded_bytes(old(deployer)@.call)
                    &&& out->Submit_0.tag@ == old(deployer)@.name@
                    &&& out->Submit_0.metadata == old(self)@.metadata
                    &&& final(deployer)@ == old(deployer)@.submitting(out->Submit_0.key)
                    &&& final(self)@.account == old(self)@.account.advanced(1)
                } else {
                    &&& out == DeployAction::Failed(Error::Encoding)
                    &&& final(deployer)@ == old(deployer)@.failed(Error::Encoding)
                    &&& final(self)@.account == old(self)@.account
                },
            },
    {
        deployer.next_action(&mut self.account, &self.metadata)
    }

    /// Ends the preparation of a contract whose deployment has come to its
    /// end: the instances that `deployer` brought on chain are kept, to be
    /// called with the messages of `producer`. Where every instance asked
    /// for is on chain the result is `Ok`; where the deployment failed, its
    /// reason is returned, and the instances deployed before the failure are
    /// kept all the same.
    pub fn register(&mut self, deployer: Deployer, producer: F) -> (out: Result<(), Error>)
        requires
            old(self).wf(),
            deployer@.step() is Done || deployer@.step() is Failed,
        ensures
            final(self).wf(),
            final(self)@.account == old(self)@.account,
            final(self)@.metadata == old(self)@.metadata,
            final(self)@.max_blocks == old(self)@.max_blocks,
            final(self)@.contracts.len() == old(self)@.contracts.len() + 1,
            final(self)@.contracts.drop_last() == old(self)@.contracts,
            final(self)@.contracts.last().name == deployer@.name,
            final(self)@.contracts.last().instances@ == deployer@.instances,
            final(self)@.contracts.last().producer == producer,
            match deployer@.failure {
                Some(e) => out == Err::<(), Error>(e),
                None => out == Ok::<(), Error>(()) && deployer@.instances.len()
                    == deployer@.wanted,
            },
    {
        let failure = deployer.failure();
        let name = deployer.name();
        let instances = deployer.into_instances();
        self.contracts.push(Prepared { name, instances, producer });
        match failure {
            Some(e) => Err(e),
            None => Ok(()),
        }
    }

    /// Dispatches a run of `call_count` rounds: for each prepared contract
    /// in turn, `call_count` rounds of one call to each of its instances.
    /// Returns one entry for every call, in the order of dispatch, and the
    /// collector that will count the run's transactions block by block.
    /// Every call to a contract with a reliable producer becomes a
    /// transaction with that producer's message; where all the producers are
    /// reliable, every call becomes a transaction, the nonces run on from
    /// the account's without a gap, and the account's counter has moved on
    /// by the number of calls.
    pub fn run(&mut self, call_count: u32) -> (out: (
        Vec<Result<PendingTransaction, Error>>,
        Collector,
    ))
        requires
            old(self).wf(),
            old(self)@.account.next + planned(
                old(self)@.contracts,
                call_count as nat,
                old(self)@.contracts.len() as int,
            ) <= u64::MAX,
        ensures
            final(self).wf(),
            final(self)@.metadata == old(self)@.metadata,
            final(self)@.max_blocks == old(self)@.max_blocks,
            same_contracts(final(self)@.contracts, old(self)@.contracts),
            out.0.len() == planned(
                old(self)@.contracts,
                call_count as nat,
                old(self)@.contracts.len() as int,
            ),
            final(self)@.account == old(self)@.account.advanced(built(out.0@, out.0.len() as int)),
            forall|c: int, turn: int|
                0 <= c < old(self)@.contracts.len() && 0 <= turn < old(
                    self,
                )@.contracts[c].instances@.len() * call_count ==> #[trigger] contract_call_in_order(
                    out.0@,
                    old(self)@.contracts,
                    call_count as nat,
                    c,
                    turn,
                    old(self)@.account,
                    old(self)@.metadata,
                ),
            forall|c: int, turn: int|
                0 <= c < old(self)@.contracts.len() && 0 <= turn < old(
                    self,
                )@.contracts[c].instances@.len() * call_count && reliable(
                    &old(self)@.contracts[c].producer,
                ) ==> #[trigger] contract_call_built(
                    out.0@,
                    old(self)@.contracts,
                    call_count as nat,
                    c,
                    turn,
                ),
            reliable_upto(old(self)@.contracts, old(self)@.contracts.len() as int)
                ==> final(self)@.account == old(self)@.account.advanced(out.0.len() as nat),
            reliable_upto(old(self)@.contracts, old(self)@.contracts.len() as int) ==> forall|
                at: int,
            |
                0 <= at < out.0.len() ==> (#[trigger] out.0@[at]) is Ok && out.0@[at]->Ok_0.key.nonce
                    == old(self)@.account.next + at,
            out.1.wf(),
            out.1@ == Collector::fresh(old(self)@.max_blocks),
    {
        let ghost start = self.account@;
        let ghost contracts = self.contracts@;
        let ghost rounds = call_count as nat;
        let metadata = self.metadata;
        let mut slots: Vec<Result<PendingTransaction, Error>> = Vec::new();
        let mut c: usize = 0;
        while c < self.contracts.len()
            invariant
                c <= self.contracts.len(),
                self.account.wf(),
                self.metadata == metadata,
                metadata == old(self).metadata,
                self.max_blocks == old(self).max_blocks,
                rounds == call_count,
                start == old(self)@.account,
                contracts == old(self)@.contracts,
                same_contracts(self.contracts@, contracts),
                start.next + planned(contracts, rounds, contracts.len() as int) <= u64::MAX,
                slots.len() == planned(contracts, rounds, c as int),
                self.account@ == start.advanced(built(slots@, slots.len() as int)),
                forall|d: int, turn: int|
                    0 <= d < c && 0 <= turn < contracts[d].instances@.len() * rounds
                        ==> #[trigger] contract_call_in_order(
                        slots@,
                        contracts,
                        rounds,
                        d,
                        turn,
                        start,
                        metadata,
                    ),
                forall|d: int, turn: int|
                    0 <= d < c && 0 <= turn < contracts[d].instances@.len() * rounds && reliable(
                        &contracts[d].producer,
                    ) ==> #[trigger] contract_call_built(slots@, contracts, rounds, d, turn),
                reliable_upto(contracts, c as int) ==> forall|at: int|
                    0 <= at < slots.len() ==> (#[trigger] slots@[at]) is Ok
                        && slots@[at]->Ok_0.key.nonce == start.next + at,
            decreases self.contracts.len() - c,
        {
            let ghost before = slots@;
            let ghost here = self.account@;
            let ghost message = self.contracts@[c as int].producer.steady();
            proof {
                planned_grows(contracts, rounds, c + 1, contracts.len() as int);
                built_at_most(before, before.len() as int);
            }
            let prepared = &mut self.contracts[c];
            let mut part = dispatch(
                &prepared.instances,
                &mut prepared.producer,
                call_count,
                &mut self.account,
                &metadata,
            );
            let ghost added = part@;
            slots.append(&mut part);
            proof {
                let after = before + added;
                built_over_both(before, added, added.len() as int);
                assert forall|d: int, turn: int|
                    0 <= d < c + 1 && 0 <= turn < contracts[d].instances@.len()
                        * rounds implies #[trigger] contract_call_in_order(
                    after,
                    contracts,
                    rounds,
                    d,
                    turn,
                    start,
                    metadata,
                ) by {
                    if d < c {
                        assert(contract_call_in_order(
                            before,
                            contracts,
                            rounds,
                            d,
                            turn,
                            start,
                            metadata,
                        ));
                        planned_grows(contracts, rounds, d + 1, c as int);
                    } else {
                        assert(call_in_order(added, turn, turn, contracts[d].instances@, here, metadata));
                        built_over_both(before, added, turn);
                    }
                }
                assert forall|d: int, turn: int|
                    0 <= d < c + 1 && 0 <= turn < contracts[d].instances@.len() * rounds
                        && reliable(&contracts[d].producer) implies #[trigger] contract_call_built(
                    after,
                    contracts,
                    rounds,
                    d,
                    turn,
                ) by {
                    if d < c {
                        assert(contract_call_built(before, contracts, rounds, d, turn));
                        planned_grows(contracts, rounds, d + 1, c as int);
                    } else {
                        assert(message == contracts[d].producer.steady());
                        assert(added[turn] is Ok);
                    }
                }
                if reliable_upto(contracts, c + 1) {
                    assert(reliable(&contracts[c as int].producer));
                    assert(reliable_upto(contracts, c as int));
                    all_built(before, before.len() as int);
                    assert forall|at: int| 0 <= at < after.len() implies (#[trigger] after[at]) is Ok
                        && after[at]->Ok_0.key.nonce == start.next + at by {
                        if at < before.len() {
                            assert(before[at] is Ok);
                        } else {
                            assert(added[at - before.len()] is Ok);
                        }
                    }
                }
            }
            c = c + 1;
        }
        proof {
            if reliable_upto(contracts, contracts.len() as int) {
                all_built(slots@, slots.len() as int);
            }
        }
        (slots, Collector::new(self.max_blocks))
    }

    /// The nonce that the next transaction of this runner will carry.
    pub fn next_nonce(&self) -> (out: u64)
        ensures
            out == self@.account.next,
    {
        self.account.peek_nonce()
    }

    /// How many contracts are prepared.
    pub fn contract_count(&self) -> (out: usize)
        ensures
            out == self@.contracts.len(),
    {
        self.contracts.len()
    }

    /// How many instances all the prepared contracts have together, or
    /// `None` where the number does not fit.
    pub fn instance_count(&self) -> (out: Option<usize>)
        ensures
            match out {
                Some(n) => n == planned(self@.contracts, 1, self@.contracts.len() as int),
                None => planned(self@.contracts, 1, self@.contracts.len() as int) > usize::MAX,
            },
    {
        let mut total: usize = 0;
        let mut c: usize = 0;
        while c < self.contracts.len()
            invariant
                c <= self.contracts.len(),
                total == planned(self@.contracts, 1, c as int),
            decreases self.contracts.len() - c,
        {
            let n = self.contracts[c].instances.len();
            if n > usize::MAX - total {
                proof {
                    planned_grows(self@.contracts, 1, c + 1, self@.contracts.len() as int);
                }
                return None;
            }
            total = total + n;
            c = c + 1;
        }
        Some(total)
    }
}

/// The more contracts are counted, the more calls are planned.
pub proof fn planned_grows<F>(contracts: Seq<Prepared<F>>, call_count: nat, fewer: int, more: int)
    requires
        fewer <= more,
    ensures
        planned(contracts, call_count, fewer) <= planned(contracts, call_count, more),
    decreases more - fewer,
{
    if fewer < more {
        planned_grows(contracts, call_count, fewer, more - 1);
    }
}

/// Where no instance is asked for, the deployment is done before anything
/// is submitted; and a run over contracts without instances, or of no round,
/// makes no call.
pub proof fn nothing_prepared_nothing_called<F>(
    deployer: DeployerState,
    contracts: Seq<Prepared<F>>,
    call_count: nat,
    upto: int,
)
    requires
        deployer.wf(),
        deployer.wanted == 0,
        deployer.failure is None,
        call_count == 0 || forall|c: int|
            0 <= c < contracts.len() ==> (#[trigger] contracts[c]).instances@.len() == 0,
        0 <= upto <= contracts.len(),
    ensures
        deployer.step() == DeployStep::Done,
        planned(contracts, call_count, upto) == 0,
    decreases upto,
{
    if upto > 0 {
        nothing_prepared_nothing_called(deployer, contracts, call_count, upto - 1);
        assert(contracts[upto - 1].instances@.len() * call_count == 0) by (nonlinear_arith)
            requires
                contracts[upto - 1].instances@.len() == 0 || call_count == 0,
        ;
    }
}

} // verus!
