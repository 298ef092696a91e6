//! Bringing contract instances on chain, one constructor transaction after
//! the other. The deployer decides; its caller submits what it is handed and
//! reports back what the node answered and what each finalized block held.

use vstd::prelude::*;
use crate::account::Account;
use crate::chain::{ExtrinsicEvent, SubmitOutcome, TxKey};
use crate::error::{DeploymentError, Error};
use crate::scale::{encodable_len, encoded_bytes};
use crate::tracker::{
    lookup, lookup_is_exact, resolved_by, seen_in, settle, unseen_in, Resolution, Tracker,
    TrackerState,
};
use crate::transaction::{build, ChainMetadata, PendingTransaction, Target};
use crate::AccountId;

verus! {

/// A contract instance that is on chain.
#[derive(Debug)]
pub struct DeployedInstance {
    /// The name of the contract scenario.
    pub contract: String,
    /// The address the chain gave the instance.
    pub address: AccountId,
    /// The account that instantiated it.
    pub owner: AccountId,
}

/// What the deployer asks of its caller next.
#[derive(Debug)]
pub enum DeployAction {
    /// Submit this constructor transaction, then report the node's answer.
    Submit(PendingTransaction),
    /// Wait for the next finalized block and report its events, or report
    /// that none came.
    AwaitBlock,
    /// Every instance asked for is on chain.
    Done,
    /// The deployment has failed; no further instance will be attempted.
    Failed(Error),
}

/// The kind of the next action, as the state alone decides it.
pub enum DeployStep {
    Submit,
    AwaitBlock,
    Done,
    Failed(Error),
}

/// A deployer as the contracts see it.
pub struct DeployerState {
    /// The name of the contract scenario.
    pub name: String,
    /// The constructor's call data.
    pub call: Seq<u8>,
    /// How many instances are asked for.
    pub wanted: nat,
    /// The instances on chain so far, in the order of their deployment.
    pub instances: Seq<DeployedInstance>,
    /// The constructor transaction in flight, if any, and how long it has
    /// been waited for.
    pub tracker: TrackerState,
    /// Why the deployment failed, if it did.
    pub failure: Option<Error>,
}

impl DeployerState {
    /// Whether a constructor transaction is in flight.
    pub open spec fn in_flight(self) -> bool {
        self.tracker.outstanding.len() > 0
    }

    pub open spec fn wf(self) -> bool {
        &&& self.tracker.wf()
        &&& self.tracker.outstanding.len() <= 1
        &&& self.instances.len() <= self.wanted <= u32::MAX
        &&& self.in_flight() ==> self.instances.len() < self.wanted
        &&& forall|i: int|
            0 <= i < self.instances.len() ==> (#[trigger] self.instances[i]).contract == self.name
    }

    /// What comes next: a failure is final; a transaction in flight is waited
    /// for; with every instance on chain the work is done; otherwise the next
    /// constructor transaction is due.
    pub open spec fn step(self) -> DeployStep {
        if let Some(e) = self.failure {
            DeployStep::Failed(e)
        } else if self.in_flight() {
            DeployStep::AwaitBlock
        } else if self.instances.len() == self.wanted {
            DeployStep::Done
        } else {
            DeployStep::Submit
        }
    }

    /// The state once the constructor transaction `key` has been handed out:
    /// it alone is in flight, with a fresh wait window.
    pub open spec fn submitting(self, key: TxKey) -> DeployerState {
        DeployerState {
            tracker: TrackerState {
                outstanding: seq![key],
                waited: 0,
                limit: self.tracker.limit,
            },
            ..self
        }
    }

    /// The state with the deployment failed for the reason `e`.
    pub open spec fn failed(self, e: Error) -> DeployerState {
        DeployerState { failure: Some(e), ..self }
    }

    /// The state after the node's answer to the transaction in flight. A
    /// refusal and a lost connection both end the deployment.
    pub open spec fn on_submitted(self, outcome: SubmitOutcome) -> DeployerState {
        if self.failure is Some || !self.in_flight() {
            self
        } else {
            match outcome {
                SubmitOutcome::Accepted => self,
                SubmitOutcome::Rejected => self.failed(
                    Error::Deployment(DeploymentError::Rejected),
                ),
                SubmitOutcome::NetworkDown => self.failed(Error::Network),
            }
        }
    }

    /// The state after a finalized block. Where the block reports the
    /// transaction in flight as a success that instantiated a contract, that
    /// contract is the next instance; where it reports anything else of it,
    /// the deployment has failed; where it does not report it and the wait
    /// window is used up, the deployment has timed out.
    pub open spec fn on_block(self, events: Seq<ExtrinsicEvent>) -> DeployerState {
        if self.failure is Some || !self.in_flight() {
            self
        } else {
            let key = self.tracker.outstanding[0];
            let tracker = self.tracker.observe(events);
            match lookup(events, key) {
                Some(event) => if event.success && event.contract is Some {
                    DeployerState {
                        instances: self.instances.push(
                            DeployedInstance {
                                contract: self.name,
                                address: event.contract->Some_0,
                                owner: key.signer,
                            },
                        ),
                        tracker,
                        ..self
                    }
                } else {
                    DeployerState {
                        failure: Some(Error::Deployment(DeploymentError::ConstructorFailed)),
                        tracker,
                        ..self
                    }
                },
                None => DeployerState {
                    failure: if tracker.expired() {
                        Some(Error::Deployment(DeploymentError::Timeout))
                    } else {
                        None
                    },
                    tracker,
                    ..self
                },
            }
        }
    }

    /// The state after a wait in which no block arrived.
    pub open spec fn on_idle(self) -> DeployerState {
        if self.failure is Some || !self.in_flight() {
            self
        } else {
            let tracker = self.tracker.idle();
            DeployerState {
                failure: if tracker.expired() {
                    Some(Error::Deployment(DeploymentError::Timeout))
                } else {
                    None
                },
                tracker,
                ..self
            }
        }
    }
}

/// Deploys the instances of one contract scenario for one account, strictly
/// one after the other.
#[derive(Debug)]
pub struct Deployer {
    name: String,
    call: Vec<u8>,
    wanted: u32,
    instances: Vec<DeployedInstance>,
    tracker: Tracker,
    failure: Option<Error>,
}

impl View for Deployer {
    type V = DeployerState;

    closed spec fn view(&self) -> DeployerState {
        DeployerState {
            name: self.name,
            call: self.call@,
            wanted: self.wanted as nat,
            instances: self.instances@,
            tracker: self.tracker@,
            failure: self.failure,
        }
    }
}

/// What a block does to a wait for a single transaction: a block that
/// reports the transaction settles it and leaves nothing outstanding; any
/// other block settles nothing and leaves the transaction outstanding.
pub proof fn single_outstanding(key: TxKey, events: Seq<ExtrinsicEvent>)
    ensures
        lookup(events, key) is Some ==> seq![key].filter(unseen_in(events)) == Seq::<TxKey>::empty()
            && resolved_by(seq![key], events) == seq![settle(events)(key)],
        lookup(events, key) is None ==> seq![key].filter(unseen_in(events)) == seq![key]
            && resolved_by(seq![key], events) == Seq::<Resolution>::empty(),
{
    let none = Seq::<TxKey>::empty();
    none.lemma_filter_push(key, unseen_in(events));
    none.lemma_filter_push(key, seen_in(events));
    none.lemma_filter_len(unseen_in(events));
    none.lemma_filter_len(seen_in(events));
}

impl Deployer {
    pub open spec fn wf(&self) -> bool {
        self@.wf()
    }

    /// A deployer for `instance_count` instances of the contract `name`,
    /// each made by the constructor call `call`, and each waited for during
    /// at most `max_blocks` steps.
    pub fn new(name: &str, call: Vec<u8>, instance_count: u32, max_blocks: u64) -> (out: Deployer)
        ensures
            out.wf(),
            out@.name@ == name@,
            out@.call == call@,
            out@.wanted == instance_count,
            out@.instances == Seq::<DeployedInstance>::empty(),
            out@.tracker == (TrackerState {
                outstanding: Seq::empty(),
                waited: 0,
                limit: max_blocks as nat,
            }),
            out@.failure == None::<Error>,
    {
        Deployer {
            name: name.to_owned(),
            call,
            wanted: instance_count,
            instances: Vec::new(),
            tracker: Tracker::new(max_blocks),
            failure: None,
        }
    }

    /// Decides what is to be done next. Where the next constructor
    /// transaction is due, it is built with the account's next nonce and
    /// handed out; in every other case nothing changes.
    pub fn next_action(&mut self, account: &mut Account, metadata: &ChainMetadata) -> (out:
        DeployAction)
        requires
            old(self).wf(),
            old(account).wf(),
            old(account)@.can_issue(),
        ensures
            final(self).wf(),
            final(account).wf(),
            match old(self)@.step() {
                DeployStep::Failed(e) => out == DeployAction::Failed(e) && final(self)@ == old(
                    self,
                )@ && final(account)@ == old(account)@,
                DeployStep::AwaitBlock => out == DeployAction::AwaitBlock && final(self)@ == old(
                    self,
                )@ && final(account)@ == old(account)@,
                DeployStep::Done => out == DeployAction::Done && final(self)@ == old(self)@
                    && final(account)@ == old(account)@,
                DeployStep::Submit => if encodable_len(old(self)@.call.len()) {
                    &&& out is Submit
                    &&& out->Submit_0.key.signer == old(account)@.id
                    &&& out->Submit_0.key.nonce == old(account)@.next
                    &&& out->Submit_0.target == Target::Instantiate
                    &&& out->Submit_0.payload@ == encoded_bytes(old(self)@.call)
                    &&& out->Submit_0.tag@ == old(self)@.name@
                    &&& out->Submit_0.metadata == *metadata
                    &&& final(self)@ == old(self)@.submitting(out->Submit_0.key)
                    &&& final(account)@ == old(account)@.advanced(1)
                } else {
                    &&& out == DeployAction::Failed(Error::Encoding)
                    &&& final(self)@ == old(self)@.failed(Error::Encoding)
                    &&& final(account)@ == old(account)@
                },
            },
    {
        if let Some(e) = self.failure {
            return DeployAction::Failed(e);
        }
        if self.tracker.outstanding_count() > 0 {
            return DeployAction::AwaitBlock;
        }
        if self.instances.len() == self.wanted as usize {
            return DeployAction::Done;
        }
        match build(account, Target::Instantiate, self.call.as_slice(), self.name.as_str(), metadata) {
            Ok(tx) => {
                self.tracker.restart();
                self.tracker.track(tx.key);
                assert(self.tracker@.outstanding =~= seq![tx.key]);
                DeployAction::Submit(tx)
            },
            Err(e) => {
                self.failure = Some(e);
                DeployAction::Failed(e)
            },
        }
    }

    /// Takes in the node's answer to the transaction that was handed out last.
    pub fn on_submitted(&mut self, outcome: SubmitOutcome)
        requires
            old(self).wf(),
        ensures
            final(self).wf(),
            final(self)@ == old(self)@.on_submitted(outcome),
    {
        if self.failure.is_some() || self.tracker.outstanding_count() == 0 {
            return ;
        }
        match outcome {
            SubmitOutcome::Accepted => {},
            SubmitOutcome::Rejected => {
                self.failure = Some(Error::Deployment(DeploymentError::Rejected));
            },
            SubmitOutcome::NetworkDown => {
                self.failure = Some(Error::Network);
            },
        }
    }

    /// Takes in the events of one finalized block.
    pub fn on_block(&mut self, events: &Vec<ExtrinsicEvent>)
        requires
            old(self).wf(),
        ensures
            final(self).wf(),
            final(self)@ == old(self)@.on_block(events@),
    {
        if self.failure.is_some() || self.tracker.outstanding_count() == 0 {
            return ;
        }
        proof {
            let key = self.tracker@.outstanding[0];
            assert(self.tracker@.outstanding =~= seq![key]);
            single_outstanding(key, events@);
        }
        let resolved = self.tracker.observe(events);
        if resolved.len() > 0 {
            let settled = resolved[0];
            match settled.contract {
                Some(address) if settled.success => {
                    self.instances.push(
                        DeployedInstance {
                            contract: self.name.clone(),
                            address,
                            owner: settled.key.signer,
                        },
                    );
                    proof {
                        lookup_is_exact(events@, old(self)@.tracker.outstanding[0]);
                    }
                },
                _ => {
                    self.failure = Some(Error::Deployment(DeploymentError::ConstructorFailed));
                },
            }
        } else if self.tracker.expired() {
            self.failure = Some(Error::Deployment(DeploymentError::Timeout));
        }
    }

    /// Takes in a wait in which no block arrived.
    pub fn on_idle(&mut self)
        requires
            old(self).wf(),
        ensures
            final(self).wf(),
            final(self)@ == old(self)@.on_idle(),
    {
        if self.failure.is_some() || self.tracker.outstanding_count() == 0 {
            return ;
        }
        self.tracker.idle();
        if self.tracker.expired() {
            self.failure = Some(Error::Deployment(DeploymentError::Timeout));
        }
    }

    /// Whether the deployment has come to its end: every instance asked for
    /// is on chain, or the deployment has failed.
    pub fn finished(&self) -> (out: bool)
        requires
            self.wf(),
        ensures
            out == (self@.step() is Done || self@.step() is Failed),
    {
        self.failure.is_some() || (self.tracker.outstanding_count() == 0 && self.instances.len()
            == self.wanted as usize)
    }

    /// The instances that are on chain so far.
    pub fn instances(&self) -> (out: &Vec<DeployedInstance>)
        ensures
            out@ == self@.instances,
    {
        &self.instances
    }

    /// The name of the contract scenario.
    pub fn name(&self) -> (out: String)
        ensures
            out == self@.name,
    {
        self.name.clone()
    }

    /// Why the deployment failed, if it did.
    pub fn failure(&self) -> (out: Option<Error>)
        ensures
            out == self@.failure,
    {
        self.failure
    }

    /// Gives up the deployer for the instances that it brought on chain.
    pub fn into_instances(self) -> (out: Vec<DeployedInstance>)
        ensures
            out@ == self@.instances,
    {
        self.instances
    }
}

} // verus!
