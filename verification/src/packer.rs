//! The packing loop: growing a draft one instruction at a time, as far as
//! dry runs accept it.
//!
//! The loop waits on the simulator between its decisions, so it is laid out
//! as a machine. [`Packer::start`] makes the first draft, and
//! [`Packer::advance`] takes the simulator's answer to the draft last
//! proposed; each says what to do next: simulate another draft, or stop with
//! the longest list that was accepted.

use vstd::prelude::*;
use crate::address::worker_address;
use crate::budget::{placeholder_ix, set_compute_unit_limit, TRANSACTION_COMPUTE_UNIT_LIMIT};
use crate::error::PackError;
use crate::finalizer::{finalize, finalized};
use crate::factory::{build_exec_ix, build_instruction, exec_ix, next_ix, Addresses, Deployment};
use crate::instruction::{duplicate_all, views, Instruction, InstructionView};
use crate::keys::{Blockhash, Pubkey, SecretKey};
use crate::message::{
    assemble, assembled, public_key, signer_pubkey, sole_signer, Transaction,
    TRANSACTION_MESSAGE_SIZE_LIMIT,
};
use crate::laws::{lemma_fresh_wf, lemma_propose_sound, lemma_react_sound, sound};
use crate::simulation::{
    AccountEncoding, Commitment, SimulationRequest, SimulationResponse,
    MIN_CONTEXT_SLOT_NOT_REACHED,
};
use crate::thread::{Thread, ThreadView};

verus! {

/// Why the packer stopped growing the draft.
#[derive(Clone, Copy, Debug, PartialEq, Eq, Structural)]
pub enum StopReason {
    /// The next draft would take more bytes than a message may.
    SizeCeiling,
    /// The simulator gave no answer to the draft.
    SimulatorUnavailable,
    /// The ledger would reject the draft.
    SimulationFailed,
    /// The thread has nothing pending any more.
    ChainComplete,
    /// The thread has used up the executions of its slot.
    RateLimited,
    /// The answer did not hold the thread's state.
    NoThreadState,
}

/// How an attempt ended: the transaction to submit, if a draft was accepted,
/// and why the packer went no further.
#[derive(Clone, Debug, PartialEq, Eq)]
pub struct Outcome {
    pub transaction: Option<Transaction>,
    pub reason: StopReason,
}

/// One packing attempt between two answers of the simulator.
pub struct Packer {
    deployment: Deployment,
    addresses: Addresses,
    secret: SecretKey,
    blockhash: Blockhash,
    slot: u64,
    draft: Vec<Instruction>,
    confirmed: Vec<Instruction>,
    units: Option<u64>,
}

/// What to do next.
pub enum Progress {
    /// Run `request` and hand the answer to `packer`.
    Simulate { packer: Packer, request: SimulationRequest },
    /// The attempt is over.
    Finished(Outcome),
}

/// A packing attempt as mathematical values.
pub struct PackerView {
    pub deployment: Deployment,
    pub addresses: Addresses,
    pub secret: Seq<u8>,
    pub blockhash: Seq<u8>,
    /// The slot that the simulator must have seen.
    pub slot: u64,
    /// The list that is proposed to the simulator.
    pub draft: Seq<InstructionView>,
    /// The longest list that the simulator accepted; empty until it accepts
    /// one.
    pub confirmed: Seq<InstructionView>,
    /// The units measured when `confirmed` was accepted.
    pub units: Option<u64>,
}

/// What the packer does next, as mathematical values.
pub enum Turn {
    /// It proposes the draft of the attempt, compiled into the message.
    Simulate(PackerView, Seq<u8>),
    /// It stops, with the message and the instructions of the transaction
    /// where it has one.
    Finished(Option<(Seq<u8>, Seq<InstructionView>)>, StopReason),
    /// It gives the attempt up.
    Failed(PackError),
}

impl PackerView {
    /// What holds of every attempt: the signer's address is that of the
    /// secret, the commission account and the pool are the derived ones, the
    /// draft and the accepted list are led by the placeholder, and neither
    /// asks anyone but the signer to sign.
    pub open spec fn wf(self) -> bool {
        &&& self.addresses.signatory@ == public_key(self.secret)
        &&& self.addresses.derived_under(self.deployment)
        &&& self.draft.len() >= 2
        &&& self.draft[0] == placeholder_ix()
        &&& self.confirmed.len() > 0 ==> self.confirmed[0] == placeholder_ix()
        &&& sole_signer(self.draft, public_key(self.secret))
        &&& sole_signer(self.confirmed, public_key(self.secret))
    }

    /// The attempt after the simulator accepted the draft and measured
    /// `units`.
    pub open spec fn accepted(self, units: Option<u64>) -> PackerView {
        PackerView { confirmed: self.draft, units, ..self }
    }

    /// The attempt with `ix` behind the draft.
    pub open spec fn extended(self, ix: InstructionView) -> PackerView {
        PackerView { draft: self.draft.push(ix), ..self }
    }

    /// The message that the signer pays for and that runs `list`.
    pub open spec fn message(self, list: Seq<InstructionView>) -> Option<Seq<u8>> {
        assembled(public_key(self.secret), list, self.blockhash)
    }

    /// Stopping: nothing where no draft was accepted; else the accepted list,
    /// finished with the units measured for it.
    pub open spec fn conclude(self, reason: StopReason) -> Turn {
        if self.confirmed.len() == 0 {
            Turn::Finished(None, reason)
        } else {
            match finalized(public_key(self.secret), self.blockhash, self.confirmed, self.units) {
                Some(found) => Turn::Finished(Some(found), reason),
                None => Turn::Failed(PackError::Assembly),
            }
        }
    }

    /// Proposing the draft: it must compile, and a message over the ceiling
    /// stops the attempt.
    pub open spec fn propose(self) -> Turn {
        match self.message(self.draft) {
            Some(message) => if message.len() > TRANSACTION_MESSAGE_SIZE_LIMIT {
                self.conclude(StopReason::SizeCeiling)
            } else {
                Turn::Simulate(self, message)
            },
            None => Turn::Failed(PackError::Assembly),
        }
    }

    /// What follows an accepted draft, by the thread as the dry run left it:
    /// one more exec while an instruction is pending and the slot has room.
    pub open spec fn follow(self, thread: Option<ThreadView>) -> Turn {
        match thread {
            None => self.conclude(StopReason::NoThreadState),
            Some(t) => if t.next_instruction is None {
                self.conclude(StopReason::ChainComplete)
            } else if !t.exec_context.has_room() {
                self.conclude(StopReason::RateLimited)
            } else {
                self.extended(exec_ix(self.deployment, t, self.addresses)).propose()
            },
        }
    }

    /// What follows the simulator's answer to the draft.
    pub open spec fn react(self, response: SimulationResponse) -> Turn {
        match response {
            SimulationResponse::Unavailable { code } => if response.is_stale() {
                Turn::Failed(PackError::MinContextSlotNotReached)
            } else {
                self.conclude(StopReason::SimulatorUnavailable)
            },
            SimulationResponse::Completed(result) => if result.err is Some {
                self.conclude(StopReason::SimulationFailed)
            } else {
                self.accepted(result.units_consumed).follow(
                    match result.thread {
                        Some(t) => Some(t@),
                        None => None,
                    },
                )
            },
        }
    }
}

/// The attempt before its first dry run: the placeholder and the instruction
/// that takes the thread one step further.
pub open spec fn fresh(
    deployment: Deployment,
    addresses: Addresses,
    secret: Seq<u8>,
    blockhash: Seq<u8>,
    slot: u64,
    thread: ThreadView,
) -> PackerView {
    PackerView {
        deployment,
        addresses,
        secret,
        blockhash,
        slot,
        draft: seq![placeholder_ix(), next_ix(deployment, thread, addresses)],
        confirmed: Seq::empty(),
        units: None,
    }
}

/// Whether `a` holds the addresses of an attempt: the signer's from the
/// secret, the thread's as given, the others derived from the worker's
/// number.
pub open spec fn addresses_fit(
    a: Addresses,
    deployment: Deployment,
    secret: Seq<u8>,
    thread: Pubkey,
    worker_id: u64,
) -> bool {
    &&& a.signatory@ == public_key(secret)
    &&& a.thread == thread
    &&& worker_address(deployment.network_program, worker_id) == Some(a.worker@)
    &&& a.derived_under(deployment)
}

/// The addresses of an attempt.
pub open spec fn addresses_of(
    deployment: Deployment,
    secret: Seq<u8>,
    thread: Pubkey,
    worker_id: u64,
) -> Addresses {
    choose|a: Addresses| addresses_fit(a, deployment, secret, thread, worker_id)
}

/// The addresses of an attempt are determined by what they are derived
/// from.
pub proof fn lemma_addresses_unique(
    a: Addresses,
    b: Addresses,
    deployment: Deployment,
    secret: Seq<u8>,
    thread: Pubkey,
    worker_id: u64,
)
    requires
        addresses_fit(a, deployment, secret, thread, worker_id),
        addresses_fit(b, deployment, secret, thread, worker_id),
    ensures
        a == b,
{
    assert(a.signatory.bytes =~= b.signatory.bytes);
    assert(a.worker.bytes =~= b.worker.bytes);
    assert(a.commission.bytes =~= b.commission.bytes);
    assert(a.pool.bytes =~= b.pool.bytes);
}

impl SimulationRequest {
    /// Whether this asks for a dry run of the attempt's draft, compiled into
    /// `message`: signed by the attempt's signer, signatures not verified,
    /// the block reference replaced, from the latest processed state, with
    /// the thread's account returned compressed, and not before the
    /// attempt's slot.
    pub open spec fn proposes(self, s: PackerView, message: Seq<u8>) -> bool {
        &&& self.transaction@.signed_by(s.secret, message, s.draft)
        &&& !self.sig_verify
        &&& self.replace_recent_blockhash
        &&& self.commitment == Commitment::Processed
        &&& self.encoding == AccountEncoding::Base64Zstd
        &&& self.addresses@ == seq![s.addresses.thread]
        &&& self.min_context_slot == Some(s.slot)
    }
}

/// Whether `result` is what `turn` describes, for an attempt that signs with
/// `secret`.
pub open spec fn agrees(result: Result<Progress, PackError>, turn: Turn, secret: Seq<u8>) -> bool {
    match turn {
        Turn::Simulate(s, message) => result matches Ok(Progress::Simulate { packer, request })
            && packer@ == s && request.proposes(s, message),
        Turn::Finished(found, reason) => result matches Ok(Progress::Finished(outcome))
            && outcome.reason == reason && match found {
            Some(found) => outcome.transaction matches Some(tx) && tx@.finishes(secret, found),
            None => outcome.transaction is None,
        },
        Turn::Failed(error) => result matches Err(e) && e == error,
    }
}

/// Whether a draft to simulate is within the size ceiling, and a
/// transaction to submit within the size ceiling and the compute ceiling.
pub open spec fn progress_respects_ceilings(result: Result<Progress, PackError>) -> bool {
    match result {
        Ok(Progress::Simulate { packer, request }) => request.transaction@.message.len()
            <= TRANSACTION_MESSAGE_SIZE_LIMIT,
        Ok(Progress::Finished(outcome)) => match outcome.transaction {
            Some(tx) => tx@.respects_ceilings(),
            None => true,
        },
        Err(_) => true,
    }
}

impl View for Packer {
    type V = PackerView;

    closed spec fn view(&self) -> PackerView {
        PackerView {
            deployment: self.deployment,
            addresses: self.addresses,
            secret: self.secret@,
            blockhash: self.blockhash@,
            slot: self.slot,
            draft: views(self.draft@),
            confirmed: views(self.confirmed@),
            units: self.units,
        }
    }
}

impl Packer {
    #[verifier::type_invariant]
    spec fn inv(self) -> bool {
        self@.wf()
    }

    /// The list that was last proposed to the simulator.
    pub fn draft(&self) -> (list: &Vec<Instruction>)
        ensures
            views(list@) == self@.draft,
    {
        &self.draft
    }

    /// The longest list that the simulator accepted so far.
    pub fn confirmed(&self) -> (list: &Vec<Instruction>)
        ensures
            views(list@) == self@.confirmed,
    {
        &self.confirmed
    }

    /// The units measured when the accepted list was accepted.
    pub fn units_consumed(&self) -> (units: Option<u64>)
        ensures
            units == self@.units,
    {
        self.units
    }

    /// The addresses that the attempt's instructions refer to.
    pub fn addresses(&self) -> (addresses: Addresses)
        ensures
            addresses == self@.addresses,
    {
        self.addresses
    }

    fn conclude(self, reason: StopReason) -> (result: Result<Progress, PackError>)
        ensures
            agrees(result, self@.conclude(reason), self@.secret),
    {
        let Packer { secret, blockhash, confirmed, units, .. } = self;
        if confirmed.len() == 0 {
            return Ok(Progress::Finished(Outcome { transaction: None, reason }));
        }
        match finalize(&secret, &blockhash, confirmed, units) {
            Ok(transaction) => Ok(
                Progress::Finished(Outcome { transaction: Some(transaction), reason }),
            ),
            Err(e) => Err(e),
        }
    }

    fn propose(self) -> (result: Result<Progress, PackError>)
        ensures
            agrees(result, self@.propose(), self@.secret),
    {
        let draft = duplicate_all(&self.draft);
        let transaction = match assemble(&self.secret, &self.blockhash, draft) {
            Ok(tx) => tx,
            Err(e) => {
                return Err(e);
            },
        };
        if transaction.message.len() > TRANSACTION_MESSAGE_SIZE_LIMIT {
            return self.conclude(StopReason::SizeCeiling);
        }
        let mut addresses: Vec<Pubkey> = Vec::new();
        addresses.push(self.addresses.thread);
        let request = SimulationRequest {
            transaction,
            sig_verify: false,
            replace_recent_blockhash: true,
            commitment: Commitment::Processed,
            encoding: AccountEncoding::Base64Zstd,
            addresses,
            min_context_slot: Some(self.slot),
        };
        Ok(Progress::Simulate { packer: self, request })
    }

    /// Begins an attempt for `thread`: derives the addresses, makes the first
    /// draft of the placeholder and the thread's next instruction, and
    /// proposes it. `blockhash` serves every message of the attempt; `slot`
    /// is the slot that the simulator must have seen.
    pub fn start(
        deployment: Deployment,
        payer: SecretKey,
        slot: u64,
        thread: &Thread,
        thread_pubkey: Pubkey,
        worker_id: u64,
        blockhash: Blockhash,
    ) -> (result: Result<Progress, PackError>)
        ensures
            !Addresses::resolvable(deployment, worker_id) ==> (result matches Err(e) && e
                == PackError::NoAddress),
            Addresses::resolvable(deployment, worker_id) ==> agrees(
                result,
                fresh(
                    deployment,
                    addresses_of(deployment, payer@, thread_pubkey, worker_id),
                    payer@,
                    blockhash@,
                    slot,
                    thread@,
                ).propose(),
                payer@,
            ),
            progress_respects_ceilings(result),
    {
        let signatory = signer_pubkey(&payer);
        let addresses = match Addresses::resolve(&deployment, signatory, thread_pubkey, worker_id) {
            Some(found) => found,
            None => {
                return Err(PackError::NoAddress);
            },
        };
        proof {
            lemma_addresses_unique(
                addresses,
                addresses_of(deployment, payer@, thread_pubkey, worker_id),
                deployment,
                payer@,
                thread_pubkey,
                worker_id,
            );
        }
        let mut draft: Vec<Instruction> = Vec::new();
        draft.push(set_compute_unit_limit(TRANSACTION_COMPUTE_UNIT_LIMIT));
        draft.push(build_instruction(&deployment, thread, &addresses));
        assert(views(draft@) =~= fresh(
            deployment,
            addresses,
            payer@,
            blockhash@,
            slot,
            thread@,
        ).draft);
        proof {
            lemma_fresh_wf(deployment, addresses, payer@, blockhash@, slot, thread@);
        }
        let packer = Packer {
            deployment,
            addresses,
            secret: payer,
            blockhash,
            slot,
            draft,
            confirmed: Vec::new(),
            units: None,
        };
        assert(packer@ == fresh(deployment, addresses, payer@, blockhash@, slot, thread@)) by {
            assert(packer@.confirmed =~= Seq::empty());
        }
        proof {
            lemma_propose_sound(packer@);
        }
        packer.propose()
    }

    /// Takes the simulator's answer to the draft last proposed.
    ///
    /// An answer that the slot asked for was not reached gives the attempt
    /// up. No answer, or a rejected draft, stops the attempt with what was
    /// accepted before. An accepted draft becomes the accepted list; the
    /// attempt goes on with one more exec while the thread, as the dry run
    /// left it, has an instruction pending and room in its slot.
    pub fn advance(self, response: &SimulationResponse) -> (result: Result<Progress, PackError>)
        ensures
            agrees(result, self@.react(*response), self@.secret),
            sound(self@.react(*response)),
            progress_respects_ceilings(result),
    {
        proof {
            use_type_invariant(&self);
            lemma_react_sound(self@, *response);
        }
        match response {
            SimulationResponse::Unavailable { code } => {
                match code {
                    Some(c) => {
                        if *c == MIN_CONTEXT_SLOT_NOT_REACHED {
                            return Err(PackError::MinContextSlotNotReached);
                        }
                    },
                    None => {},
                }
                self.conclude(StopReason::SimulatorUnavailable)
            },
            SimulationResponse::Completed(result) => {
                if result.err.is_some() {
                    return self.conclude(StopReason::SimulationFailed);
                }
                let ghost before = self@;
                let Packer { deployment, addresses, secret, blockhash, slot, draft, .. } = self;
                let confirmed = duplicate_all(&draft);
                let units = result.units_consumed;
                match &result.thread {
                    None => {
                        let packer = Packer {
                            deployment,
                            addresses,
                            secret,
                            blockhash,
                            slot,
                            draft,
                            confirmed,
                            units,
                        };
                        assert(packer@ == before.accepted(units));
                        packer.conclude(StopReason::NoThreadState)
                    },
                    Some(thread) => {
                        if !thread.has_next_instruction() {
                            let packer = Packer {
                                deployment,
                                addresses,
                                secret,
                                blockhash,
                                slot,
                                draft,
                                confirmed,
                                units,
                            };
                            assert(packer@ == before.accepted(units));
                            packer.conclude(StopReason::ChainComplete)
                        } else if !thread.exec_context.within_rate_limit() {
                            let packer = Packer {
                                deployment,
                                addresses,
                                secret,
                                blockhash,
                                slot,
                                draft,
                                confirmed,
                                units,
                            };
                            assert(packer@ == before.accepted(units));
                            packer.conclude(StopReason::RateLimited)
                        } else {
                            let mut draft = draft;
                            let ix = build_exec_ix(&deployment, thread, &addresses);
                            draft.push(ix);
                            assert(views(draft@) =~= before.draft.push(
                                exec_ix(deployment, thread@, addresses),
                            ));
                            let packer = Packer {
                                deployment,
                                addresses,
                                secret,
                                blockhash,
                                slot,
                                draft,
                                confirmed,
                                units,
                            };
                            assert(packer@ == before.accepted(units).extended(
                                exec_ix(deployment, thread@, addresses),
                            ));
                            packer.propose()
                        }
                    },
                }
            },
        }
    }
}

} // verus!
