//! What is asked of the simulator, and what it answers.

use vstd::prelude::*;
use crate::keys::Pubkey;
use crate::message::Transaction;
use crate::thread::Thread;

verus! {

/// The code with which the simulator says that it has not yet seen the slot
/// that a request asked for.
pub const MIN_CONTEXT_SLOT_NOT_REACHED: i64 = -32016;

/// How settled the state is that a dry run starts from.
#[derive(Clone, Copy, Debug, PartialEq, Eq, Structural)]
pub enum Commitment {
    Processed,
    Confirmed,
    Finalized,
}

/// How the simulator encodes the accounts it returns.
#[derive(Clone, Copy, Debug, PartialEq, Eq, Structural)]
pub enum AccountEncoding {
    Base58,
    Base64,
    Base64Zstd,
}

/// One dry run to ask for.
#[derive(Clone, Debug, PartialEq, Eq)]
pub struct SimulationRequest {
    /// The draft, signed.
    pub transaction: Transaction,
    /// Whether the simulator verifies the signatures.
    pub sig_verify: bool,
    /// Whether the simulator puts its own latest block reference in place of
    /// the draft's.
    pub replace_recent_blockhash: bool,
    pub commitment: Commitment,
    pub encoding: AccountEncoding,
    /// The accounts whose state after the dry run is wanted.
    pub addresses: Vec<Pubkey>,
    /// The slot that the simulator must have seen.
    pub min_context_slot: Option<u64>,
}

/// What a dry run found.
#[derive(Clone, Debug, PartialEq, Eq)]
pub struct SimulationResult {
    /// Why the ledger would reject the draft; `None` where it would not.
    pub err: Option<String>,
    pub logs: Vec<String>,
    pub units_consumed: Option<u64>,
    /// The thread as the dry run left it, where the answer held it.
    pub thread: Option<Thread>,
}

/// The simulator's answer to one request.
#[derive(Clone, Debug, PartialEq, Eq)]
pub enum SimulationResponse {
    /// No dry run took place. `code` is the code of the error that the server
    /// answered with, where it answered.
    Unavailable { code: Option<i64> },
    /// The dry run took place.
    Completed(SimulationResult),
}

impl SimulationResponse {
    /// Whether the simulator has not yet seen the slot asked for.
    pub open spec fn is_stale(self) -> bool {
        self matches SimulationResponse::Unavailable { code: Some(c) } && c
            == MIN_CONTEXT_SLOT_NOT_REACHED
    }

    /// Whether a dry run took place and the ledger would accept the draft.
    pub open spec fn succeeded(self) -> bool {
        self matches SimulationResponse::Completed(result) && result.err is None
    }

    /// The units that a dry run measured.
    pub open spec fn units(self) -> Option<u64> {
        match self {
            SimulationResponse::Completed(result) => result.units_consumed,
            _ => None,
        }
    }
}

} // verus!
