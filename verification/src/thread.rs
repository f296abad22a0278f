//! The automation record that the packer serves.

use vstd::prelude::*;
use crate::instruction::{Instruction, InstructionView};
use crate::keys::Pubkey;

verus! {

/// The condition under which a thread falls due.
#[derive(Clone, Copy, Debug, PartialEq, Eq)]
pub enum Trigger {
    /// A watched stretch of an account's data changes.
    Account { address: Pubkey, offset: u64, size: u64 },
    /// A point in time is reached, once or on a schedule.
    Time,
    /// A slot or an epoch is reached.
    Slot,
    /// A price feed crosses a limit.
    Pyth { price_feed: Pubkey, limit: i64 },
    /// Due at once.
    Now,
}

impl Trigger {
    /// The account that a kickoff must bring along for this condition.
    pub open spec fn watched(self) -> Option<Pubkey> {
        match self {
            Trigger::Account { address, .. } => Some(address),
            Trigger::Pyth { price_feed, .. } => Some(price_feed),
            _ => None,
        }
    }

    /// The account that a kickoff must bring along for this condition.
    pub fn watched_account(&self) -> (account: Option<Pubkey>)
        ensures
            account == self.watched(),
    {
        match self {
            Trigger::Account { address, .. } => Some(*address),
            Trigger::Pyth { price_feed, .. } => Some(*price_feed),
            _ => None,
        }
    }
}

/// Where a thread stands in its executions.
#[derive(Clone, Copy, Debug, PartialEq, Eq)]
pub struct ExecContext {
    /// The slot of the latest execution.
    pub last_exec_at: u64,
    /// How many executions that slot has seen.
    pub execs_since_slot: u64,
    /// How many executions one slot may see.
    pub rate_limit: u64,
}

impl ExecContext {
    /// Whether the slot may see one more execution.
    pub open spec fn has_room(self) -> bool {
        self.execs_since_slot < self.rate_limit
    }

    /// Whether the slot may see one more execution.
    pub fn within_rate_limit(&self) -> (room: bool)
        ensures
            room == self.has_room(),
    {
        self.execs_since_slot < self.rate_limit
    }
}

/// A thread: who owns it, when it falls due, and how far its chain has run.
/// `next_instruction` is present exactly while the thread is in the middle of
/// its chain.
#[derive(Clone, Debug, PartialEq, Eq)]
pub struct Thread {
    pub id: Vec<u8>,
    pub authority: Pubkey,
    pub trigger: Trigger,
    pub next_instruction: Option<Instruction>,
    pub exec_context: ExecContext,
}

/// What a [`Thread`] holds, as mathematical values.
pub struct ThreadView {
    pub id: Seq<u8>,
    pub authority: Pubkey,
    pub trigger: Trigger,
    pub next_instruction: Option<InstructionView>,
    pub exec_context: ExecContext,
}

impl View for Thread {
    type V = ThreadView;

    open spec fn view(&self) -> ThreadView {
        ThreadView {
            id: self.id@,
            authority: self.authority,
            trigger: self.trigger,
            next_instruction: match self.next_instruction {
                Some(ix) => Some(ix@),
                None => None,
            },
            exec_context: self.exec_context,
        }
    }
}

impl Thread {
    /// Whether an instruction waits to be executed.
    pub fn has_next_instruction(&self) -> (pending: bool)
        ensures
            pending == (self@.next_instruction is Some),
    {
        self.next_instruction.is_some()
    }
}

} // verus!
