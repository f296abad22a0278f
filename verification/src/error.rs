//! Why a packing attempt was given up.

use vstd::prelude::*;

verus! {

/// The conditions that end an attempt without a result. Everything else that
/// stops the packer leaves what was proven until then.
#[derive(Clone, Copy, Debug, PartialEq, Eq, Structural)]
pub enum PackError {
    /// The simulator has not yet seen the slot that the caller asked for:
    /// wait and try again, nothing may be submitted.
    MinContextSlotNotReached,
    /// No well-formed transaction can be made of the instructions.
    Assembly,
    /// The seeds of the worker, its commission account or the pool admit no
    /// address.
    NoAddress,
}

impl PackError {
    /// The condition in words.
    pub fn describe(&self) -> (text: &'static str)
        ensures
            text@ == match *self {
                PackError::MinContextSlotNotReached =>
                    "RPC client has not reached min context slot"@,
                PackError::Assembly => "Failed to compile message"@,
                PackError::NoAddress => "Unable to find a viable program address bump seed"@,
            },
    {
        match self {
            PackError::MinContextSlotNotReached => "RPC client has not reached min context slot",
            PackError::Assembly => "Failed to compile message",
            PackError::NoAddress => "Unable to find a viable program address bump seed",
        }
    }
}

} // verus!
