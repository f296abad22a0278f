//! Finishing an accepted list: fitting its compute budget and signing it.

use vstd::prelude::*;
use crate::budget::{
    budgeted, committed_units, compute_limit_ix, lemma_requested_units, requested_units,
    set_budget, TRANSACTION_COMPUTE_UNIT_LIMIT,
};
use crate::error::PackError;
use crate::instruction::{views, Instruction, InstructionView};
use crate::keys::{Blockhash, SecretKey};
use crate::message::{
    assemble, assembled, public_key, Transaction, TransactionView, TRANSACTION_MESSAGE_SIZE_LIMIT,
};

verus! {

/// The message and the instructions of the transaction that finishes `list`:
/// the list with its budget fitted to `measured`, compiled for `payer`.
/// `None` where the fitted list has no message that the payer's signature
/// suffices for, or one over the ceiling.
pub open spec fn finalized(
    payer: Seq<u8>,
    blockhash: Seq<u8>,
    list: Seq<InstructionView>,
    measured: Option<u64>,
) -> Option<(Seq<u8>, Seq<InstructionView>)> {
    let fitted = budgeted(list, measured);
    match assembled(payer, fitted, blockhash) {
        Some(message) => if message.len() > TRANSACTION_MESSAGE_SIZE_LIMIT {
            None
        } else {
            Some((message, fitted))
        },
        None => None,
    }
}

impl TransactionView {
    /// Whether the message is within the size ceiling and the leading
    /// instruction asks for no more units than a transaction may.
    pub open spec fn respects_ceilings(self) -> bool {
        &&& self.message.len() <= TRANSACTION_MESSAGE_SIZE_LIMIT
        &&& self.instructions.len() > 0
        &&& requested_units(self.instructions[0]) matches Some(units) && units
            <= TRANSACTION_COMPUTE_UNIT_LIMIT
    }

    /// Whether this is what finishing gave: `found`, under the one signature
    /// that `secret` gives it.
    pub open spec fn finishes(
        self,
        secret: Seq<u8>,
        found: (Seq<u8>, Seq<InstructionView>),
    ) -> bool {
        self.signed_by(secret, found.0, found.1)
    }
}

/// Replaces the leading instruction of `instructions` by one that asks for
/// the measured units and the buffer, capped at the limit, or leaves it where
/// nothing was measured; compiles the list for the signer of `payer` and
/// signs the message. Fails where the list has no message that this one
/// signature suffices for, or one over the size ceiling.
pub fn finalize(
    payer: &SecretKey,
    blockhash: &Blockhash,
    instructions: Vec<Instruction>,
    measured: Option<u64>,
) -> (result: Result<Transaction, PackError>)
    ensures
        match finalized(public_key(payer@), blockhash@, views(instructions@), measured) {
            Some(found) => result matches Ok(tx) && tx@.finishes(payer@, found),
            None => result matches Err(e) && e == PackError::Assembly,
        },
        result matches Ok(tx) ==> tx@.message.len() <= TRANSACTION_MESSAGE_SIZE_LIMIT
            && tx@.instructions == budgeted(views(instructions@), measured),
{
    let mut list = instructions;
    set_budget(&mut list, measured);
    let transaction = match assemble(payer, blockhash, list) {
        Ok(tx) => tx,
        Err(e) => {
            return Err(e);
        },
    };
    if transaction.message.len() > TRANSACTION_MESSAGE_SIZE_LIMIT {
        return Err(PackError::Assembly);
    }
    Ok(transaction)
}

/// Finishing a list that was finished before, with the same measurement,
/// gives the same message and the same instructions.
pub proof fn lemma_finalize_idempotent(
    payer: Seq<u8>,
    blockhash: Seq<u8>,
    list: Seq<InstructionView>,
    measured: Option<u64>,
)
    ensures
        finalized(payer, blockhash, budgeted(list, measured), measured) == finalized(
            payer,
            blockhash,
            list,
            measured,
        ),
{
    assert(budgeted(budgeted(list, measured), measured) =~= budgeted(list, measured));
}

/// A finished list is within the size ceiling; and where units were
/// measured, or the list already asked for no more than the limit, its
/// leading instruction asks for no more than the limit.
pub proof fn lemma_finalized_respects_ceilings(
    payer: Seq<u8>,
    blockhash: Seq<u8>,
    list: Seq<InstructionView>,
    measured: Option<u64>,
)
    requires
        list.len() > 0,
        measured is Some || (requested_units(list[0]) matches Some(units) && units
            <= TRANSACTION_COMPUTE_UNIT_LIMIT),
    ensures
        finalized(payer, blockhash, list, measured) matches Some(found) ==> found.0.len()
            <= TRANSACTION_MESSAGE_SIZE_LIMIT && found.1.len() > 0 && (requested_units(
            found.1[0],
        ) matches Some(units) && units <= TRANSACTION_COMPUTE_UNIT_LIMIT),
{
    match measured {
        Some(units) => {
            lemma_requested_units(committed_units(units));
            assert(budgeted(list, measured)[0] == compute_limit_ix(committed_units(units)));
        },
        None => {},
    }
}

} // verus!
