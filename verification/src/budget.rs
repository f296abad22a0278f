//! The compute budget of a transaction: how many units it asks for.

use vstd::prelude::*;
use crate::encoding::u32_le_bytes;
use crate::instruction::{views, AccountMeta, Instruction, InstructionView};
use crate::keys::Pubkey;

verus! {

/// The most compute units that one transaction may ask for.
pub const TRANSACTION_COMPUTE_UNIT_LIMIT: u32 = 1_400_000;

/// What is added to the measured units, in case the ledger spends more on
/// address derivations than the dry run did.
pub const TRANSACTION_COMPUTE_UNIT_BUFFER: u32 = 1000;

/// The address of the compute budget program.
pub open spec fn compute_budget_program() -> Pubkey {
    Pubkey {
        bytes: [
            3u8, 6, 70, 111, 229, 33, 23, 50, 255, 236, 173, 186, 114, 195, 155, 231, 188, 140,
            229, 187, 197, 247, 18, 107, 44, 67, 155, 58, 64, 0, 0, 0,
        ],
    }
}

/// The instruction that asks the compute budget program for a limit of
/// `units`: no accounts, and as data the tag 2 before the units, least
/// significant byte first.
pub open spec fn compute_limit_ix(units: u32) -> InstructionView {
    InstructionView {
        program_id: compute_budget_program(),
        accounts: Seq::<AccountMeta>::empty(),
        data: seq![2u8] + u32_le_bytes(units),
    }
}

/// The number whose four bytes, least significant first, are `bytes`.
pub open spec fn u32_from_le_bytes(bytes: Seq<u8>) -> u32
    recommends
        bytes.len() == 4,
{
    (bytes[0] as u32) | ((bytes[1] as u32) << 8) | ((bytes[2] as u32) << 16) | ((bytes[3] as u32)
        << 24)
}

/// The limit that `ix` asks the compute budget program for; `None` where it
/// asks for none.
pub open spec fn requested_units(ix: InstructionView) -> Option<u32> {
    if ix.program_id == compute_budget_program() && ix.data.len() == 5 && ix.data[0] == 2 {
        Some(u32_from_le_bytes(ix.data.subrange(1, 5)))
    } else {
        None
    }
}

/// Reading the limit of an instruction that asks for `units` gives `units`.
pub proof fn lemma_requested_units(units: u32)
    ensures
        requested_units(compute_limit_ix(units)) == Some(units),
{
    let data = compute_limit_ix(units).data;
    let bytes = data.subrange(1, 5);
    assert(bytes =~= u32_le_bytes(units));
    let b0 = (units & 0xff) as u8;
    let b1 = ((units >> 8) & 0xff) as u8;
    let b2 = ((units >> 16) & 0xff) as u8;
    let b3 = ((units >> 24) & 0xff) as u8;
    assert((b0 as u32) | ((b1 as u32) << 8) | ((b2 as u32) << 16) | ((b3 as u32) << 24) == units)
        by (bit_vector)
        requires
            b0 == (units & 0xff) as u8,
            b1 == ((units >> 8) & 0xff) as u8,
            b2 == ((units >> 16) & 0xff) as u8,
            b3 == ((units >> 24) & 0xff) as u8,
    ;
}

/// The address of the compute budget program.
pub fn compute_budget_id() -> (id: Pubkey)
    ensures
        id == compute_budget_program(),
{
    Pubkey {
        bytes: [
            3u8, 6, 70, 111, 229, 33, 23, 50, 255, 236, 173, 186, 114, 195, 155, 231, 188, 140,
            229, 187, 197, 247, 18, 107, 44, 67, 155, 58, 64, 0, 0, 0,
        ],
    }
}

/// Reads the limit that `ix` asks the compute budget program for.
pub fn compute_unit_limit(ix: &Instruction) -> (units: Option<u32>)
    ensures
        units == requested_units(ix@),
{
    if !ix.program_id.same(&compute_budget_id()) || ix.data.len() != 5 || ix.data[0] != 2 {
        return None;
    }
    let b0: u32 = ix.data[1] as u32;
    let b1: u32 = ix.data[2] as u32;
    let b2: u32 = ix.data[3] as u32;
    let b3: u32 = ix.data[4] as u32;
    assert(ix@.data.subrange(1, 5) =~= seq![ix.data[1], ix.data[2], ix.data[3], ix.data[4]]);
    Some(b0 | (b1 << 8) | (b2 << 16) | (b3 << 24))
}

/// Calls `solana_sdk::compute_budget::ComputeBudgetInstruction::set_compute_unit_limit`.
/// Nothing is proved of it: the contract says that its result is addressed to
/// the compute budget program, names no account, and carries five bytes of
/// data, the tag 2 and the units in little-endian order.
#[verifier::external_body]
pub(crate) fn set_compute_unit_limit(units: u32) -> (ix: Instruction)
    ensures
        ix@ == compute_limit_ix(units),
{
    let ix = solana_sdk::compute_budget::ComputeBudgetInstruction::set_compute_unit_limit(units);
    Instruction {
        program_id: Pubkey { bytes: ix.program_id.to_bytes() },
        accounts: ix.accounts.iter().map(
            |meta| AccountMeta {
                pubkey: Pubkey { bytes: meta.pubkey.to_bytes() },
                is_signer: meta.is_signer,
                is_writable: meta.is_writable,
            },
        ).collect(),
        data: ix.data,
    }
}

/// The units that a transaction asks for when a dry run measured `measured`:
/// the measured units and the buffer, capped at the limit.
pub open spec fn committed_units(measured: u64) -> u32 {
    if measured + TRANSACTION_COMPUTE_UNIT_BUFFER >= TRANSACTION_COMPUTE_UNIT_LIMIT {
        TRANSACTION_COMPUTE_UNIT_LIMIT
    } else {
        (measured + TRANSACTION_COMPUTE_UNIT_BUFFER) as u32
    }
}

/// Computes the units to ask for from the units measured.
pub fn units_to_commit(measured: u64) -> (units: u32)
    ensures
        units == committed_units(measured),
        units <= TRANSACTION_COMPUTE_UNIT_LIMIT,
        units == vstd::math::min(
            measured + TRANSACTION_COMPUTE_UNIT_BUFFER,
            TRANSACTION_COMPUTE_UNIT_LIMIT as int,
        ),
{
    let room: u32 = TRANSACTION_COMPUTE_UNIT_LIMIT - TRANSACTION_COMPUTE_UNIT_BUFFER;
    if measured >= room as u64 {
        TRANSACTION_COMPUTE_UNIT_LIMIT
    } else {
        measured as u32 + TRANSACTION_COMPUTE_UNIT_BUFFER
    }
}

/// The placeholder that leads every draft: it asks for the limit itself.
pub open spec fn placeholder_ix() -> InstructionView {
    compute_limit_ix(TRANSACTION_COMPUTE_UNIT_LIMIT)
}

/// A list with its leading instruction fitted to the measured units. A list
/// that is empty, or for which nothing was measured, stays as it is.
pub open spec fn budgeted(list: Seq<InstructionView>, measured: Option<u64>) -> Seq<
    InstructionView,
> {
    match measured {
        Some(units) => if list.len() > 0 {
            list.update(0, compute_limit_ix(committed_units(units)))
        } else {
            list
        },
        None => list,
    }
}

/// Replaces the leading instruction of `list` by one that asks for the
/// measured units and the buffer, capped at the limit.
pub fn set_budget(list: &mut Vec<Instruction>, measured: Option<u64>)
    ensures
        views(final(list)@) == budgeted(views(old(list)@), measured),
        final(list)@.len() == old(list)@.len(),
{
    match measured {
        Some(units) => {
            if list.len() > 0 {
                let ix = set_compute_unit_limit(units_to_commit(units));
                list[0] = ix;
                assert(views(list@) =~= budgeted(views(old(list)@), measured));
            }
        },
        None => {},
    }
}

/// Fitting the budget twice with the same measurement changes nothing the
/// second time.
pub proof fn lemma_budget_idempotent(list: Seq<InstructionView>, measured: Option<u64>)
    ensures
        budgeted(budgeted(list, measured), measured) == budgeted(list, measured),
{
    assert(budgeted(budgeted(list, measured), measured) =~= budgeted(list, measured));
}

/// A fitted list is as long as the list it came from, and differs from it in
/// the leading instruction at most.
pub proof fn lemma_budget_keeps_rest(list: Seq<InstructionView>, measured: Option<u64>)
    ensures
        budgeted(list, measured).len() == list.len(),
        forall|i: int| 1 <= i < list.len() ==> budgeted(list, measured)[i] == list[i],
{
}

} // verus!
