//! What holds of every packing attempt, whatever the simulator answers.

use vstd::prelude::*;
use crate::budget::{
    budgeted, lemma_requested_units, placeholder_ix, requested_units,
    TRANSACTION_COMPUTE_UNIT_LIMIT,
};
use crate::factory::{exec_ix, kickoff_ix, next_ix, Addresses, Deployment};
use crate::finalizer::lemma_finalized_respects_ceilings;
use crate::instruction::InstructionView;
use crate::message::{
    public_key, sole_signer, MAX_ENCODED_LEN, TRANSACTION_MESSAGE_SIZE_LIMIT,
};
use crate::packer::{fresh, PackerView, StopReason, Turn};
use crate::thread::ThreadView;
use crate::simulation::SimulationResponse;

verus! {

/// Where an attempt stands after the simulator's answers `responses`, one
/// for each draft proposed. Answers beyond the attempt's end are not read.
pub open spec fn play(turn: Turn, responses: Seq<SimulationResponse>) -> Turn
    decreases responses.len(),
{
    if responses.len() == 0 {
        turn
    } else {
        match turn {
            Turn::Simulate(s, _) => play(s.react(responses[0]), responses.drop_first()),
            _ => turn,
        }
    }
}

/// Where an attempt stands after one answer: an attempt that has ended
/// stays as it is.
pub open spec fn step(turn: Turn, response: SimulationResponse) -> Turn {
    match turn {
        Turn::Simulate(s, _) => s.react(response),
        _ => turn,
    }
}

/// An attempt that has ended reads no further answers.
pub proof fn lemma_play_settled(turn: Turn, responses: Seq<SimulationResponse>)
    requires
        !(turn is Simulate),
    ensures
        play(turn, responses) == turn,
{
}

/// Playing one answer more is playing the others and then taking one step.
pub proof fn lemma_play_last(
    turn: Turn,
    responses: Seq<SimulationResponse>,
    response: SimulationResponse,
)
    ensures
        play(turn, responses.push(response)) == step(play(turn, responses), response),
    decreases responses.len(),
{
    let longer = responses.push(response);
    match turn {
        Turn::Simulate(s, _) => {
            if responses.len() == 0 {
                assert(longer.drop_first() =~= Seq::<SimulationResponse>::empty());
                assert(play(s.react(longer[0]), longer.drop_first()) == s.react(response));
            } else {
                assert(longer.drop_first() =~= responses.drop_first().push(response));
                lemma_play_last(s.react(responses[0]), responses.drop_first(), response);
            }
        },
        _ => {
            lemma_play_settled(turn, longer);
            lemma_play_settled(turn, responses);
        },
    }
}

/// Once an attempt has ended, answers that follow change nothing.
pub proof fn lemma_play_ended(turn: Turn, responses: Seq<SimulationResponse>, k: int)
    requires
        0 <= k <= responses.len(),
        !(play(turn, responses.take(k)) is Simulate),
    ensures
        play(turn, responses) == play(turn, responses.take(k)),
    decreases responses.len() - k,
{
    if k < responses.len() {
        assert(responses.take(k + 1) =~= responses.take(k).push(responses[k]));
        lemma_play_last(turn, responses.take(k), responses[k]);
        lemma_play_ended(turn, responses, k + 1);
    } else {
        assert(responses.take(k) =~= responses);
    }
}

/// Whether `found` is a result within both ceilings.
pub open spec fn within_ceilings(found: (Seq<u8>, Seq<InstructionView>)) -> bool {
    &&& found.0.len() <= TRANSACTION_MESSAGE_SIZE_LIMIT
    &&& found.1.len() > 0
    &&& requested_units(found.1[0]) matches Some(units) && units <= TRANSACTION_COMPUTE_UNIT_LIMIT
}

/// Whether a turn holds nothing out of bounds: an attempt that goes on is
/// well formed, its draft compiled within the size ceiling; a result is
/// within both ceilings.
pub open spec fn sound(turn: Turn) -> bool {
    match turn {
        Turn::Simulate(s, message) => s.wf() && s.message(s.draft) == Some(message)
            && message.len() <= TRANSACTION_MESSAGE_SIZE_LIMIT,
        Turn::Finished(Some(found), _) => within_ceilings(found),
        _ => true,
    }
}

/// Whether `ix` asks no account but `signatory` to sign.
pub open spec fn signs_alone(ix: InstructionView, signatory: Seq<u8>) -> bool {
    forall|j: int|
        0 <= j < ix.accounts.len() && (#[trigger] ix.accounts[j]).is_signer
            ==> ix.accounts[j].pubkey@ == signatory
}

/// The instructions that the factory builds ask no account but the signer
/// to sign.
pub proof fn lemma_built_instructions_sign_alone(d: Deployment, thread: ThreadView, a: Addresses)
    ensures
        signs_alone(kickoff_ix(d, thread, a), a.signatory@),
        signs_alone(exec_ix(d, thread, a), a.signatory@),
        signs_alone(next_ix(d, thread, a), a.signatory@),
{
}

/// A list of instructions that each ask the signer alone asks the signer
/// alone, and so does the list with one more such instruction.
pub proof fn lemma_sole_signer_push(list: Seq<InstructionView>, ix: InstructionView, payer: Seq<u8>)
    requires
        sole_signer(list, payer),
        signs_alone(ix, payer),
    ensures
        sole_signer(list.push(ix), payer),
{
    let longer = list.push(ix);
    assert forall|i: int, j: int|
        0 <= i < longer.len() && 0 <= j < longer[i].accounts.len() && (
        #[trigger] longer[i].accounts[j]).is_signer implies longer[i].accounts[j].pubkey@
        == payer by {
        if i < list.len() {
            assert(longer[i] == list[i]);
            assert(list[i].accounts[j].is_signer);
        } else {
            assert(longer[i] == ix);
            assert(ix.accounts[j].is_signer);
        }
    }
}

/// In a well-formed attempt the signer's signature suffices: neither the
/// draft nor the accepted list with its budget fitted asks another account
/// to sign.
pub proof fn lemma_signature_suffices(s: PackerView)
    requires
        s.wf(),
    ensures
        sole_signer(s.draft, public_key(s.secret)),
        sole_signer(budgeted(s.confirmed, s.units), public_key(s.secret)),
{
    let fitted = budgeted(s.confirmed, s.units);
    assert forall|i: int, j: int|
        0 <= i < fitted.len() && 0 <= j < fitted[i].accounts.len() && (
        #[trigger] fitted[i].accounts[j]).is_signer implies fitted[i].accounts[j].pubkey@
        == public_key(s.secret) by {
        if i > 0 || s.units is None {
            assert(fitted[i] == s.confirmed[i]);
            assert(s.confirmed[i].accounts[j].is_signer);
        }
    }
}

/// A fresh attempt, with addresses that fit, is well formed.
pub proof fn lemma_fresh_wf(
    deployment: Deployment,
    addresses: Addresses,
    secret: Seq<u8>,
    blockhash: Seq<u8>,
    slot: u64,
    thread: ThreadView,
)
    requires
        addresses.signatory@ == public_key(secret),
        addresses.derived_under(deployment),
    ensures
        fresh(deployment, addresses, secret, blockhash, slot, thread).wf(),
{
    let s = fresh(deployment, addresses, secret, blockhash, slot, thread);
    lemma_built_instructions_sign_alone(deployment, thread, addresses);
    assert(sole_signer(seq![placeholder_ix()], public_key(secret)));
    lemma_sole_signer_push(
        seq![placeholder_ix()],
        next_ix(deployment, thread, addresses),
        public_key(secret),
    );
    assert(s.draft =~= seq![placeholder_ix()].push(next_ix(deployment, thread, addresses)));
}

/// Stopping a well-formed attempt gives a result within both ceilings.
pub proof fn lemma_conclude_sound(s: PackerView, reason: StopReason)
    requires
        s.confirmed.len() > 0 ==> s.confirmed[0] == placeholder_ix(),
    ensures
        sound(s.conclude(reason)),
{
    if s.confirmed.len() > 0 {
        lemma_requested_units(TRANSACTION_COMPUTE_UNIT_LIMIT);
        lemma_finalized_respects_ceilings(
            public_key(s.secret),
            s.blockhash,
            s.confirmed,
            s.units,
        );
    }
}

/// Proposing the draft of a well-formed attempt gives a draft within the
/// size ceiling, or a result within both ceilings.
pub proof fn lemma_propose_sound(s: PackerView)
    requires
        s.wf(),
    ensures
        sound(s.propose()),
{
    lemma_conclude_sound(s, StopReason::SizeCeiling);
}

/// Ceiling respect, one step: whatever the simulator answers to a
/// well-formed attempt, a draft proposed next is within the size ceiling,
/// and a transaction returned is within the size ceiling and asks for no
/// more units than a transaction may.
pub proof fn lemma_react_sound(s: PackerView, response: SimulationResponse)
    requires
        s.wf(),
    ensures
        sound(s.react(response)),
{
    lemma_conclude_sound(s, StopReason::SimulatorUnavailable);
    lemma_conclude_sound(s, StopReason::SimulationFailed);
    match response {
        SimulationResponse::Completed(result) => {
            if result.err is None {
                let kept = s.accepted(result.units_consumed);
                lemma_conclude_sound(kept, StopReason::NoThreadState);
                lemma_conclude_sound(kept, StopReason::ChainComplete);
                lemma_conclude_sound(kept, StopReason::RateLimited);
                match result.thread {
                    Some(t) => {
                        let ix = exec_ix(s.deployment, t@, s.addresses);
                        let grown = kept.extended(ix);
                        lemma_built_instructions_sign_alone(s.deployment, t@, s.addresses);
                        lemma_sole_signer_push(s.draft, ix, public_key(s.secret));
                        lemma_conclude_sound(grown, StopReason::SizeCeiling);
                    },
                    None => {},
                }
            }
        },
        _ => {},
    }
}

/// Ceiling respect: whatever the simulator answers, and however often, a
/// transaction that an attempt returns is within the size ceiling and asks
/// for no more units than a transaction may.
pub proof fn lemma_ceilings_respected(turn: Turn, responses: Seq<SimulationResponse>)
    requires
        sound(turn),
    ensures
        sound(play(turn, responses)),
    decreases responses.len(),
{
    if responses.len() > 0 {
        match turn {
            Turn::Simulate(s, _) => {
                lemma_react_sound(s, responses[0]);
                lemma_ceilings_respected(s.react(responses[0]), responses.drop_first());
            },
            _ => {},
        }
    }
}

/// Rate-limit respect, and more: the draft grows only by one exec, built
/// from the thread as an accepted dry run left it, and only while that
/// thread has an instruction pending and has seen fewer executions in its
/// slot than its rate limit admits. The draft that was accepted becomes the
/// accepted list.
pub proof fn lemma_growth_is_earned(s: PackerView, response: SimulationResponse)
    ensures
        match s.react(response) {
            Turn::Simulate(next, _) => {
                &&& response matches SimulationResponse::Completed(result)
                &&& result.err is None
                &&& result.thread matches Some(t)
                &&& t@.next_instruction is Some
                &&& t.exec_context.execs_since_slot < t.exec_context.rate_limit
                &&& next.draft == s.draft.push(exec_ix(s.deployment, t@, s.addresses))
                &&& next.confirmed == s.draft
                &&& next.units == result.units_consumed
                &&& next == s.accepted(result.units_consumed).extended(
                    exec_ix(s.deployment, t@, s.addresses),
                )
            },
            _ => true,
        },
{
}

/// Rate-limit respect: where the thread, as the dry run left it, has seen as
/// many executions in its slot as its rate limit admits, or more, no draft
/// is proposed any more.
pub proof fn lemma_rate_limit_respected(s: PackerView, response: SimulationResponse)
    requires
        response matches SimulationResponse::Completed(result) && (result.thread matches Some(t)
            && t.exec_context.execs_since_slot >= t.exec_context.rate_limit),
    ensures
        !(s.react(response) is Simulate),
{
}

/// Whether the `k`-th answer accepted the draft then proposed, and `list` is
/// that draft with its budget fitted to the units then measured.
pub open spec fn accepted_at(
    turn: Turn,
    responses: Seq<SimulationResponse>,
    k: int,
    list: Seq<InstructionView>,
) -> bool {
    &&& 0 <= k < responses.len()
    &&& play(turn, responses.take(k)) matches Turn::Simulate(at, _) && list == budgeted(
        at.draft,
        responses[k].units(),
    )
    &&& responses[k].succeeded()
}

/// Playing one answer more from the front.
proof fn lemma_play_step(
    s: PackerView,
    message: Seq<u8>,
    responses: Seq<SimulationResponse>,
    k: int,
)
    requires
        0 <= k < responses.len(),
    ensures
        play(Turn::Simulate(s, message), responses.take(k + 1)) == play(
            s.react(responses[0]),
            responses.drop_first().take(k),
        ),
{
    assert(responses.take(k + 1).drop_first() =~= responses.drop_first().take(k));
    assert(responses.take(k + 1)[0] == responses[0]);
}

/// The instructions that an attempt returns are those of a draft that the
/// simulator accepted, with the budget fitted to the units it measured then;
/// or, where no later draft was accepted, the list that the attempt had
/// accepted before.
pub proof fn lemma_result_was_accepted_from(
    s: PackerView,
    message: Seq<u8>,
    responses: Seq<SimulationResponse>,
)
    ensures
        match play(Turn::Simulate(s, message), responses) {
            Turn::Finished(Some(found), _) => (s.confirmed.len() > 0 && found.1 == budgeted(
                s.confirmed,
                s.units,
            )) || exists|k: int| accepted_at(Turn::Simulate(s, message), responses, k, found.1),
            _ => true,
        },
    decreases responses.len(),
{
    let start = Turn::Simulate(s, message);
    if responses.len() > 0 {
        let first = responses[0];
        let rest = responses.drop_first();
        let turn = s.react(first);
        assert(play(start, responses.take(0)) == start);
        match play(start, responses) {
            Turn::Finished(Some(found), _) => {
                match turn {
                    Turn::Simulate(next, m) => {
                        lemma_growth_is_earned(s, first);
                        lemma_result_was_accepted_from(next, m, rest);
                        if next.confirmed.len() > 0 && found.1 == budgeted(
                            next.confirmed,
                            next.units,
                        ) {
                            assert(accepted_at(start, responses, 0, found.1));
                        } else {
                            let k = choose|k: int| accepted_at(turn, rest, k, found.1);
                            lemma_play_step(s, message, responses, k);
                            assert(responses[k + 1] == rest[k]);
                            assert(accepted_at(start, responses, k + 1, found.1));
                        }
                    },
                    Turn::Finished(_, _) => {
                        assert(play(turn, rest) == turn);
                        if !(s.confirmed.len() > 0 && found.1 == budgeted(s.confirmed, s.units)) {
                            assert(accepted_at(start, responses, 0, found.1));
                        }
                    },
                    Turn::Failed(_) => {
                        assert(play(turn, rest) == turn);
                    },
                }
            },
            _ => {},
        }
    }
}

/// Monotonic safety: the instructions that a fresh attempt returns are those
/// of a draft that the simulator accepted, with the budget fitted to the
/// units it measured then.
pub proof fn lemma_result_was_accepted(
    s: PackerView,
    message: Seq<u8>,
    responses: Seq<SimulationResponse>,
)
    requires
        s.confirmed.len() == 0,
    ensures
        match play(Turn::Simulate(s, message), responses) {
            Turn::Finished(Some(found), _) => exists|k: int|
                accepted_at(Turn::Simulate(s, message), responses, k, found.1),
            _ => true,
        },
{
    lemma_result_was_accepted_from(s, message, responses);
}

/// Monotonic safety: every draft that an attempt proposes begins with the
/// draft it proposed before, and the list it has accepted is a draft it
/// proposed.
pub proof fn lemma_drafts_only_grow(
    s: PackerView,
    message: Seq<u8>,
    responses: Seq<SimulationResponse>,
)
    ensures
        match play(Turn::Simulate(s, message), responses) {
            Turn::Simulate(at, _) => s.draft.is_prefix_of(at.draft) && (responses.len() > 0
                ==> at.confirmed.is_prefix_of(at.draft) && at.confirmed.len() + 1
                == at.draft.len()),
            _ => true,
        },
    decreases responses.len(),
{
    if responses.len() > 0 {
        let rest = responses.drop_first();
        let turn = s.react(responses[0]);
        match turn {
            Turn::Simulate(next, m) => {
                lemma_growth_is_earned(s, responses[0]);
                lemma_drafts_only_grow(next, m, rest);
                assert(s.draft.is_prefix_of(next.draft));
                assert(next.confirmed.is_prefix_of(next.draft));
                if rest.len() == 0 {
                    assert(play(turn, rest) == turn);
                } else {
                    match play(turn, rest) {
                        Turn::Simulate(at, _) => {
                            assert(s.draft.is_prefix_of(at.draft));
                        },
                        _ => {},
                    }
                }
            },
            _ => {
                assert(play(turn, rest) == turn);
            },
        }
    } else {
        assert(s.draft.is_prefix_of(s.draft));
    }
}

/// Every answer that leaves an attempt going has made its draft one
/// instruction longer, and a draft that is proposed fits the wire format.
pub proof fn lemma_draft_grows_by_one(
    s: PackerView,
    message: Seq<u8>,
    responses: Seq<SimulationResponse>,
)
    ensures
        match play(Turn::Simulate(s, message), responses) {
            Turn::Simulate(at, _) => at.draft.len() == s.draft.len() + responses.len() && (
            responses.len() > 0 ==> at.draft.len() <= MAX_ENCODED_LEN),
            _ => true,
        },
    decreases responses.len(),
{
    if responses.len() > 0 {
        let rest = responses.drop_first();
        let turn = s.react(responses[0]);
        match turn {
            Turn::Simulate(next, m) => {
                lemma_growth_is_earned(s, responses[0]);
                lemma_draft_grows_by_one(next, m, rest);
                if rest.len() == 0 {
                    assert(play(turn, rest) == turn);
                }
            },
            _ => {
                assert(play(turn, rest) == turn);
            },
        }
    }
}

/// Every attempt ends: no attempt is still going after more answers than
/// the wire format has room for instructions.
pub proof fn lemma_attempt_ends(
    s: PackerView,
    message: Seq<u8>,
    responses: Seq<SimulationResponse>,
)
    requires
        responses.len() > MAX_ENCODED_LEN,
    ensures
        !(play(Turn::Simulate(s, message), responses) is Simulate),
{
    lemma_draft_grows_by_one(s, message, responses);
}

} // verus!
