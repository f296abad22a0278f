//! Running an attempt against answers that are known in advance.

use vstd::prelude::*;
use crate::error::PackError;
use crate::factory::{Addresses, Deployment};
use crate::keys::{Blockhash, Pubkey, SecretKey};
use crate::laws::{lemma_growth_is_earned, lemma_play_ended, lemma_play_last, play};
use crate::packer::{
    addresses_of, agrees, fresh, progress_respects_ceilings, Packer, Progress, Turn,
};
use crate::simulation::SimulationResponse;
use crate::thread::Thread;

verus! {

/// Begins an attempt for `thread` and plays `responses` to it, one for each
/// draft it proposes, until the attempt ends or the answers run out. Where
/// they run out first, the result holds the packer and the draft that waits
/// for an answer.
#[verifier::loop_isolation(false)]
pub fn pack_with_responses(
    deployment: Deployment,
    payer: SecretKey,
    slot: u64,
    thread: &Thread,
    thread_pubkey: Pubkey,
    worker_id: u64,
    blockhash: Blockhash,
    responses: &Vec<SimulationResponse>,
) -> (result: Result<Progress, PackError>)
    ensures
        !Addresses::resolvable(deployment, worker_id) ==> (result matches Err(e) && e
            == PackError::NoAddress),
        Addresses::resolvable(deployment, worker_id) ==> agrees(
            result,
            play(
                fresh(
                    deployment,
                    addresses_of(deployment, payer@, thread_pubkey, worker_id),
                    payer@,
                    blockhash@,
                    slot,
                    thread@,
                ).propose(),
                responses@,
            ),
            payer@,
        ),
        progress_respects_ceilings(result),
{
    let ghost first = fresh(
        deployment,
        addresses_of(deployment, payer@, thread_pubkey, worker_id),
        payer@,
        blockhash@,
        slot,
        thread@,
    ).propose();
    let mut current = match Packer::start(
        deployment,
        payer,
        slot,
        thread,
        thread_pubkey,
        worker_id,
        blockhash,
    ) {
        Ok(progress) => progress,
        Err(e) => {
            proof {
                if Addresses::resolvable(deployment, worker_id) {
                    lemma_play_ended(first, responses@, 0);
                }
            }
            return Err(e);
        },
    };
    assert(responses@.take(0) =~= Seq::<SimulationResponse>::empty());
    let mut i: usize = 0;
    while i < responses.len()
        invariant
            i <= responses.len(),
            Addresses::resolvable(deployment, worker_id),
            agrees(Ok(current), play(first, responses@.take(i as int)), payer@),
            play(first, responses@.take(i as int)) matches Turn::Simulate(s, _) ==> s.secret
                == payer@,
            progress_respects_ceilings(Ok(current)),
        decreases responses.len() - i,
    {
        let ghost before = play(first, responses@.take(i as int));
        proof {
            assert(responses@.take(i + 1) =~= responses@.take(i as int).push(responses@[i as int]));
            lemma_play_last(first, responses@.take(i as int), responses@[i as int]);
        }
        match current {
            Progress::Finished(outcome) => {
                proof {
                    lemma_play_ended(first, responses@, i as int);
                }
                return Ok(Progress::Finished(outcome));
            },
            Progress::Simulate { packer, request } => {
                proof {
                    lemma_growth_is_earned(packer@, responses@[i as int]);
                }
                match packer.advance(&responses[i]) {
                    Ok(next) => {
                        current = next;
                    },
                    Err(e) => {
                        proof {
                            lemma_play_ended(first, responses@, i + 1);
                        }
                        return Err(e);
                    },
                }
            },
        }
        i += 1;
    }
    assert(responses@.take(i as int) =~= responses@);
    Ok(current)
}

} // verus!
