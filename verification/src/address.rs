//! Addresses that a program derives from seeds.

use vstd::prelude::*;
use crate::encoding::{put_u64_be, u64_be_bytes};
use crate::keys::Pubkey;

verus! {

/// The address that `program` derives from `seeds`, or `None` where the
/// seeds admit no address.
pub uninterp spec fn program_address(seeds: Seq<Seq<u8>>, program: Seq<u8>) -> Option<Seq<u8>>;

/// The byte sequences of a list of seeds, in order.
pub open spec fn seed_views(seeds: Seq<Vec<u8>>) -> Seq<Seq<u8>> {
    seeds.map_values(|seed: Vec<u8>| seed@)
}

/// Calls `solana_program::pubkey::Pubkey::try_find_program_address`, which
/// hashes the seeds, a bump byte and the program's address, and lowers the
/// bump from 255 until the hash is no point of the curve. Nothing is proved
/// of it: the contract names its result, which the seeds and the program
/// alone determine, and says that the bump is left out.
#[verifier::external_body]
fn try_find_program_address(seeds: &Vec<Vec<u8>>, program: &Pubkey) -> (found: Option<Pubkey>)
    ensures
        match found {
            Some(key) => program_address(seed_views(seeds@), program@) == Some(key@),
            None => program_address(seed_views(seeds@), program@) is None,
        },
{
    let seeds: Vec<&[u8]> = seeds.iter().map(|seed| seed.as_slice()).collect();
    let program = solana_program::pubkey::Pubkey::from(program.bytes);
    solana_program::pubkey::Pubkey::try_find_program_address(&seeds, &program).map(
        |(key, _)| Pubkey { bytes: key.to_bytes() },
    )
}

/// The seed that marks a pool's address: the letters of `pool`.
pub open spec fn seed_pool() -> Seq<u8> {
    seq![0x70u8, 0x6f, 0x6f, 0x6c]
}

/// The seed that marks a worker's address: the letters of `worker`.
pub open spec fn seed_worker() -> Seq<u8> {
    seq![0x77u8, 0x6f, 0x72, 0x6b, 0x65, 0x72]
}

/// The seed that marks a worker's commission account: the letters of
/// `worker_commission`.
pub open spec fn seed_worker_commission() -> Seq<u8> {
    seq![
        0x77u8, 0x6f, 0x72, 0x6b, 0x65, 0x72, 0x5f, 0x63, 0x6f, 0x6d, 0x6d, 0x69, 0x73, 0x73,
        0x69, 0x6f, 0x6e,
    ]
}

/// The address of the pool numbered `id` under the network program.
pub open spec fn pool_address(network_program: Pubkey, id: u64) -> Option<Seq<u8>> {
    program_address(seq![seed_pool(), u64_be_bytes(id)], network_program@)
}

/// The address of the worker numbered `id` under the network program.
pub open spec fn worker_address(network_program: Pubkey, id: u64) -> Option<Seq<u8>> {
    program_address(seq![seed_worker(), u64_be_bytes(id)], network_program@)
}

/// The address of the commission account of `worker` under the network
/// program.
pub open spec fn commission_address(network_program: Pubkey, worker: Pubkey) -> Option<Seq<u8>> {
    program_address(seq![seed_worker_commission(), worker@], network_program@)
}

/// Whether `found` is the address that `derived` names, or nothing where it
/// names none.
pub open spec fn found_is(found: Option<Pubkey>, derived: Option<Seq<u8>>) -> bool {
    match found {
        Some(key) => derived == Some(key@),
        None => derived is None,
    }
}

fn numbered_address(tag: Vec<u8>, id: u64, program: &Pubkey) -> (found: Option<Pubkey>)
    ensures
        found_is(found, program_address(seq![tag@, u64_be_bytes(id)], program@)),
{
    let mut number: Vec<u8> = Vec::new();
    put_u64_be(&mut number, id);
    assert(number@ =~= u64_be_bytes(id));
    let mut seeds: Vec<Vec<u8>> = Vec::new();
    seeds.push(tag);
    seeds.push(number);
    assert(seed_views(seeds@) =~= seq![tag@, u64_be_bytes(id)]);
    try_find_program_address(&seeds, program)
}

/// Derives the address of the pool numbered `id`.
pub fn pool_pubkey(network_program: &Pubkey, id: u64) -> (found: Option<Pubkey>)
    ensures
        found_is(found, pool_address(*network_program, id)),
{
    let tag: Vec<u8> = vec![0x70u8, 0x6f, 0x6f, 0x6c];
    assert(tag@ =~= seed_pool());
    numbered_address(tag, id, network_program)
}

/// Derives the address of the worker numbered `id`.
pub fn worker_pubkey(network_program: &Pubkey, id: u64) -> (found: Option<Pubkey>)
    ensures
        found_is(found, worker_address(*network_program, id)),
{
    let tag: Vec<u8> = vec![0x77u8, 0x6f, 0x72, 0x6b, 0x65, 0x72];
    assert(tag@ =~= seed_worker());
    numbered_address(tag, id, network_program)
}

/// Derives the address of the commission account of `worker`.
pub fn commission_pubkey(network_program: &Pubkey, worker: &Pubkey) -> (found: Option<Pubkey>)
    ensures
        found_is(found, commission_address(*network_program, *worker)),
{
    let tag: Vec<u8> = vec![
        0x77u8, 0x6f, 0x72, 0x6b, 0x65, 0x72, 0x5f, 0x63, 0x6f, 0x6d, 0x6d, 0x69, 0x73, 0x73,
        0x69, 0x6f, 0x6e,
    ];
    assert(tag@ =~= seed_worker_commission());
    let mut owner: Vec<u8> = Vec::new();
    let mut i: usize = 0;
    while i < 32
        invariant
            i <= 32,
            owner@.len() == i,
            forall|j: int| 0 <= j < i ==> owner@[j] == worker.bytes[j],
        decreases 32 - i,
    {
        owner.push(worker.bytes[i]);
        i += 1;
    }
    assert(owner@ =~= worker@);
    let mut seeds: Vec<Vec<u8>> = Vec::new();
    seeds.push(tag);
    seeds.push(owner);
    assert(seed_views(seeds@) =~= seq![seed_worker_commission(), worker@]);
    try_find_program_address(&seeds, network_program)
}

} // verus!
