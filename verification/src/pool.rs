//! A pool: the bounded list of workers that currently serve.

use vstd::prelude::*;
use crate::address::{found_is, pool_address, pool_pubkey};
use crate::keys::Pubkey;

verus! {

/// The size of a pool that has just been set up.
pub const DEFAULT_POOL_SIZE: u64 = 1;

/// A pool of workers. `workers` lists them oldest first.
#[derive(Debug)]
pub struct Pool {
    pub id: u64,
    pub size: u64,
    pub workers: Vec<Pubkey>,
}

/// The settings of a pool that its admin may change.
#[derive(Clone, Copy, Debug)]
pub struct PoolSettings {
    pub size: u64,
}

/// The first `limit` items of `workers`, or all of them where there are
/// fewer.
pub open spec fn drained(workers: Seq<Pubkey>, limit: u64) -> Seq<Pubkey> {
    if limit < workers.len() {
        workers.take(limit as int)
    } else {
        workers
    }
}

impl Pool {
    /// Derives the address of the pool numbered `id` under the network
    /// program; `None` where the seeds admit no address.
    pub fn pubkey(network_program: &Pubkey, id: u64) -> (found: Option<Pubkey>)
        ensures
            found_is(found, pool_address(*network_program, id)),
    {
        pool_pubkey(network_program, id)
    }

    fn drain(&mut self, limit: u64)
        ensures
            final(self).id == old(self).id,
            final(self).size == old(self).size,
            final(self).workers@ == drained(old(self).workers@, limit),
    {
        if limit < self.workers.len() as u64 {
            self.workers.truncate(limit as usize);
        }
    }
}

/// What can be done to the account that holds a pool.
pub trait PoolAccount {
    /// The pool that the account holds.
    spec fn pool(&self) -> Pool;

    /// Derives the address of the account.
    fn pubkey(&self, network_program: &Pubkey) -> (found: Option<Pubkey>)
        ensures
            found_is(found, pool_address(*network_program, self.pool().id));

    /// Sets the pool up: the given number, the default size, no workers.
    fn init(&mut self, id: u64)
        ensures
            final(self).pool().id == id,
            final(self).pool().size == DEFAULT_POOL_SIZE,
            final(self).pool().workers@ == Seq::<Pubkey>::empty();

    /// Admits `worker` behind the others, then drops from the end whoever
    /// stands beyond the pool's size.
    fn rotate(&mut self, worker: Pubkey)
        ensures
            final(self).pool().id == old(self).pool().id,
            final(self).pool().size == old(self).pool().size,
            final(self).pool().workers@ == drained(
                old(self).pool().workers@.push(worker),
                old(self).pool().size,
            );

    /// Takes the new size, then drops from the end whoever stands beyond it.
    fn update(&mut self, settings: &PoolSettings)
        ensures
            final(self).pool().id == old(self).pool().id,
            final(self).pool().size == settings.size,
            final(self).pool().workers@ == drained(old(self).pool().workers@, settings.size);
}

impl PoolAccount for Pool {
    open spec fn pool(&self) -> Pool {
        *self
    }

    fn pubkey(&self, network_program: &Pubkey) -> (found: Option<Pubkey>) {
        Pool::pubkey(network_program, self.id)
    }

    fn init(&mut self, id: u64) {
        self.id = id;
        self.size = DEFAULT_POOL_SIZE;
        self.workers = Vec::new();
    }

    fn rotate(&mut self, worker: Pubkey) {
        let old_size = self.size;
        self.workers.push(worker);
        self.drain(old_size);
    }

    fn update(&mut self, settings: &PoolSettings) {
        let new_size = settings.size;
        self.size = new_size;
        self.drain(new_size);
    }
}

} // verus!
