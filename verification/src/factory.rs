//! Building the instruction that takes a thread one step further.
//!
//! A thread with nothing pending is started by a kickoff; a thread in the
//! middle of its chain is continued by an exec, which brings along
//! everything the pending instruction touches.

use vstd::prelude::*;
use crate::address::{
    commission_address, commission_pubkey, pool_address, pool_pubkey, worker_address,
    worker_pubkey,
};
use crate::instruction::{AccountMeta, Instruction, InstructionView};
use crate::keys::Pubkey;
use crate::thread::{Thread, ThreadView};

verus! {

/// The number of the pool whose workers execute threads.
pub const POOL_ID: u64 = 0;

/// The programs of one deployment, and the address that stands for "whoever
/// pays" inside a thread's instructions.
#[derive(Clone, Copy, Debug, PartialEq, Eq)]
pub struct Deployment {
    pub thread_program: Pubkey,
    pub network_program: Pubkey,
    pub payer_sentinel: Pubkey,
}

/// The accounts that every instruction of one packing attempt refers to.
#[derive(Clone, Copy, Debug, PartialEq, Eq)]
pub struct Addresses {
    pub signatory: Pubkey,
    pub thread: Pubkey,
    pub worker: Pubkey,
    pub commission: Pubkey,
    pub pool: Pubkey,
}

impl Addresses {
    /// Whether the commission account is the one derived from the worker, and
    /// the pool is the executing pool.
    pub open spec fn derived_under(self, deployment: Deployment) -> bool {
        &&& commission_address(deployment.network_program, self.worker) == Some(self.commission@)
        &&& pool_address(deployment.network_program, POOL_ID) == Some(self.pool@)
    }

    /// Whether `resolve` finds all three derived addresses.
    pub open spec fn resolvable(deployment: Deployment, worker_id: u64) -> bool {
        &&& worker_address(deployment.network_program, worker_id) is Some
        &&& pool_address(deployment.network_program, POOL_ID) is Some
        &&& exists|worker: Pubkey|
            worker_address(deployment.network_program, worker_id) == Some(worker@)
                && commission_address(deployment.network_program, worker) is Some
    }

    /// Derives the worker's address from its number, and from it the
    /// commission account; derives the executing pool. `None` exactly where
    /// one of the three has no address.
    pub fn resolve(
        deployment: &Deployment,
        signatory: Pubkey,
        thread: Pubkey,
        worker_id: u64,
    ) -> (found: Option<Addresses>)
        ensures
            found is Some <==> Addresses::resolvable(*deployment, worker_id),
            found matches Some(a) ==> {
                &&& a.signatory == signatory
                &&& a.thread == thread
                &&& worker_address(deployment.network_program, worker_id) == Some(a.worker@)
                &&& a.derived_under(*deployment)
            },
    {
        let worker = match worker_pubkey(&deployment.network_program, worker_id) {
            Some(key) => key,
            None => {
                return None;
            },
        };
        assert forall|other: Pubkey|
            worker_address(deployment.network_program, worker_id) == Some(
                other@,
            ) implies other == worker by {
            assert(other.bytes =~= worker.bytes);
        }
        let commission = match commission_pubkey(&deployment.network_program, &worker) {
            Some(key) => key,
            None => {
                return None;
            },
        };
        let pool = match pool_pubkey(&deployment.network_program, POOL_ID) {
            Some(key) => key,
            None => {
                return None;
            },
        };
        Some(Addresses { signatory, thread, worker, commission, pool })
    }
}

/// The input of a kickoff: the eight bytes that name it to the thread
/// program, the head of the SHA-256 hash of `global:thread_kickoff`.
pub open spec fn kickoff_data() -> Seq<u8> {
    seq![0x22u8, 0x50, 0x05, 0x80, 0xc5, 0xbb, 0x0e, 0x14]
}

/// The input of an exec: the eight bytes that name it to the thread program,
/// the head of the SHA-256 hash of `global:thread_exec`.
pub open spec fn exec_data() -> Seq<u8> {
    seq![0x8du8, 0x4f, 0xdb, 0x8c, 0x7d, 0xf6, 0xa2, 0xa0]
}

/// The three accounts of every kickoff: the signer, who pays; the thread,
/// which changes; the worker.
pub open spec fn kickoff_base(a: Addresses) -> Seq<AccountMeta> {
    seq![
        AccountMeta { pubkey: a.signatory, is_signer: true, is_writable: true },
        AccountMeta { pubkey: a.thread, is_signer: false, is_writable: true },
        AccountMeta { pubkey: a.worker, is_signer: false, is_writable: false },
    ]
}

/// The kickoff of a thread: the base accounts, and behind them, read-only,
/// the account that the thread's condition watches, where it watches one.
pub open spec fn kickoff_ix(d: Deployment, thread: ThreadView, a: Addresses) -> InstructionView {
    InstructionView {
        program_id: d.thread_program,
        accounts: match thread.trigger.watched() {
            Some(account) => kickoff_base(a).push(
                AccountMeta { pubkey: account, is_signer: false, is_writable: false },
            ),
            None => kickoff_base(a),
        },
        data: kickoff_data(),
    }
}

/// The five accounts of every exec: the worker's commission account, which
/// changes; the executing pool; the signer, who pays; the thread, which
/// changes; the worker.
pub open spec fn exec_base(a: Addresses) -> Seq<AccountMeta> {
    seq![
        AccountMeta { pubkey: a.commission, is_signer: false, is_writable: true },
        AccountMeta { pubkey: a.pool, is_signer: false, is_writable: false },
        AccountMeta { pubkey: a.signatory, is_signer: true, is_writable: true },
        AccountMeta { pubkey: a.thread, is_signer: false, is_writable: true },
        AccountMeta { pubkey: a.worker, is_signer: false, is_writable: false },
    ]
}

/// The address that stands in for `key`: the signer's where `key` is the
/// sentinel, `key` itself elsewhere.
pub open spec fn payer_resolved(d: Deployment, signatory: Pubkey, key: Pubkey) -> Pubkey {
    if key == d.payer_sentinel {
        signatory
    } else {
        key
    }
}

/// An account of the pending instruction as the exec brings it along: the
/// sentinel resolved, writable as it was, never a signer.
pub open spec fn carried(d: Deployment, signatory: Pubkey, meta: AccountMeta) -> AccountMeta {
    AccountMeta {
        pubkey: payer_resolved(d, signatory, meta.pubkey),
        is_signer: false,
        is_writable: meta.is_writable,
    }
}

/// The accounts that an exec appends for the pending instruction: its
/// program, read-only, then its accounts in their order.
pub open spec fn exec_tail(d: Deployment, signatory: Pubkey, pending: InstructionView) -> Seq<
    AccountMeta,
> {
    seq![AccountMeta { pubkey: pending.program_id, is_signer: false, is_writable: false }]
        + pending.accounts.map_values(|meta: AccountMeta| carried(d, signatory, meta))
}

/// The exec of a thread: the base accounts, and behind them what the pending
/// instruction needs.
pub open spec fn exec_ix(d: Deployment, thread: ThreadView, a: Addresses) -> InstructionView {
    InstructionView {
        program_id: d.thread_program,
        accounts: match thread.next_instruction {
            Some(pending) => exec_base(a) + exec_tail(d, a.signatory, pending),
            None => exec_base(a),
        },
        data: exec_data(),
    }
}

/// The instruction that takes the thread one step further: an exec while an
/// instruction is pending, a kickoff otherwise.
pub open spec fn next_ix(d: Deployment, thread: ThreadView, a: Addresses) -> InstructionView {
    if thread.next_instruction is Some {
        exec_ix(d, thread, a)
    } else {
        kickoff_ix(d, thread, a)
    }
}

/// Resolves the sentinel: the signer's address where `key` is the sentinel,
/// `key` itself elsewhere.
pub fn resolve_payer(deployment: &Deployment, signatory: Pubkey, key: Pubkey) -> (resolved: Pubkey)
    ensures
        resolved == payer_resolved(*deployment, signatory, key),
{
    if key.same(&deployment.payer_sentinel) {
        signatory
    } else {
        key
    }
}

/// Builds the kickoff of `thread`.
pub fn build_kickoff_ix(deployment: &Deployment, thread: &Thread, addresses: &Addresses) -> (ix:
    Instruction)
    ensures
        ix@ == kickoff_ix(*deployment, thread@, *addresses),
        ix@.program_id == deployment.thread_program,
        ix@.accounts.take(3) == kickoff_base(*addresses),
        match thread.trigger.watched() {
            Some(account) => ix@.accounts.len() == 4 && ix@.accounts[3] == (AccountMeta {
                pubkey: account,
                is_signer: false,
                is_writable: false,
            }),
            None => ix@.accounts.len() == 3,
        },
{
    let mut accounts: Vec<AccountMeta> = Vec::new();
    accounts.push(AccountMeta::new(addresses.signatory, true));
    accounts.push(AccountMeta::new(addresses.thread, false));
    accounts.push(AccountMeta::new_readonly(addresses.worker, false));
    assert(accounts@ =~= kickoff_base(*addresses));
    match thread.trigger.watched_account() {
        Some(account) => {
            accounts.push(AccountMeta::new_readonly(account, false));
        },
        None => {},
    }
    let data: Vec<u8> = vec![0x22u8, 0x50, 0x05, 0x80, 0xc5, 0xbb, 0x0e, 0x14];
    assert(data@ =~= kickoff_data());
    assert(accounts@.take(3) =~= kickoff_base(*addresses));
    Instruction { program_id: deployment.thread_program, accounts, data }
}

/// Builds the exec of `thread`.
pub fn build_exec_ix(deployment: &Deployment, thread: &Thread, addresses: &Addresses) -> (ix:
    Instruction)
    ensures
        ix@ == exec_ix(*deployment, thread@, *addresses),
        ix@.program_id == deployment.thread_program,
        ix@.accounts.take(5) == exec_base(*addresses),
        match thread@.next_instruction {
            Some(pending) => {
                &&& ix@.accounts.len() == 5 + 1 + pending.accounts.len()
                &&& ix@.accounts[5] == (AccountMeta {
                    pubkey: pending.program_id,
                    is_signer: false,
                    is_writable: false,
                })
                &&& forall|i: int|
                    0 <= i < pending.accounts.len() ==> #[trigger] ix@.accounts[6 + i] == carried(
                        *deployment,
                        addresses.signatory,
                        pending.accounts[i],
                    )
                &&& forall|i: int|
                    0 <= i < pending.accounts.len() && pending.accounts[i].pubkey
                        == deployment.payer_sentinel ==> (#[trigger] ix@.accounts[6 + i]).pubkey
                        == addresses.signatory
            },
            None => ix@.accounts.len() == 5,
        },
{
    let mut accounts: Vec<AccountMeta> = Vec::new();
    accounts.push(AccountMeta::new(addresses.commission, false));
    accounts.push(AccountMeta::new_readonly(addresses.pool, false));
    accounts.push(AccountMeta::new(addresses.signatory, true));
    accounts.push(AccountMeta::new(addresses.thread, false));
    accounts.push(AccountMeta::new_readonly(addresses.worker, false));
    assert(accounts@ =~= exec_base(*addresses));
    match &thread.next_instruction {
        Some(pending) => {
            accounts.push(AccountMeta::new_readonly(pending.program_id, false));
            let mut i: usize = 0;
            while i < pending.accounts.len()
                invariant
                    i <= pending.accounts.len(),
                    accounts@.len() == 6 + i,
                    accounts@.take(6) == exec_base(*addresses).push(
                        AccountMeta {
                            pubkey: pending.program_id,
                            is_signer: false,
                            is_writable: false,
                        },
                    ),
                    forall|j: int|
                        0 <= j < i ==> #[trigger] accounts@[6 + j] == carried(
                            *deployment,
                            addresses.signatory,
                            pending.accounts@[j],
                        ),
                decreases pending.accounts.len() - i,
            {
                let meta = pending.accounts[i];
                let key = resolve_payer(deployment, addresses.signatory, meta.pubkey);
                let ghost before = accounts@;
                if meta.is_writable {
                    accounts.push(AccountMeta::new(key, false));
                } else {
                    accounts.push(AccountMeta::new_readonly(key, false));
                }
                assert(accounts@.take(6) =~= before.take(6));
                assert forall|j: int| 0 <= j < i + 1 implies #[trigger] accounts@[6 + j]
                    == carried(*deployment, addresses.signatory, pending.accounts@[j]) by {
                    if j < i {
                        assert(accounts@[6 + j] == before[6 + j]);
                    }
                }
                i += 1;
            }
            assert(accounts@ =~= exec_base(*addresses) + exec_tail(
                *deployment,
                addresses.signatory,
                pending@,
            )) by {
                let want = exec_base(*addresses) + exec_tail(
                    *deployment,
                    addresses.signatory,
                    pending@,
                );
                assert(want.len() == accounts@.len());
                assert forall|k: int| 0 <= k < accounts@.len() implies accounts@[k] == want[k] by {
                    if k < 6 {
                        assert(accounts@[k] == accounts@.take(6)[k]);
                    } else {
                        assert(accounts@[6 + (k - 6)] == carried(
                            *deployment,
                            addresses.signatory,
                            pending.accounts@[k - 6],
                        ));
                    }
                }
            }
            assert(accounts@.take(5) =~= exec_base(*addresses));
        },
        None => {
            assert(accounts@.take(5) =~= exec_base(*addresses));
        },
    }
    let data: Vec<u8> = vec![0x8du8, 0x4f, 0xdb, 0x8c, 0x7d, 0xf6, 0xa2, 0xa0];
    assert(data@ =~= exec_data());
    Instruction { program_id: deployment.thread_program, accounts, data }
}

/// Builds the instruction that takes `thread` one step further.
pub fn build_instruction(deployment: &Deployment, thread: &Thread, addresses: &Addresses) -> (ix:
    Instruction)
    ensures
        ix@ == next_ix(*deployment, thread@, *addresses),
{
    if thread.has_next_instruction() {
        build_exec_ix(deployment, thread, addresses)
    } else {
        build_kickoff_ix(deployment, thread, addresses)
    }
}

} // verus!
