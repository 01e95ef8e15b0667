//! Scheduling the removal of a wallet from the whitelist: the removal
//! instruction is compiled into a task and queued on the task queue, whose
//! crankers run it.
use vstd::prelude::*;

use anchor_lang::prelude::Pubkey;
use anchor_lang::solana_program::instruction::{AccountMeta, Instruction};

use crate::accounts::{
    check_found_seeds, check_given_bump, created_program_address, spec_check_found_seeds,
    spec_check_given_bump, AccountCheckError, CheckFailure,
};
use crate::instruction::{readonly, writable, writable_signer, AccountMetaData, TxInstruction};
use crate::keys::Key;
use crate::transfer_hook::{
    check_whitelist_accounts, spec_check_whitelist_accounts, spec_transfer_verdict, whitelist_seeds,
    whitelist_seeds_of, with_flag, TransferVerdict, Whitelist, WhitelistError, WhitelistOperations,
};

verus! {

/// An instruction compiled against the transaction's account list: the
/// program and the accounts are positions in that list.
#[derive(Clone, Debug, PartialEq, Eq)]
pub struct CompiledInstruction {
    pub program_id_index: u8,
    pub accounts: Vec<u8>,
    pub data: Vec<u8>,
}

/// A transaction compiled for the task queue. Its account list starts with
/// the writable signers, then the read-only signers, then the writable
/// accounts, then the rest; the three counts say where each group ends.
#[derive(Clone, Debug, PartialEq, Eq)]
pub struct CompiledTransaction {
    pub num_ro_signers: u8,
    pub num_rw_signers: u8,
    pub num_rw: u8,
    pub instructions: Vec<CompiledInstruction>,
    pub accounts: Vec<Key>,
}

/// When a queued task runs.
#[derive(Clone, Copy, Debug, PartialEq, Eq)]
pub enum TaskTrigger {
    Now,
    Timestamp(i64),
}

/// The arguments of a task queued on the task queue.
#[derive(Clone, Debug, PartialEq, Eq)]
pub struct QueueTaskArgs {
    pub trigger: TaskTrigger,
    pub transaction: CompiledTransaction,
    pub crank_reward: Option<u64>,
    pub free_tasks: u8,
    pub id: u16,
    pub description: String,
}

/// The bump seeds found for the accounts of a schedule request.
#[derive(Clone, Copy, Debug, PartialEq, Eq)]
pub struct ScheduleBumps {
    pub queue_authority: u8,
}

/// What a schedule request hands the task queue: the task, and the seeds
/// with which the program's queue authority signs for it.
#[derive(Clone, Debug, PartialEq, Eq)]
pub struct ScheduledRemoval {
    pub args: QueueTaskArgs,
    pub queue_authority_seeds: Vec<Vec<u8>>,
}

/// The accounts of a schedule request, as far as the logic reads them.
#[derive(Clone, Copy, Debug, PartialEq, Eq)]
pub struct Schedule {
    /// The address of this program, which runs the scheduled removal.
    pub program_id: Key,
    pub user: Key,
    pub user_is_signer: bool,
    /// The address of the wallet's whitelist account.
    pub whitelist: Key,
    /// The whitelist account's data.
    pub whitelist_data: Whitelist,
    pub whitelist_is_writable: bool,
    pub user_wallet: Key,
    /// The address of the program's queue authority.
    pub queue_authority: Key,
    pub system_program: Key,
}

/// The instruction selector of the program's `remove_from_whitelist`.
pub const REMOVE_FROM_WHITELIST_DISCRIMINATOR: [u8; 8] = [7, 144, 216, 239, 243, 236, 193, 235];

/// The lamports a cranker earns for running the removal.
pub const REMOVAL_CRANK_REWARD: u64 = 10000006;

/// The free task slots the removal task carries.
pub const REMOVAL_FREE_TASKS: u8 = 1;

/// The bytes of the queue authority's seed, "queue_authority".
pub open spec fn queue_authority_seed() -> Seq<u8> {
    seq![113u8, 117, 101, 117, 101, 95, 97, 117, 116, 104, 111, 114, 105, 116, 121]
}

/// Builds the seeds of the queue authority.
pub fn queue_authority_seeds_of() -> (r: Vec<Vec<u8>>)
    ensures
        r.deep_view() == seq![queue_authority_seed()],
{
    let literal: Vec<u8> = vec![113u8, 117, 101, 117, 101, 95, 97, 117, 116, 104, 111, 114, 105, 116, 121];
    assert(literal.deep_view() =~= queue_authority_seed());
    let r = vec![literal];
    assert(r.deep_view() =~= seq![queue_authority_seed()]);
    r
}

/// The result of the checks on the accounts of a schedule request, in the
/// order they are made: the user must sign; the whitelist account must be at
/// the address its seeds and recorded bump give, then the custom-error
/// constraints, then
/// the queue authority must be at the address found for its seed, whose
/// bump is given back.
pub open spec fn spec_check_schedule(s: Schedule) -> Result<ScheduleBumps, CheckFailure<WhitelistError>> {
    if !s.user_is_signer {
        Err(CheckFailure::Framework(AccountCheckError::AccountNotSigner))
    } else {
        match spec_check_given_bump(
            s.whitelist,
            whitelist_seeds(s.user_wallet),
            s.whitelist_data.bump,
            s.program_id,
        ) {
            Err(e) => Err(CheckFailure::Framework(e)),
            Ok(()) => match spec_check_whitelist_accounts(
                s.whitelist_is_writable,
                s.whitelist_data,
                s.user_wallet,
            ) {
                Err(e) => Err(CheckFailure::Program(e)),
                Ok(()) => match spec_check_found_seeds(
                    s.queue_authority,
                    seq![queue_authority_seed()],
                    s.program_id,
                ) {
                    Err(e) => Err(CheckFailure::Framework(e)),
                    Ok(b) => Ok(ScheduleBumps { queue_authority: b }),
                },
            },
        }
    }
}

/// `k` is the instruction's program or one of its accounts.
pub open spec fn names_key(program_id: Key, metas: Seq<AccountMetaData>, k: Key) -> bool {
    k == program_id || exists|j: int| 0 <= j < metas.len() && #[trigger] metas[j].pubkey == k
}

/// Some use of `k` in the instruction signs.
pub open spec fn signs(metas: Seq<AccountMetaData>, k: Key) -> bool {
    exists|j: int| 0 <= j < metas.len() && #[trigger] metas[j].pubkey == k && metas[j].is_signer
}

/// Some use of `k` in the instruction writes.
pub open spec fn writes(metas: Seq<AccountMetaData>, k: Key) -> bool {
    exists|j: int|
        0 <= j < metas.len() && #[trigger] metas[j].pubkey == k && metas[j].is_writable
}

/// The group of an account: writable signers, read-only signers, writable
/// accounts, the rest.
pub open spec fn group_of(signer: bool, writable: bool) -> int {
    if signer && writable {
        0
    } else if signer {
        1
    } else if writable {
        2
    } else {
        3
    }
}

/// The group that position `i` of the compiled account list belongs to.
pub open spec fn group_at(tx: CompiledTransaction, i: int) -> int {
    if i < tx.num_rw_signers {
        0
    } else if i < tx.num_rw_signers + tx.num_ro_signers {
        1
    } else if i < tx.num_rw_signers + tx.num_ro_signers + tx.num_rw {
        2
    } else {
        3
    }
}

/// `tx` is a compilation of the one instruction to `program_id` with
/// accounts `metas` and data `data`, under no signer seeds: its account list
/// names each of the instruction's keys once and no other, grouped by how
/// the instruction uses it, and the compiled instruction points back at the
/// same program and accounts and carries the same data.
pub open spec fn compiled_from(
    program_id: Key,
    metas: Seq<AccountMetaData>,
    data: Seq<u8>,
    tx: CompiledTransaction,
) -> bool {
    let acc = tx.accounts@;
    &&& forall|i: int, j: int| 0 <= i < j < acc.len() ==> #[trigger] acc[i] != #[trigger] acc[j]
    &&& forall|i: int| 0 <= i < acc.len() ==> names_key(program_id, metas, #[trigger] acc[i])
    &&& forall|k: Key| #[trigger] names_key(program_id, metas, k) ==> acc.contains(k)
    &&& forall|i: int|
        0 <= i < acc.len() ==> group_of(signs(metas, #[trigger] acc[i]), writes(metas, acc[i]))
            == group_at(tx, i)
    &&& tx.num_rw_signers + tx.num_ro_signers + tx.num_rw <= acc.len()
    &&& tx.instructions@.len() == 1
    &&& {
        let ci = tx.instructions@[0];
        &&& ci.program_id_index < acc.len()
        &&& acc[ci.program_id_index as int] == program_id
        &&& ci.accounts@.len() == metas.len()
        &&& forall|j: int|
            0 <= j < metas.len() ==> #[trigger] ci.accounts@[j] < acc.len() && acc[ci.accounts@[j]
                as int] == metas[j].pubkey
        &&& ci.data@ == data
    }
}

/// Compiles one instruction, under no signer seeds, into a task queue
/// transaction with `compile_transaction` of the task queue program's
/// library. The library gathers the instruction's keys in a hash map, merging
/// the signer and writable uses of each, sorts them by group (the order
/// within a group follows the walk of the hash map, so it is left open), and
/// points the compiled instruction at the sorted list; it always returns
/// `Ok`. Its counts are bytes, so the instruction names fewer than 255
/// accounts. The account metas it also returns are dropped.
#[verifier::external_body]
fn compile_transaction(ix: &TxInstruction) -> (r: CompiledTransaction)
    requires
        ix.accounts@.len() < 255,
    ensures
        compiled_from(ix.program_id, ix.accounts@, ix.data@, r),
{
    let accounts = ix.accounts.iter().map(|m| AccountMeta {
        pubkey: Pubkey::from(m.pubkey), is_signer: m.is_signer, is_writable: m.is_writable }).collect();
    let ixs = vec![Instruction { program_id: Pubkey::from(ix.program_id), accounts, data: ix.data.clone() }];
    let (tx, _) = tuktuk_program::compile_transaction(ixs, vec![]).unwrap();
    CompiledTransaction { num_ro_signers: tx.num_ro_signers, num_rw_signers: tx.num_rw_signers, num_rw: tx.num_rw,
        instructions: tx.instructions.into_iter().map(|c| CompiledInstruction {
            program_id_index: c.program_id_index, accounts: c.accounts, data: c.data }).collect(),
        accounts: tx.accounts.iter().map(|k| k.to_bytes()).collect() }
}

impl Schedule {
    /// The accounts of the removal instruction, in the order the program's
    /// whitelist operations take them: the admin (here the user who
    /// schedules), the whitelist, the wallet and the system program.
    pub open spec fn removal_metas(self) -> Seq<AccountMetaData> {
        seq![
            writable_signer(self.user),
            writable(self.whitelist),
            writable(self.user_wallet),
            readonly(self.system_program),
        ]
    }

    /// The data of the removal instruction: its selector, then the wallet.
    pub open spec fn removal_data(self) -> Seq<u8> {
        REMOVE_FROM_WHITELIST_DISCRIMINATOR@ + self.user_wallet@
    }

    /// Checks these accounts as the program's account constraints do, and
    /// gives the bump found for the queue authority.
    pub fn check_constraints(&self) -> (r: Result<ScheduleBumps, CheckFailure<WhitelistError>>)
        ensures
            r == spec_check_schedule(*self),
            r matches Ok(b) ==> created_program_address(
                seq![queue_authority_seed(), seq![b.queue_authority]],
                self.program_id,
            ) == Some(self.queue_authority),
    {
        if !self.user_is_signer {
            return Err(CheckFailure::Framework(AccountCheckError::AccountNotSigner));
        }
        let seeds = whitelist_seeds_of(&self.user_wallet);
        match check_given_bump(&self.whitelist, seeds, self.whitelist_data.bump, &self.program_id) {
            Err(e) => Err(CheckFailure::Framework(e)),
            Ok(()) => match check_whitelist_accounts(
                self.whitelist_is_writable,
                &self.whitelist_data,
                &self.user_wallet,
            ) {
                Err(e) => Err(CheckFailure::Program(e)),
                Ok(()) => {
                    let authority_seeds = queue_authority_seeds_of();
                    assert(forall|b: u8|
                        #[trigger] authority_seeds.deep_view().push(seq![b]) =~= seq![
                            queue_authority_seed(),
                            seq![b],
                        ]);
                    match check_found_seeds(&self.queue_authority, &authority_seeds, &self.program_id) {
                        Err(e) => Err(CheckFailure::Framework(e)),
                        Ok(b) => Ok(ScheduleBumps { queue_authority: b }),
                    }
                },
            },
        }
    }

    /// The instruction that removes the wallet from the whitelist.
    pub fn removal_instruction(&self) -> (r: TxInstruction)
        ensures
            r.program_id == self.program_id,
            r.accounts@ == self.removal_metas(),
            r.data@ == self.removal_data(),
    {
        let accounts = vec![
            AccountMetaData { pubkey: self.user, is_signer: true, is_writable: true },
            AccountMetaData { pubkey: self.whitelist, is_signer: false, is_writable: true },
            AccountMetaData { pubkey: self.user_wallet, is_signer: false, is_writable: true },
            AccountMetaData { pubkey: self.system_program, is_signer: false, is_writable: false },
        ];
        let mut data: Vec<u8> = Vec::new();
        let mut i: usize = 0;
        while i < 8
            invariant
                0 <= i <= 8,
                data@ == REMOVE_FROM_WHITELIST_DISCRIMINATOR@.subrange(0, i as int),
            decreases 8 - i,
        {
            data.push(REMOVE_FROM_WHITELIST_DISCRIMINATOR[i]);
            i = i + 1;
        }
        let mut j: usize = 0;
        while j < 32
            invariant
                0 <= j <= 32,
                data@ == REMOVE_FROM_WHITELIST_DISCRIMINATOR@ + self.user_wallet@.subrange(
                    0,
                    j as int,
                ),
            decreases 32 - j,
        {
            data.push(self.user_wallet[j]);
            j = j + 1;
        }
        assert(self.user_wallet@.subrange(0, 32) =~= self.user_wallet@);
        assert(accounts@ =~= self.removal_metas());
        TxInstruction { program_id: self.program_id, accounts, data }
    }

    /// Builds the task that removes the wallet from the whitelist: the
    /// removal instruction compiled for the task queue, made into the task
    /// described by `removal_task`.
    pub fn schedule(&self, task_id: u16, bumps: ScheduleBumps) -> (r: ScheduledRemoval)
        ensures
            compiled_from(
                self.program_id,
                self.removal_metas(),
                self.removal_data(),
                r.args.transaction,
            ),
            is_removal_task(r, task_id, bumps),
    {
        let ix = self.removal_instruction();
        let compiled_tx = compile_transaction(&ix);
        removal_task(compiled_tx, task_id, bumps)
    }
}

/// `r` queues `transaction` as the removal task: to run at once, with the
/// crank reward, one free task slot, the id given and the description
/// "solver crank", signed for by the queue authority with its seed and bump.
pub open spec fn is_removal_task(r: ScheduledRemoval, task_id: u16, bumps: ScheduleBumps) -> bool {
    &&& r.args.trigger == TaskTrigger::Now
    &&& r.args.crank_reward == Some(REMOVAL_CRANK_REWARD)
    &&& r.args.free_tasks == REMOVAL_FREE_TASKS
    &&& r.args.id == task_id
    &&& r.args.description@ == "solver crank"@
    &&& r.queue_authority_seeds@.len() == 2
    &&& r.queue_authority_seeds@[0]@ == queue_authority_seed()
    &&& r.queue_authority_seeds@[1]@ == seq![bumps.queue_authority]
}

/// Makes a compiled removal transaction into the task that the queue runs.
pub fn removal_task(transaction: CompiledTransaction, task_id: u16, bumps: ScheduleBumps) -> (r:
    ScheduledRemoval)
    ensures
        r.args.transaction == transaction,
        is_removal_task(r, task_id, bumps),
{
    let seed: Vec<u8> = vec![113u8, 117, 101, 117, 101, 95, 97, 117, 116, 104, 111, 114, 105, 116, 121];
    let bump: Vec<u8> = vec![bumps.queue_authority];
    assert(seed@ =~= queue_authority_seed());
    assert(bump@ =~= seq![bumps.queue_authority]);
    let queue_authority_seeds = vec![seed, bump];
    ScheduledRemoval {
        args: QueueTaskArgs {
            trigger: TaskTrigger::Now,
            transaction,
            crank_reward: Some(REMOVAL_CRANK_REWARD),
            free_tasks: REMOVAL_FREE_TASKS,
            id: task_id,
            description: "solver crank".to_owned(),
        },
        queue_authority_seeds,
    }
}

/// The task is signed for with the queue authority's seed, the bytes of
/// "queue_authority", followed by exactly the bump given, so that where the
/// seed and that bump derive the queue authority (as a schedule request's
/// account checks establish for the bump they return), the task's signer
/// seeds derive it.
pub proof fn law_task_signed_by_queue_authority(
    s: Schedule,
    r: ScheduledRemoval,
    task_id: u16,
    bumps: ScheduleBumps,
)
    requires
        is_removal_task(r, task_id, bumps),
    ensures
        r.queue_authority_seeds.deep_view() == seq![
            seq![113u8, 117, 101, 117, 101, 95, 97, 117, 116, 104, 111, 114, 105, 116, 121],
            seq![bumps.queue_authority],
        ],
        created_program_address(
            seq![queue_authority_seed(), seq![bumps.queue_authority]],
            s.program_id,
        ) == Some(s.queue_authority) ==> created_program_address(
            r.queue_authority_seeds.deep_view(),
            s.program_id,
        ) == Some(s.queue_authority),
{
    let d = r.queue_authority_seeds.deep_view();
    assert(d[0] =~= r.queue_authority_seeds@[0]@);
    assert(d[1] =~= r.queue_authority_seeds@[1]@);
    assert(d =~= seq![queue_authority_seed(), seq![bumps.queue_authority]]);
}

/// The compiled task grants each account of the instruction exactly the
/// rights the instruction asked for it: the position it points at is in a
/// signer group exactly when some use of the account signs, and in a
/// writable group exactly when some use of it writes.
pub proof fn law_compiled_rights_match(
    program_id: Key,
    metas: Seq<AccountMetaData>,
    data: Seq<u8>,
    tx: CompiledTransaction,
    j: int,
)
    requires
        compiled_from(program_id, metas, data, tx),
        0 <= j < metas.len(),
    ensures
        ({
            let idx = tx.instructions@[0].accounts@[j] as int;
            let g = group_at(tx, idx);
            &&& tx.accounts@[idx] == metas[j].pubkey
            &&& (g == 0 || g == 1) <==> signs(metas, metas[j].pubkey)
            &&& (g == 0 || g == 2) <==> writes(metas, metas[j].pubkey)
        }),
{
    let ci = tx.instructions@[0];
    let idx = ci.accounts@[j] as int;
    assert(ci.accounts@[j] < tx.accounts@.len());
    assert(tx.accounts@[idx] == metas[j].pubkey);
}

/// The scheduled task, when a cranker runs it, calls this program's
/// `remove_from_whitelist` for this wallet: on the wallet's whitelist
/// account and the wallet, written, with the wallet as its argument. That
/// removal clears the flag and keeps the rest of the account, after which
/// the hook aborts every transfer from the wallet.
pub proof fn law_scheduled_removal_revokes_transfers(
    s: Schedule,
    r: ScheduledRemoval,
    ops: WhitelistOperations,
)
    requires
        compiled_from(s.program_id, s.removal_metas(), s.removal_data(), r.args.transaction),
        ops.user_wallet == s.user_wallet,
    ensures
        ({
            let tx = r.args.transaction;
            let acc = tx.accounts@;
            let ci = tx.instructions@[0];
            &&& acc[ci.program_id_index as int] == s.program_id
            &&& acc[ci.accounts@[1] as int] == s.whitelist
            &&& acc[ci.accounts@[2] as int] == s.user_wallet
            &&& ci.data@ == REMOVE_FROM_WHITELIST_DISCRIMINATOR@ + s.user_wallet@
        }),
        with_flag(ops, false).whitelist.address == ops.whitelist.address,
        with_flag(ops, false).whitelist.bump == ops.whitelist.bump,
        spec_transfer_verdict(with_flag(ops, false).whitelist, true)
            == TransferVerdict::NotWhitelisted,
{
    let ci = r.args.transaction.instructions@[0];
    assert(s.removal_metas()[1].pubkey == s.whitelist);
    assert(s.removal_metas()[2].pubkey == s.user_wallet);
    assert(ci.accounts@[1] < r.args.transaction.accounts@.len());
    assert(ci.accounts@[2] < r.args.transaction.accounts@.len());
}

} // verus!
