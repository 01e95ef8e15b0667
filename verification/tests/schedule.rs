use anchor_lang::prelude::Pubkey;
use solana_programs::accounts::{AccountCheckError, CheckFailure};
use solana_programs::instruction::AccountMetaData;
use solana_programs::schedule::{
    removal_task, CompiledTransaction, Schedule, ScheduleBumps, TaskTrigger,
    REMOVAL_CRANK_REWARD, REMOVE_FROM_WHITELIST_DISCRIMINATOR,
};
use solana_programs::transfer_hook::{Whitelist, WhitelistError};

fn schedule() -> Schedule {
    Schedule {
        program_id: [1u8; 32],
        user: [2u8; 32],
        user_is_signer: true,
        whitelist: [3u8; 32],
        whitelist_data: Whitelist { address: [4u8; 32], is_whitelisted: true, bump: 250 },
        whitelist_is_writable: true,
        user_wallet: [4u8; 32],
        queue_authority: [5u8; 32],
        system_program: [0u8; 32],
    }
}

fn pda(seeds: &[&[u8]], program: [u8; 32]) -> ([u8; 32], u8) {
    let (k, b) = Pubkey::find_program_address(seeds, &Pubkey::from(program));
    (k.to_bytes(), b)
}

/// A schedule request whose whitelist and queue authority are at the
/// addresses their seeds give.
fn derived_schedule() -> (Schedule, u8) {
    let program = [1u8; 32];
    let wallet = [4u8; 32];
    let (whitelist, bump) = pda(&[b"whitelist", wallet.as_ref()], program);
    let (queue_authority, authority_bump) = pda(&[b"queue_authority"], program);
    let s = Schedule {
        whitelist,
        whitelist_data: Whitelist { address: wallet, is_whitelisted: true, bump },
        queue_authority,
        ..schedule()
    };
    (s, authority_bump)
}

#[test]
fn removal_instruction_calls_remove_from_whitelist() {
    let ix = schedule().removal_instruction();
    assert_eq!(ix.program_id, [1u8; 32]);
    assert_eq!(
        ix.accounts,
        vec![
            AccountMetaData { pubkey: [2u8; 32], is_signer: true, is_writable: true },
            AccountMetaData { pubkey: [3u8; 32], is_signer: false, is_writable: true },
            AccountMetaData { pubkey: [4u8; 32], is_signer: false, is_writable: true },
            AccountMetaData { pubkey: [0u8; 32], is_signer: false, is_writable: false },
        ]
    );
    assert_eq!(ix.data.len(), 40);
    assert_eq!(&ix.data[..8], &REMOVE_FROM_WHITELIST_DISCRIMINATOR[..]);
    assert_eq!(&ix.data[8..], &[4u8; 32][..]);
}

#[test]
fn schedule_compiles_the_removal_task() {
    let r = schedule().schedule(7, ScheduleBumps { queue_authority: 251 });
    let tx = &r.args.transaction;
    assert_eq!(tx.num_rw_signers, 1);
    assert_eq!(tx.num_ro_signers, 0);
    assert_eq!(tx.num_rw, 2);
    assert_eq!(tx.accounts.len(), 5);
    // writable signer first, then the two writable accounts in either order,
    // then the read-only program and system program in either order
    assert_eq!(tx.accounts[0], [2u8; 32]);
    let mut rw = vec![tx.accounts[1], tx.accounts[2]];
    rw.sort();
    assert_eq!(rw, vec![[3u8; 32], [4u8; 32]]);
    let mut ro = vec![tx.accounts[3], tx.accounts[4]];
    ro.sort();
    assert_eq!(ro, vec![[0u8; 32], [1u8; 32]]);
    assert_eq!(tx.instructions.len(), 1);
    let ci = &tx.instructions[0];
    assert_eq!(tx.accounts[ci.program_id_index as usize], [1u8; 32]);
    let named: Vec<[u8; 32]> = ci.accounts.iter().map(|i| tx.accounts[*i as usize]).collect();
    assert_eq!(named, vec![[2u8; 32], [3u8; 32], [4u8; 32], [0u8; 32]]);
    assert_eq!(ci.data, schedule().removal_instruction().data);
    // each account keeps the rights the removal instruction asked for
    let metas = schedule().removal_instruction().accounts;
    let signers = (tx.num_rw_signers + tx.num_ro_signers) as usize;
    for (j, idx) in ci.accounts.iter().enumerate() {
        let idx = *idx as usize;
        let writable = idx < tx.num_rw_signers as usize
            || (idx >= signers && idx < signers + tx.num_rw as usize);
        assert_eq!(idx < signers, metas[j].is_signer);
        assert_eq!(writable, metas[j].is_writable);
    }
    assert_eq!(r.args.trigger, TaskTrigger::Now);
    assert_eq!(r.args.crank_reward, Some(10000006));
    assert_eq!(REMOVAL_CRANK_REWARD, 10000006);
    assert_eq!(r.args.free_tasks, 1);
    assert_eq!(r.args.id, 7);
    assert_eq!(r.args.description, "solver crank");
    assert_eq!(r.queue_authority_seeds, vec![b"queue_authority".to_vec(), vec![251u8]]);
}

#[test]
fn schedule_merges_a_key_used_twice() {
    let mut s = schedule();
    s.user_wallet = [2u8; 32];
    s.whitelist_data.address = [2u8; 32];
    let r = s.schedule(0, ScheduleBumps { queue_authority: 1 });
    let tx = &r.args.transaction;
    assert_eq!(tx.accounts.len(), 4);
    assert_eq!(tx.num_rw_signers, 1);
    assert_eq!(tx.num_rw, 1);
    assert_eq!(tx.accounts[0], [2u8; 32]);
}

#[test]
fn removal_task_carries_the_transaction() {
    let tx = CompiledTransaction {
        num_ro_signers: 0,
        num_rw_signers: 1,
        num_rw: 0,
        instructions: vec![],
        accounts: vec![[9u8; 32]],
    };
    let r = removal_task(tx.clone(), 3, ScheduleBumps { queue_authority: 9 });
    assert_eq!(r.args.transaction, tx);
    assert_eq!(r.args.id, 3);
    assert_eq!(r.queue_authority_seeds[1], vec![9u8]);
}

#[test]
fn schedule_constraints() {
    let (mut s, authority_bump) = derived_schedule();
    assert_eq!(s.check_constraints(), Ok(ScheduleBumps { queue_authority: authority_bump }));
    s.whitelist_data.address = [8u8; 32];
    assert_eq!(s.check_constraints(), Err(CheckFailure::Program(WhitelistError::WrongAccount)));
    s.whitelist_is_writable = false;
    assert_eq!(s.check_constraints(), Err(CheckFailure::Program(WhitelistError::NotInitialized)));
}

#[test]
fn schedule_checks_the_derived_addresses() {
    let (s, _) = derived_schedule();
    let moved = Schedule { whitelist: [3u8; 32], whitelist_is_writable: false, ..s };
    assert_eq!(moved.check_constraints(), Err(CheckFailure::Framework(AccountCheckError::ConstraintSeeds)));
    let other_bump = Schedule {
        whitelist_data: Whitelist { bump: s.whitelist_data.bump.wrapping_sub(1), ..s.whitelist_data },
        ..s
    };
    assert_eq!(other_bump.check_constraints(), Err(CheckFailure::Framework(AccountCheckError::ConstraintSeeds)));
    let wrong_authority = Schedule { queue_authority: [5u8; 32], ..s };
    assert_eq!(wrong_authority.check_constraints(), Err(CheckFailure::Framework(AccountCheckError::ConstraintSeeds)));
    let unsigned = Schedule { user_is_signer: false, whitelist: [3u8; 32], ..s };
    assert_eq!(unsigned.check_constraints(), Err(CheckFailure::Framework(AccountCheckError::AccountNotSigner)));
}

#[test]
fn removal_selector_is_the_instruction_sighash() {
    let h = anchor_lang::solana_program::hash::hash(b"global:remove_from_whitelist").to_bytes();
    assert_eq!(REMOVE_FROM_WHITELIST_DISCRIMINATOR, h[..8]);
}
