use anchor_lang::prelude::Pubkey;
use std::str::FromStr;
use solana_programs::accounts::AccountCheckError;
use solana_programs::instruction::AccountMetaData;
use solana_programs::vrf::{
    randomness_request, CallBackDelegated, CallBackUnDelegated, UserAccount,
    VrfUpdate, VrfUpdateCommit, DEFAULT_EPHEMERAL_QUEUE, DEFAULT_QUEUE,
    DELEGATED_UPDATE_COMMIT_DISCRIMINATOR, PROGRAM_ID, PROGRAM_IDENTITY, SLOT_HASHES_ID,
    SYSTEM_PROGRAM_ID, UNDELEGATED_UPDATE_DISCRIMINATOR, MAGIC_CONTEXT_ID, VRF_PROGRAM_ID, VRF_PROGRAM_IDENTITY,
};

#[test]
fn delegated_callback_stores_roll_in_one_to_six() {
    let mut cb = CallBackDelegated {
        vrf_program_identity: [5u8; 32],
        user_account: UserAccount { data: 99, bump: 7 },
        magic_context: MAGIC_CONTEXT_ID,
    };
    cb.delegated_update_commit([0u8; 32]);
    assert_eq!(cb.user_account, UserAccount { data: 1, bump: 7 });
    // every byte above the unbiased threshold: the last byte decides
    cb.delegated_update_commit([255u8; 32]);
    assert_eq!(cb.user_account.data, 4);
    let mut bytes = [0u8; 32];
    bytes[31] = 11;
    cb.delegated_update_commit(bytes);
    assert_eq!(cb.user_account.data, 6);
}

#[test]
fn undelegated_callback_stores_roll_in_one_to_sixty_one() {
    let mut cb = CallBackUnDelegated {
        vrf_program_identity: [5u8; 32],
        user_account: UserAccount { data: 0, bump: 3 },
    };
    let mut bytes = [0u8; 32];
    bytes[31] = 100;
    cb.undelegated_update(bytes);
    assert_eq!(cb.user_account, UserAccount { data: 40, bump: 3 });
    for b in 0..=255u8 {
        cb.undelegated_update([b; 32]);
        assert!((1..=61).contains(&cb.user_account.data));
    }
}

#[test]
fn record_result_stores_value() {
    let mut a = UserAccount { data: 5, bump: 2 };
    a.record_result(200);
    assert_eq!(a, UserAccount { data: 200, bump: 2 });
}

#[test]
fn randomness_request_uses_low_byte_of_seed() {
    let r = randomness_request([1u8; 32], [2u8; 32], [3u8; 32], DELEGATED_UPDATE_COMMIT_DISCRIMINATOR, 258);
    assert_eq!(r.payer, [1u8; 32]);
    assert_eq!(r.oracle_queue, [3u8; 32]);
    assert_eq!(r.callback_program_id, PROGRAM_ID);
    assert_eq!(r.callback_discriminator, DELEGATED_UPDATE_COMMIT_DISCRIMINATOR.to_vec());
    assert_eq!(
        r.callback_accounts,
        vec![AccountMetaData { pubkey: [2u8; 32], is_signer: false, is_writable: true }]
    );
    assert_eq!(r.caller_seed, [2u8; 32]);
}

fn commit_request(user: [u8; 32], user_account: [u8; 32], oracle_queue: [u8; 32]) -> VrfUpdateCommit {
    VrfUpdateCommit {
        user,
        user_is_signer: true,
        user_account,
        user_account_bump: 0,
        oracle_queue,
        program_identity: PROGRAM_IDENTITY,
        slot_hashes: SLOT_HASHES_ID,
        magic_context: MAGIC_CONTEXT_ID,
    }
}

fn base_request(user: [u8; 32], user_account: [u8; 32], oracle_queue: [u8; 32]) -> VrfUpdate {
    VrfUpdate {
        user,
        user_is_signer: true,
        user_account,
        user_account_bump: 0,
        oracle_queue,
        program_identity: PROGRAM_IDENTITY,
        slot_hashes: SLOT_HASHES_ID,
    }
}

fn expected_data(discriminator: [u8; 8], seed_byte: u8, user_account: [u8; 32]) -> Vec<u8> {
    let mut d = vec![10u8, 0, 0, 0, 0, 0, 0, 0];
    d.extend_from_slice(&[seed_byte; 32]);
    d.extend_from_slice(&PROGRAM_ID);
    d.extend_from_slice(&[8, 0, 0, 0]);
    d.extend_from_slice(&discriminator);
    d.extend_from_slice(&[1, 0, 0, 0]);
    d.extend_from_slice(&user_account);
    d.extend_from_slice(&[0, 1]);
    d.extend_from_slice(&[0, 0, 0, 0]);
    d
}

#[test]
fn request_randomness_builds_oracle_instruction() {
    let accounts = commit_request([1u8; 32], [2u8; 32], [3u8; 32]);
    let ix = accounts.request_randomness(0x1_07);
    assert_eq!(ix.program_id, VRF_PROGRAM_ID);
    assert_eq!(ix.accounts.len(), 5);
    assert_eq!(ix.accounts[0], AccountMetaData { pubkey: [1u8; 32], is_signer: true, is_writable: true });
    assert_eq!(ix.accounts[1], AccountMetaData { pubkey: PROGRAM_IDENTITY, is_signer: true, is_writable: false });
    assert_eq!(ix.accounts[2], AccountMetaData { pubkey: [3u8; 32], is_signer: false, is_writable: true });
    assert_eq!(ix.accounts[3], AccountMetaData { pubkey: SYSTEM_PROGRAM_ID, is_signer: false, is_writable: false });
    assert_eq!(ix.accounts[4], AccountMetaData { pubkey: SLOT_HASHES_ID, is_signer: false, is_writable: false });
    assert_eq!(ix.data, expected_data(DELEGATED_UPDATE_COMMIT_DISCRIMINATOR, 7, [2u8; 32]));
}

#[test]
fn request_randomness_undelegated_targets_plain_callback() {
    let accounts = base_request([1u8; 32], [6u8; 32], [3u8; 32]);
    let ix = accounts.request_randomness_undelegated(9);
    assert_eq!(ix.program_id, VRF_PROGRAM_ID);
    assert_eq!(ix.data, expected_data(UNDELEGATED_UPDATE_DISCRIMINATOR, 9, [6u8; 32]));
    let other = commit_request([1u8; 32], [6u8; 32], [3u8; 32])
        .request_randomness(9);
    assert_eq!(ix.accounts, other.accounts);
}

#[test]
fn program_constants_match_their_addresses() {
    let key = |s: &str| Pubkey::from_str(s).unwrap().to_bytes();
    assert_eq!(PROGRAM_ID, key("CMPECrgdFbSGwSK8gSCD3wehkcNUbesyK8FYfS5Fsfjg"));
    assert_eq!(VRF_PROGRAM_ID, key("Vrf1RNUjXmQGjmQrQLvJHs9SNkvDJEsRVFPkfSQUwGz"));
    assert_eq!(VRF_PROGRAM_IDENTITY, key("9irBy75QS2BN81FUgXuHcjqceJJRuc9oDkAe8TKVvvAw"));
    assert_eq!(DEFAULT_QUEUE, key("Cuj97ggrhhidhbu39TijNVqE74xvKJ69gDervRUXAxGh"));
    assert_eq!(DEFAULT_EPHEMERAL_QUEUE, key("5hBR571xnXppuCPveTrctfTU7tJLSN94nq7kv7FRK5Tc"));
    assert_eq!(MAGIC_CONTEXT_ID, key("MagicContext1111111111111111111111111111111"));
    let (identity, _) =
        Pubkey::find_program_address(&[b"identity"], &Pubkey::new_from_array(PROGRAM_ID));
    assert_eq!(PROGRAM_IDENTITY, identity.to_bytes());
}

#[test]
fn callbacks_accept_only_the_signing_oracle_identity() {
    let mut cb = CallBackDelegated {
        vrf_program_identity: VRF_PROGRAM_IDENTITY,
        user_account: UserAccount { data: 0, bump: 1 },
        magic_context: MAGIC_CONTEXT_ID,
    };
    assert_eq!(cb.check_constraints(true), Ok(()));
    assert_eq!(cb.check_constraints(false), Err(AccountCheckError::AccountNotSigner));
    cb.magic_context = [4u8; 32];
    assert_eq!(cb.check_constraints(true), Err(AccountCheckError::ConstraintAddress));
    cb.magic_context = MAGIC_CONTEXT_ID;
    cb.vrf_program_identity = [1u8; 32];
    assert_eq!(cb.check_constraints(true), Err(AccountCheckError::ConstraintAddress));
    assert_eq!(cb.check_constraints(false), Err(AccountCheckError::AccountNotSigner));
    let cb = CallBackUnDelegated { vrf_program_identity: [1u8; 32], user_account: cb.user_account };
    assert_eq!(cb.check_constraints(true), Err(AccountCheckError::ConstraintAddress));
    assert_eq!(AccountCheckError::AccountNotSigner.code(), Some(3010));
    assert_eq!(AccountCheckError::ConstraintAddress.code(), Some(2012));
    assert_eq!(AccountCheckError::ConstraintSeeds.code(), Some(2006));
    assert_eq!(AccountCheckError::NoViableBump.code(), None);
}

fn user_account_of(user: [u8; 32]) -> ([u8; 32], u8) {
    let (k, b) = Pubkey::find_program_address(&[b"user", user.as_ref()], &Pubkey::new_from_array(PROGRAM_ID));
    (k.to_bytes(), b)
}

#[test]
fn requests_go_to_their_oracle_queue() {
    let (user_account, bump) = user_account_of([1u8; 32]);
    let ok = VrfUpdateCommit {
        user_account_bump: bump,
        ..commit_request([1u8; 32], user_account, DEFAULT_EPHEMERAL_QUEUE)
    };
    assert_eq!(ok.check_constraints(), Ok(()));
    let wrong = VrfUpdateCommit { oracle_queue: DEFAULT_QUEUE, ..ok };
    assert_eq!(wrong.check_constraints(), Err(AccountCheckError::ConstraintAddress));
    let ok = VrfUpdate {
        user_account_bump: bump,
        ..base_request([1u8; 32], user_account, DEFAULT_QUEUE)
    };
    assert_eq!(ok.check_constraints(), Ok(()));
    let wrong = VrfUpdate { oracle_queue: DEFAULT_EPHEMERAL_QUEUE, ..ok };
    assert_eq!(wrong.check_constraints(), Err(AccountCheckError::ConstraintAddress));
}

#[test]
fn requests_check_the_derived_and_fixed_accounts() {
    let (user_account, bump) = user_account_of([1u8; 32]);
    let ok = VrfUpdateCommit {
        user_account_bump: bump,
        ..commit_request([1u8; 32], user_account, DEFAULT_EPHEMERAL_QUEUE)
    };
    // another user's state account, with the queue wrong too: the seeds come first
    let other = VrfUpdateCommit { user: [7u8; 32], oracle_queue: DEFAULT_QUEUE, ..ok };
    assert_eq!(other.check_constraints(), Err(AccountCheckError::ConstraintSeeds));
    let other_bump = VrfUpdateCommit { user_account_bump: bump.wrapping_sub(1), ..ok };
    assert_eq!(other_bump.check_constraints(), Err(AccountCheckError::ConstraintSeeds));
    let identity = VrfUpdateCommit { program_identity: [3u8; 32], slot_hashes: [3u8; 32], ..ok };
    assert_eq!(identity.check_constraints(), Err(AccountCheckError::ConstraintSeeds));
    let slots = VrfUpdateCommit { slot_hashes: [3u8; 32], magic_context: [3u8; 32], ..ok };
    assert_eq!(slots.check_constraints(), Err(AccountCheckError::ConstraintAddress));
    let context = VrfUpdateCommit { magic_context: [3u8; 32], ..ok };
    assert_eq!(context.check_constraints(), Err(AccountCheckError::ConstraintAddress));
    let base = VrfUpdate {
        user_account_bump: bump,
        ..base_request([1u8; 32], user_account, DEFAULT_QUEUE)
    };
    let base_other = VrfUpdate { user_account: [2u8; 32], ..base };
    assert_eq!(base_other.check_constraints(), Err(AccountCheckError::ConstraintSeeds));
    let unsigned = VrfUpdate { user_is_signer: false, user_account: [2u8; 32], ..base };
    assert_eq!(unsigned.check_constraints(), Err(AccountCheckError::AccountNotSigner));
    let unsigned = VrfUpdateCommit { user_is_signer: false, ..ok };
    assert_eq!(unsigned.check_constraints(), Err(AccountCheckError::AccountNotSigner));
}

#[test]
fn callback_selectors_are_the_instruction_sighashes() {
    let sighash = |name: &str| {
        let h = anchor_lang::solana_program::hash::hash(format!("global:{}", name).as_bytes()).to_bytes();
        let mut d = [0u8; 8];
        d.copy_from_slice(&h[..8]);
        d
    };
    assert_eq!(DELEGATED_UPDATE_COMMIT_DISCRIMINATOR, sighash("delegated_update_commit"));
    assert_eq!(UNDELEGATED_UPDATE_DISCRIMINATOR, sighash("undelegated_update"));
}
