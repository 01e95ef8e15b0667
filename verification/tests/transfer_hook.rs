use anchor_lang::prelude::Pubkey;
use solana_programs::accounts::{AccountCheckError, CheckFailure};
use solana_programs::transfer_hook::{
    check_whitelist_accounts, extra_account_metas, InitializeWhitelist, InitializeWhitelistBumps,
    Seed, TransferHook, TransferVerdict, Whitelist, WhitelistError, WhitelistOperations,
};

const PROGRAM: [u8; 32] = [9u8; 32];

fn whitelist_pda(wallet: [u8; 32]) -> ([u8; 32], u8) {
    let (k, b) = Pubkey::find_program_address(&[b"whitelist", wallet.as_ref()], &Pubkey::from(PROGRAM));
    (k.to_bytes(), b)
}

fn ops(flag: bool) -> WhitelistOperations {
    let (whitelist_key, bump) = whitelist_pda([2u8; 32]);
    WhitelistOperations {
        program_id: PROGRAM,
        admin: [1u8; 32],
        admin_is_signer: true,
        whitelist_key,
        whitelist: Whitelist { address: [2u8; 32], is_whitelisted: flag, bump },
        whitelist_is_writable: true,
        user_wallet: [2u8; 32],
    }
}

#[test]
fn add_sets_the_flag() {
    let mut o = ops(false);
    assert_eq!(o.add_to_whitelist([2u8; 32]), Ok(()));
    assert_eq!(o, ops(true));
}

#[test]
fn remove_clears_the_flag() {
    let mut o = ops(true);
    assert_eq!(o.remove_from_whitelist([2u8; 32]), Ok(()));
    assert_eq!(o, ops(false));
}

#[test]
fn add_then_remove_round_trip() {
    let mut o = ops(false);
    o.add_to_whitelist([2u8; 32]).unwrap();
    o.remove_from_whitelist([2u8; 32]).unwrap();
    assert_eq!(o, ops(false));
}

#[test]
fn constraints_checked_in_order() {
    let w = Whitelist { address: [2u8; 32], is_whitelisted: false, bump: 1 };
    assert_eq!(check_whitelist_accounts(false, &w, &[3u8; 32]), Err(WhitelistError::NotInitialized));
    assert_eq!(check_whitelist_accounts(true, &w, &[3u8; 32]), Err(WhitelistError::WrongAccount));
    assert_eq!(check_whitelist_accounts(true, &w, &[2u8; 32]), Ok(()));
    let mut o = ops(false);
    assert_eq!(o.check_constraints(), Ok(()));
    o.whitelist.address = [5u8; 32];
    assert_eq!(o.check_constraints(), Err(CheckFailure::Program(WhitelistError::WrongAccount)));
    o.whitelist_is_writable = false;
    assert_eq!(o.check_constraints(), Err(CheckFailure::Program(WhitelistError::NotInitialized)));
}

#[test]
fn whitelist_account_must_be_at_the_wallets_address() {
    let mut o = ops(false);
    o.user_wallet = [5u8; 32];
    o.whitelist.address = [5u8; 32];
    assert_eq!(o.check_constraints(), Err(CheckFailure::Framework(AccountCheckError::ConstraintSeeds)));
    o.whitelist_is_writable = false;
    assert_eq!(o.check_constraints(), Err(CheckFailure::Framework(AccountCheckError::ConstraintSeeds)));
    o.whitelist_key = whitelist_pda([5u8; 32]).0;
    assert_eq!(o.check_constraints(), Err(CheckFailure::Program(WhitelistError::NotInitialized)));
    o.whitelist_is_writable = true;
    assert_eq!(o.check_constraints(), Ok(()));
    o.program_id = [8u8; 32];
    assert_eq!(o.check_constraints(), Err(CheckFailure::Framework(AccountCheckError::ConstraintSeeds)));
    o.admin_is_signer = false;
    assert_eq!(o.check_constraints(), Err(CheckFailure::Framework(AccountCheckError::AccountNotSigner)));
}

#[test]
fn error_codes_and_messages() {
    assert_eq!(WhitelistError::NotInitialized.code(), 6000);
    assert_eq!(WhitelistError::WrongAccount.code(), 6001);
    assert_eq!(WhitelistError::NotInitialized.message(), "Whitelist not Initialized");
    assert_eq!(WhitelistError::WrongAccount.message(), "Wrong Account for Whitelist operation");
}

#[test]
fn fresh_whitelist_refuses_transfers_until_added() {
    let bump = whitelist_pda([2u8; 32]).1;
    let mut init = InitializeWhitelist {
        whitelist: Whitelist { address: [0u8; 32], is_whitelisted: true, bump: 0 },
    };
    assert_eq!(init.initialize_whitelist(InitializeWhitelistBumps { whitelist: bump }, [2u8; 32]), Ok(()));
    assert_eq!(init.whitelist, Whitelist { address: [2u8; 32], is_whitelisted: false, bump });
    assert_eq!(TransferHook { whitelist: init.whitelist }.transfer_hook(true, 100), TransferVerdict::NotWhitelisted);
    let mut o = ops(false);
    o.whitelist = init.whitelist;
    o.add_to_whitelist([2u8; 32]).unwrap();
    assert_eq!(TransferHook { whitelist: o.whitelist }.transfer_hook(true, 100), TransferVerdict::Allowed);
    assert_eq!(TransferHook { whitelist: o.whitelist }.transfer_hook(false, 100), TransferVerdict::NotTransferring);
    o.remove_from_whitelist([2u8; 32]).unwrap();
    assert_eq!(TransferHook { whitelist: o.whitelist }.transfer_hook(true, 1), TransferVerdict::NotWhitelisted);
}

#[test]
fn extra_account_is_the_senders_whitelist() {
    let metas = extra_account_metas();
    assert_eq!(metas.len(), 1);
    assert_eq!(metas[0].seeds, vec![Seed::Literal(b"whitelist".to_vec()), Seed::AccountKey(3)]);
    assert!(!metas[0].is_signer);
    assert!(!metas[0].is_writable);
}
