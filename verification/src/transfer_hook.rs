//! The per-user whitelist of the transfer hook: each wallet has its own
//! whitelist account with one flag, which the admin sets and clears.
use vstd::prelude::*;

use crate::accounts::{
    check_found_seeds, key_seed, spec_check_found_seeds, AccountCheckError, CheckFailure,
};
use crate::keys::{keys_equal, Key};

verus! {

/// The errors of the whitelist transfer hook program.
#[derive(Clone, Copy, Debug, PartialEq, Eq)]
pub enum WhitelistError {
    NotInitialized,
    WrongAccount,
}

/// The code of the program's first error; the others follow in order.
pub const ERROR_CODE_OFFSET: u32 = 6000;

impl WhitelistError {
    /// The error's number as the program reports it.
    pub fn code(&self) -> (r: u32)
        ensures
            r == match self {
                WhitelistError::NotInitialized => ERROR_CODE_OFFSET as int,
                WhitelistError::WrongAccount => ERROR_CODE_OFFSET + 1,
            },
    {
        match self {
            WhitelistError::NotInitialized => ERROR_CODE_OFFSET,
            WhitelistError::WrongAccount => ERROR_CODE_OFFSET + 1,
        }
    }

    /// The error's message.
    pub fn message(&self) -> (r: &'static str)
        ensures
            r@ == match self {
                WhitelistError::NotInitialized => "Whitelist not Initialized"@,
                WhitelistError::WrongAccount => "Wrong Account for Whitelist operation"@,
            },
    {
        match self {
            WhitelistError::NotInitialized => "Whitelist not Initialized",
            WhitelistError::WrongAccount => "Wrong Account for Whitelist operation",
        }
    }
}

/// One wallet's whitelist account.
#[derive(Clone, Copy, Debug, PartialEq, Eq)]
pub struct Whitelist {
    /// The wallet that this whitelist account belongs to.
    pub address: Key,
    /// Whether the wallet may transfer the token.
    pub is_whitelisted: bool,
    pub bump: u8,
}

/// The result of the custom-error constraints on a wallet's whitelist
/// accounts, in the order they are checked: the whitelist account must be
/// writable, and the wallet passed must be the one the whitelist belongs to.
pub open spec fn spec_check_whitelist_accounts(
    whitelist_is_writable: bool,
    whitelist: Whitelist,
    user_wallet: Key,
) -> Result<(), WhitelistError> {
    if !whitelist_is_writable {
        Err(WhitelistError::NotInitialized)
    } else if user_wallet != whitelist.address {
        Err(WhitelistError::WrongAccount)
    } else {
        Ok(())
    }
}

/// Checks the custom-error constraints on a wallet's whitelist accounts.
pub fn check_whitelist_accounts(
    whitelist_is_writable: bool,
    whitelist: &Whitelist,
    user_wallet: &Key,
) -> (r: Result<(), WhitelistError>)
    ensures
        r == spec_check_whitelist_accounts(whitelist_is_writable, *whitelist, *user_wallet),
{
    if !whitelist_is_writable {
        Err(WhitelistError::NotInitialized)
    } else if !keys_equal(user_wallet, &whitelist.address) {
        Err(WhitelistError::WrongAccount)
    } else {
        Ok(())
    }
}

/// The seeds of a wallet's whitelist account: "whitelist" and the wallet's
/// address.
pub open spec fn whitelist_seeds(wallet: Key) -> Seq<Seq<u8>> {
    seq![whitelist_seed(), wallet@]
}

/// Builds the seeds of a wallet's whitelist account.
pub fn whitelist_seeds_of(wallet: &Key) -> (r: Vec<Vec<u8>>)
    ensures
        r.deep_view() == whitelist_seeds(*wallet),
{
    let literal: Vec<u8> = vec![119u8, 104, 105, 116, 101, 108, 105, 115, 116];
    let wallet_bytes = key_seed(wallet);
    assert(literal.deep_view() =~= whitelist_seed());
    assert(wallet_bytes.deep_view() =~= wallet@);
    let r = vec![literal, wallet_bytes];
    assert(r.deep_view() =~= whitelist_seeds(*wallet));
    r
}

/// The accounts of an admin operation on one wallet's whitelist, as far as
/// the logic reads them: the program's address, the admin and whether it
/// signed, the whitelist account's address, data and writability, and the
/// wallet.
#[derive(Clone, Copy, Debug, PartialEq, Eq)]
pub struct WhitelistOperations {
    pub program_id: Key,
    pub admin: Key,
    pub admin_is_signer: bool,
    pub whitelist_key: Key,
    pub whitelist: Whitelist,
    pub whitelist_is_writable: bool,
    pub user_wallet: Key,
}

/// The accounts with the wallet's flag set to `flag` and all else as it was.
pub open spec fn with_flag(ops: WhitelistOperations, flag: bool) -> WhitelistOperations {
    WhitelistOperations { whitelist: Whitelist { is_whitelisted: flag, ..ops.whitelist }, ..ops }
}

/// The result of the checks on the accounts of an admin operation, in the
/// order they are made: the admin must sign, the whitelist account must be
/// at the address found for the wallet's seeds, then the custom-error
/// constraints.
pub open spec fn spec_check_operations(ops: WhitelistOperations) -> Result<(), CheckFailure<WhitelistError>> {
    if !ops.admin_is_signer {
        Err(CheckFailure::Framework(AccountCheckError::AccountNotSigner))
    } else {
        match spec_check_found_seeds(ops.whitelist_key, whitelist_seeds(ops.user_wallet), ops.program_id) {
            Err(e) => Err(CheckFailure::Framework(e)),
            Ok(_) => match spec_check_whitelist_accounts(
                ops.whitelist_is_writable,
                ops.whitelist,
                ops.user_wallet,
            ) {
                Err(e) => Err(CheckFailure::Program(e)),
                Ok(()) => Ok(()),
            },
        }
    }
}

impl WhitelistOperations {
    /// Checks these accounts as the program's account constraints do.
    pub fn check_constraints(&self) -> (r: Result<(), CheckFailure<WhitelistError>>)
        ensures
            r == spec_check_operations(*self),
    {
        if !self.admin_is_signer {
            return Err(CheckFailure::Framework(AccountCheckError::AccountNotSigner));
        }
        let seeds = whitelist_seeds_of(&self.user_wallet);
        match check_found_seeds(&self.whitelist_key, &seeds, &self.program_id) {
            Err(e) => Err(CheckFailure::Framework(e)),
            Ok(_) => match check_whitelist_accounts(
                self.whitelist_is_writable,
                &self.whitelist,
                &self.user_wallet,
            ) {
                Err(e) => Err(CheckFailure::Program(e)),
                Ok(()) => Ok(()),
            },
        }
    }

    /// Sets the wallet's flag. The wallet named must be the one passed, and
    /// it must not be whitelisted yet.
    pub fn add_to_whitelist(&mut self, user_wallet: Key) -> (r: Result<(), WhitelistError>)
        requires
            user_wallet == old(self).user_wallet,
            !old(self).whitelist.is_whitelisted,
        ensures
            r is Ok,
            *final(self) == with_flag(*old(self), true),
    {
        self.whitelist.is_whitelisted = true;
        Ok(())
    }

    /// Clears the wallet's flag. The wallet named must be the one passed,
    /// and it must be whitelisted.
    pub fn remove_from_whitelist(&mut self, user_wallet: Key) -> (r: Result<(), WhitelistError>)
        requires
            user_wallet == old(self).user_wallet,
            old(self).whitelist.is_whitelisted,
        ensures
            r is Ok,
            *final(self) == with_flag(*old(self), false),
    {
        self.whitelist.is_whitelisted = false;
        Ok(())
    }
}

/// Setting and clearing the flag are inverse: each undoes the other.
pub proof fn law_add_remove_round_trip(ops: WhitelistOperations)
    ensures
        !ops.whitelist.is_whitelisted ==> with_flag(with_flag(ops, true), false) == ops,
        ops.whitelist.is_whitelisted ==> with_flag(with_flag(ops, false), true) == ops,
{
}

/// The bump seeds found for the accounts of a whitelist initialization.
#[derive(Clone, Copy, Debug, PartialEq, Eq)]
pub struct InitializeWhitelistBumps {
    pub whitelist: u8,
}

/// The accounts of a whitelist initialization, as far as the logic writes
/// them: the new whitelist account's data.
#[derive(Clone, Copy, Debug, PartialEq, Eq)]
pub struct InitializeWhitelist {
    pub whitelist: Whitelist,
}

impl InitializeWhitelist {
    /// Binds the new whitelist account to `user_wallet`, not whitelisted.
    pub fn initialize_whitelist(&mut self, bumps: InitializeWhitelistBumps, user_wallet: Key) -> (r:
        Result<(), WhitelistError>)
        ensures
            r is Ok,
            final(self).whitelist == (Whitelist {
                address: user_wallet,
                bump: bumps.whitelist,
                is_whitelisted: false,
            }),
    {
        self.whitelist = Whitelist { address: user_wallet, bump: bumps.whitelist, is_whitelisted: false };
        Ok(())
    }
}

/// What the hook decides about a transfer.
#[derive(Clone, Copy, Debug, PartialEq, Eq)]
pub enum TransferVerdict {
    /// The hook was not called from within a token transfer.
    NotTransferring,
    /// The sender is whitelisted: the transfer goes ahead.
    Allowed,
    /// The sender is not whitelisted: the transfer is aborted.
    NotWhitelisted,
}

/// The hook's decision for a sender's whitelist, where `is_transferring`
/// says whether the source token account is in the middle of a transfer.
pub open spec fn spec_transfer_verdict(whitelist: Whitelist, is_transferring: bool) -> TransferVerdict {
    if !is_transferring {
        TransferVerdict::NotTransferring
    } else if whitelist.is_whitelisted {
        TransferVerdict::Allowed
    } else {
        TransferVerdict::NotWhitelisted
    }
}

/// The accounts of the hook run on a transfer, as far as the logic reads
/// them: the sender's whitelist account.
#[derive(Clone, Copy, Debug, PartialEq, Eq)]
pub struct TransferHook {
    pub whitelist: Whitelist,
}

impl TransferHook {
    /// Decides a transfer: it must come from within a token transfer (the
    /// source token account's transferring mark, read by the caller), and
    /// then goes ahead exactly when the sender is whitelisted. The amount
    /// plays no part.
    pub fn transfer_hook(&self, is_transferring: bool, amount: u64) -> (r: TransferVerdict)
        ensures
            r == spec_transfer_verdict(self.whitelist, is_transferring),
    {
        if !is_transferring {
            TransferVerdict::NotTransferring
        } else if self.whitelist.is_whitelisted {
            TransferVerdict::Allowed
        } else {
            TransferVerdict::NotWhitelisted
        }
    }
}

/// A wallet's transfers are refused once its whitelist account is set up,
/// allowed once the admin adds it, and refused again once it is removed.
pub proof fn law_transfers_follow_the_flag(ops: WhitelistOperations, user_wallet: Key, bump: u8)
    ensures
        spec_transfer_verdict(
            Whitelist { address: user_wallet, bump, is_whitelisted: false },
            true,
        ) == TransferVerdict::NotWhitelisted,
        spec_transfer_verdict(with_flag(ops, true).whitelist, true) == TransferVerdict::Allowed,
        spec_transfer_verdict(with_flag(ops, false).whitelist, true)
            == TransferVerdict::NotWhitelisted,
{
}

/// The bytes of the whitelist accounts' seed, "whitelist".
pub open spec fn whitelist_seed() -> Seq<u8> {
    seq![119u8, 104, 105, 116, 101, 108, 105, 115, 116]
}

/// One seed of an address that the token program derives at transfer time.
#[derive(Clone, Debug, PartialEq, Eq)]
pub enum Seed {
    /// Fixed bytes.
    Literal(Vec<u8>),
    /// The address of the transfer's account at this position.
    AccountKey(u8),
}

/// An extra account that the hook needs, given as the seeds from which the
/// token program derives its address under the hook program.
#[derive(Clone, Debug, PartialEq, Eq)]
pub struct ExtraAccountMetaRule {
    pub seeds: Vec<Seed>,
    pub is_signer: bool,
    pub is_writable: bool,
}

/// Position of the source token account's owner among a transfer's
/// accounts (source, mint, destination, owner).
pub const SOURCE_OWNER_INDEX: u8 = 3;

/// The extra accounts the hook needs: the sender's whitelist account,
/// derived from the seed "whitelist" and the source token account's owner,
/// neither signing nor written.
pub fn extra_account_metas() -> (r: Vec<ExtraAccountMetaRule>)
    ensures
        r@.len() == 1,
        r@[0].seeds@.len() == 2,
        r@[0].seeds@[0] matches Seed::Literal(bytes) && bytes@ == whitelist_seed(),
        r@[0].seeds@[1] == Seed::AccountKey(SOURCE_OWNER_INDEX),
        !r@[0].is_signer,
        !r@[0].is_writable,
{
    let literal: Vec<u8> = vec![119u8, 104, 105, 116, 101, 108, 105, 115, 116];
    assert(literal@ =~= whitelist_seed());
    let seeds = vec![Seed::Literal(literal), Seed::AccountKey(SOURCE_OWNER_INDEX)];
    vec![ExtraAccountMetaRule { seeds, is_signer: false, is_writable: false }]
}

} // verus!
