//! The whitelist of the gated vault: one account holding every address that
//! may move the vault's token, grown and shrunk by one entry at a time, with
//! the rent of the account kept in step with its size.
use vstd::prelude::*;

use crate::accounts::{
    check_found_seeds, check_given_bump, key_seed, spec_check_found_seeds, spec_check_given_bump,
    AccountCheckError, CheckFailure,
};
use crate::keys::{is_null_key, key_is_none, keys_equal, Key};

verus! {

/// The errors of the gated vault program that its whitelist operations raise.
#[derive(Clone, Copy, Debug, PartialEq, Eq)]
pub enum VaultError {
    NotAdmin,
    VaultNotCreatedByAdmin,
    UserNotExistInVec,
}

/// The address of the gated vault program.
pub const PROGRAM_ID: Key = [
    129, 201, 96, 101, 210, 110, 29, 250, 74, 187, 134, 144, 49, 9, 214, 164, 194, 15, 0, 153, 165,
    176, 45, 14, 16, 41, 208, 218, 232, 44, 70, 27,
];

/// The vault account of a whitelist operation, as far as the checks read
/// it: its address, the owner and bump its data records, and whether it
/// was passed writable.
#[derive(Clone, Copy, Debug, PartialEq, Eq)]
pub struct VaultAccount {
    pub key: Key,
    pub owner: Key,
    pub vault_bump: u8,
    pub is_writable: bool,
}

/// The seeds of the whitelist account: "whitelist".
pub open spec fn whitelist_account_seeds() -> Seq<Seq<u8>> {
    seq![seq![119u8, 104, 105, 116, 101, 108, 105, 115, 116]]
}

/// The seeds of the vault for `mint`: the mint's address and the vault seed.
pub open spec fn vault_seeds(mint: Key, vault_seed: Seq<u8>) -> Seq<Seq<u8>> {
    seq![mint@, vault_seed]
}

/// The result of the checks on the accounts of a whitelist operation, in
/// the order they are made: the admin must sign; the whitelist account must
/// be at the address found for its seed; the signer must be the vault's owner; the vault must
/// be at the address its seeds and recorded bump give, and writable. On
/// success, the bump found for the whitelist account.
pub open spec fn spec_check_operations(
    admin: Key,
    admin_is_signer: bool,
    whitelist_key: Key,
    vault: VaultAccount,
    mint: Key,
    vault_seed: Seq<u8>,
) -> Result<WhitelistOperationsBumps, CheckFailure<VaultError>> {
    if !admin_is_signer {
        Err(CheckFailure::Framework(AccountCheckError::AccountNotSigner))
    } else {
        match spec_check_found_seeds(whitelist_key, whitelist_account_seeds(), PROGRAM_ID) {
            Err(e) => Err(CheckFailure::Framework(e)),
            Ok(b) => if admin != vault.owner {
                Err(CheckFailure::Program(VaultError::NotAdmin))
            } else {
                match spec_check_given_bump(
                    vault.key,
                    vault_seeds(mint, vault_seed),
                    vault.vault_bump,
                    PROGRAM_ID,
                ) {
                    Err(e) => Err(CheckFailure::Framework(e)),
                    Ok(()) => if !vault.is_writable {
                        Err(CheckFailure::Program(VaultError::VaultNotCreatedByAdmin))
                    } else {
                        Ok(WhitelistOperationsBumps { whitelist: b })
                    },
                }
            },
        }
    }
}

/// Why a whitelist operation did not complete.
#[derive(Clone, Copy, Debug, PartialEq, Eq)]
pub enum WhitelistUpdateError {
    /// The program refused the request with one of its own errors.
    Vault(VaultError),
    /// The account size or the rent difference left the range of its type.
    ArithmeticOverflow,
}

/// One whitelist entry: the address, an amount, and the whitelisted flag.
pub type WhitelistEntry = (Key, u64, bool);

/// Bytes that one entry takes in the account: a 32-byte address, an 8-byte
/// amount and a 1-byte flag.
pub const WHITELIST_ENTRY_SIZE: usize = 41;

/// The whitelist account's data.
pub struct Whitelist {
    pub address: Vec<WhitelistEntry>,
    pub whitelist_bump: u8,
    pub admin: Key,
}

/// The bump seeds found for the accounts of a whitelist operation.
#[derive(Clone, Copy, Debug, PartialEq, Eq)]
pub struct WhitelistOperationsBumps {
    pub whitelist: u8,
}

/// What an operation asks of the accounts once it has changed the list: the
/// whitelist account's new size, and the lamports that move between the
/// admin and the whitelist account so that it stays rent exempt.
#[derive(Clone, Copy, Debug, PartialEq, Eq)]
pub enum ReallocAction {
    Grow { new_len: usize, lamports_from_admin: u64 },
    Shrink { new_len: usize, lamports_to_admin: u64 },
}

/// The accounts of a whitelist operation, as far as the logic reads them:
/// the admin's address, the whitelist's data, and the whitelist account's
/// data length and lamports.
pub struct WhitelistOperations {
    pub admin: Key,
    pub whitelist: Whitelist,
    pub whitelist_data_len: usize,
    pub whitelist_lamports: u64,
}

/// Some entry of `entries` holds address `a`.
pub open spec fn holds_address(entries: Seq<WhitelistEntry>, a: Key) -> bool {
    exists|i: int| 0 <= i < entries.len() && #[trigger] entries[i].0 == a
}

/// `i` is the first position of `entries` that holds `a`.
pub open spec fn is_first_match(entries: Seq<WhitelistEntry>, a: Key, i: int) -> bool {
    &&& 0 <= i < entries.len()
    &&& entries[i].0 == a
    &&& forall|j: int| 0 <= j < i ==> #[trigger] entries[j].0 != a
}

/// The first position of `entries` that holds `a` (meaningful where one does).
pub open spec fn first_match(entries: Seq<WhitelistEntry>, a: Key) -> int {
    choose|i: int| is_first_match(entries, a, i)
}

/// The flag of the first entry that holds `a`, if any does.
pub open spec fn whitelisted_flag(entries: Seq<WhitelistEntry>, a: Key) -> Option<bool> {
    if holds_address(entries, a) {
        Some(entries[first_match(entries, a)].2)
    } else {
        None
    }
}

/// No address occurs in two entries.
pub open spec fn distinct_addresses(entries: Seq<WhitelistEntry>) -> bool {
    forall|i: int, j: int|
        0 <= i < j < entries.len() ==> #[trigger] entries[i].0 != #[trigger] entries[j].0
}

/// The entries after adding `a`: unchanged if it is held, else one more entry
/// for it at the end, with amount 0 and the flag set.
pub open spec fn entries_after_add(entries: Seq<WhitelistEntry>, a: Key) -> Seq<WhitelistEntry> {
    if holds_address(entries, a) {
        entries
    } else {
        entries.push((a, 0u64, true))
    }
}

/// The entries after removing `a`, which they hold: its first entry is gone.
pub open spec fn entries_after_remove(entries: Seq<WhitelistEntry>, a: Key) -> Seq<WhitelistEntry> {
    entries.remove(first_match(entries, a))
}

/// The resize and rent movement for an account of `data_len` bytes holding
/// `lamports`, growing or shrinking by one entry, where `lamports_required`
/// is the rent-exempt minimum for the new size; `None` where the size or the
/// difference leaves the range of its type.
pub open spec fn spec_realloc_action(
    data_len: usize,
    lamports: u64,
    is_adding: bool,
    lamports_required: u64,
) -> Option<ReallocAction> {
    if is_adding {
        if data_len + WHITELIST_ENTRY_SIZE > usize::MAX || lamports_required < lamports {
            None
        } else {
            Some(
                ReallocAction::Grow {
                    new_len: (data_len + WHITELIST_ENTRY_SIZE) as usize,
                    lamports_from_admin: (lamports_required - lamports) as u64,
                },
            )
        }
    } else {
        if data_len < WHITELIST_ENTRY_SIZE || lamports < lamports_required {
            None
        } else {
            Some(
                ReallocAction::Shrink {
                    new_len: (data_len - WHITELIST_ENTRY_SIZE) as usize,
                    lamports_to_admin: (lamports - lamports_required) as u64,
                },
            )
        }
    }
}

/// The data length an account has after `action`.
pub open spec fn len_after(action: ReallocAction) -> usize {
    match action {
        ReallocAction::Grow { new_len, .. } => new_len,
        ReallocAction::Shrink { new_len, .. } => new_len,
    }
}

/// The lamports an account holding `lamports` has after `action`.
pub open spec fn lamports_after(lamports: u64, action: ReallocAction) -> int {
    match action {
        ReallocAction::Grow { lamports_from_admin, .. } => lamports + lamports_from_admin,
        ReallocAction::Shrink { lamports_to_admin, .. } => lamports - lamports_to_admin,
    }
}

/// The admin's lamports after `action`, from `admin_lamports`: a grow is
/// paid by the admin, a shrink refunds the admin.
pub open spec fn admin_lamports_after(admin_lamports: u64, action: ReallocAction) -> int {
    match action {
        ReallocAction::Grow { lamports_from_admin, .. } => admin_lamports - lamports_from_admin,
        ReallocAction::Shrink { lamports_to_admin, .. } => admin_lamports + lamports_to_admin,
    }
}

/// There is a first match wherever the address is held.
pub proof fn lemma_first_match(entries: Seq<WhitelistEntry>, a: Key)
    requires
        holds_address(entries, a),
    ensures
        is_first_match(entries, a, first_match(entries, a)),
{
    let k = choose|i: int| 0 <= i < entries.len() && #[trigger] entries[i].0 == a;
    lemma_first_match_below(entries, a, k);
}

proof fn lemma_first_match_below(entries: Seq<WhitelistEntry>, a: Key, k: int)
    requires
        0 <= k < entries.len(),
        entries[k].0 == a,
    ensures
        is_first_match(entries, a, first_match(entries, a)),
    decreases k,
{
    if forall|j: int| 0 <= j < k ==> #[trigger] entries[j].0 != a {
        assert(is_first_match(entries, a, k));
    } else {
        let j = choose|j: int| 0 <= j < k && #[trigger] entries[j].0 == a;
        lemma_first_match_below(entries, a, j);
    }
}

/// There is only one first match.
pub proof fn lemma_first_match_unique(entries: Seq<WhitelistEntry>, a: Key, i: int)
    requires
        is_first_match(entries, a, i),
    ensures
        first_match(entries, a) == i,
{
    let k = first_match(entries, a);
    assert(is_first_match(entries, a, k));
    if k < i {
        assert(entries[k].0 != a);
    } else if i < k {
        assert(entries[i].0 != a);
    }
}

/// The size of an account of `data_len` bytes grown or shrunk by one entry;
/// `None` where it leaves the range of its type.
pub open spec fn spec_new_account_size(data_len: usize, is_adding: bool) -> Option<usize> {
    if is_adding {
        if data_len + WHITELIST_ENTRY_SIZE > usize::MAX {
            None
        } else {
            Some((data_len + WHITELIST_ENTRY_SIZE) as usize)
        }
    } else {
        if data_len < WHITELIST_ENTRY_SIZE {
            None
        } else {
            Some((data_len - WHITELIST_ENTRY_SIZE) as usize)
        }
    }
}

/// The size an account of `data_len` bytes has once grown or shrunk by one
/// entry. The rent-exempt minimum for this size is what the whitelist
/// operations take as `lamports_required`.
pub fn new_account_size(data_len: usize, is_adding: bool) -> (r: Option<usize>)
    ensures
        r == spec_new_account_size(data_len, is_adding),
{
    if is_adding {
        if data_len > usize::MAX - WHITELIST_ENTRY_SIZE {
            None
        } else {
            Some(data_len + WHITELIST_ENTRY_SIZE)
        }
    } else {
        if data_len < WHITELIST_ENTRY_SIZE {
            None
        } else {
            Some(data_len - WHITELIST_ENTRY_SIZE)
        }
    }
}

impl Whitelist {
    /// Whether some entry holds `address`.
    pub fn contains_address(&self, address: &Key) -> (r: bool)
        ensures
            r == holds_address(self.address@, *address),
    {
        let mut i: usize = 0;
        while i < self.address.len()
            invariant
                0 <= i <= self.address@.len(),
                forall|j: int| 0 <= j < i ==> #[trigger] self.address@[j].0 != *address,
            decreases self.address@.len() - i,
        {
            if keys_equal(&self.address[i].0, address) {
                assert(self.address@[i as int].0 == *address);
                return true;
            }
            i = i + 1;
        }
        false
    }

    /// The flag of the first entry that holds `address`, if any does.
    pub fn is_whitelisted(&self, address: &Key) -> (r: Option<&bool>)
        ensures
            match r {
                Some(b) => whitelisted_flag(self.address@, *address) == Some(*b),
                None => whitelisted_flag(self.address@, *address) is None,
            },
    {
        let mut i: usize = 0;
        while i < self.address.len()
            invariant
                0 <= i <= self.address@.len(),
                forall|j: int| 0 <= j < i ==> #[trigger] self.address@[j].0 != *address,
            decreases self.address@.len() - i,
        {
            if keys_equal(&self.address[i].0, address) {
                proof {
                    assert(is_first_match(self.address@, *address, i as int));
                    lemma_first_match_unique(self.address@, *address, i as int);
                }
                return Some(&self.address[i].2);
            }
            i = i + 1;
        }
        None
    }
}

impl WhitelistOperations {
    /// Checks the accounts of the operation as the program's account
    /// constraints do, and gives the bump found for the whitelist account.
    pub fn check_constraints(
        &self,
        admin_is_signer: bool,
        whitelist_key: &Key,
        vault: &VaultAccount,
        mint: &Key,
        vault_seed: &Vec<u8>,
    ) -> (r: Result<WhitelistOperationsBumps, CheckFailure<VaultError>>)
        ensures
            r == spec_check_operations(
                self.admin,
                admin_is_signer,
                *whitelist_key,
                *vault,
                *mint,
                vault_seed@,
            ),
    {
        if !admin_is_signer {
            return Err(CheckFailure::Framework(AccountCheckError::AccountNotSigner));
        }
        let literal: Vec<u8> = vec![119u8, 104, 105, 116, 101, 108, 105, 115, 116];
        assert(literal.deep_view() =~= whitelist_account_seeds()[0]);
        let whitelist_seeds = vec![literal];
        assert(whitelist_seeds.deep_view() =~= whitelist_account_seeds());
        match check_found_seeds(whitelist_key, &whitelist_seeds, &PROGRAM_ID) {
            Err(e) => Err(CheckFailure::Framework(e)),
            Ok(b) => {
                if !keys_equal(&self.admin, &vault.owner) {
                    return Err(CheckFailure::Program(VaultError::NotAdmin));
                }
                let mint_bytes = key_seed(mint);
                let mut seed_bytes: Vec<u8> = Vec::new();
                let mut i: usize = 0;
                while i < vault_seed.len()
                    invariant
                        0 <= i <= vault_seed@.len(),
                        seed_bytes@ == vault_seed@.subrange(0, i as int),
                    decreases vault_seed@.len() - i,
                {
                    seed_bytes.push(vault_seed[i]);
                    i = i + 1;
                }
                assert(vault_seed@.subrange(0, vault_seed@.len() as int) =~= vault_seed@);
                assert(mint_bytes.deep_view() =~= mint@);
                assert(seed_bytes.deep_view() =~= vault_seed@);
                let seeds = vec![mint_bytes, seed_bytes];
                assert(seeds.deep_view() =~= vault_seeds(*mint, vault_seed@));
                match check_given_bump(&vault.key, seeds, vault.vault_bump, &PROGRAM_ID) {
                    Err(e) => Err(CheckFailure::Framework(e)),
                    Ok(()) => {
                        if !vault.is_writable {
                            Err(CheckFailure::Program(VaultError::VaultNotCreatedByAdmin))
                        } else {
                            Ok(WhitelistOperationsBumps { whitelist: b })
                        }
                    },
                }
            },
        }
    }

    /// Works out how the whitelist account is resized by one entry and how
    /// much rent moves, where `lamports_required` is the rent-exempt minimum
    /// for the new size (`new_account_size`); `None` where the size or the
    /// rent difference leaves the range of its type.
    pub fn realloc_whitelist(&self, is_adding: bool, lamports_required: u64) -> (r: Option<
        ReallocAction,
    >)
        ensures
            r == spec_realloc_action(
                self.whitelist_data_len,
                self.whitelist_lamports,
                is_adding,
                lamports_required,
            ),
    {
        let data_len = self.whitelist_data_len;
        let lamports = self.whitelist_lamports;
        if is_adding {
            if data_len > usize::MAX - WHITELIST_ENTRY_SIZE || lamports_required < lamports {
                None
            } else {
                Some(
                    ReallocAction::Grow {
                        new_len: data_len + WHITELIST_ENTRY_SIZE,
                        lamports_from_admin: lamports_required - lamports,
                    },
                )
            }
        } else {
            if data_len < WHITELIST_ENTRY_SIZE || lamports < lamports_required {
                None
            } else {
                Some(
                    ReallocAction::Shrink {
                        new_len: data_len - WHITELIST_ENTRY_SIZE,
                        lamports_to_admin: lamports - lamports_required,
                    },
                )
            }
        }
    }

    /// Adds `address` to the whitelist. The first operation on a fresh
    /// whitelist records the admin and the bump. An address already held
    /// leaves the list as it is; a new one grows the account by one entry,
    /// with `lamports_required` the rent-exempt minimum for the grown size,
    /// and is appended with amount 0 and the flag set.
    pub fn add_to_whitelist(
        &mut self,
        address: Key,
        bumps: &WhitelistOperationsBumps,
        lamports_required: u64,
    ) -> (r: Result<Option<ReallocAction>, WhitelistUpdateError>)
        ensures
            final(self).admin == old(self).admin,
            final(self).whitelist.admin == (if is_null_key(old(self).whitelist.admin) {
                old(self).admin
            } else {
                old(self).whitelist.admin
            }),
            final(self).whitelist.whitelist_bump == (if is_null_key(old(self).whitelist.admin) {
                bumps.whitelist
            } else {
                old(self).whitelist.whitelist_bump
            }),
            holds_address(old(self).whitelist.address@, address) ==> {
                &&& r == Ok::<Option<ReallocAction>, WhitelistUpdateError>(None)
                &&& final(self).whitelist.address@ == old(self).whitelist.address@
                &&& final(self).whitelist_data_len == old(self).whitelist_data_len
                &&& final(self).whitelist_lamports == old(self).whitelist_lamports
            },
            !holds_address(old(self).whitelist.address@, address) ==> match spec_realloc_action(
                old(self).whitelist_data_len,
                old(self).whitelist_lamports,
                true,
                lamports_required,
            ) {
                Some(action) => {
                    &&& r == Ok::<Option<ReallocAction>, WhitelistUpdateError>(Some(action))
                    &&& final(self).whitelist.address@ == entries_after_add(
                        old(self).whitelist.address@,
                        address,
                    )
                    &&& final(self).whitelist_data_len == len_after(action)
                    &&& final(self).whitelist_lamports == lamports_after(
                        old(self).whitelist_lamports,
                        action,
                    )
                },
                None => {
                    &&& r == Err::<Option<ReallocAction>, WhitelistUpdateError>(
                        WhitelistUpdateError::ArithmeticOverflow,
                    )
                    &&& final(self).whitelist.address@ == old(self).whitelist.address@
                    &&& final(self).whitelist_data_len == old(self).whitelist_data_len
                    &&& final(self).whitelist_lamports == old(self).whitelist_lamports
                },
            },
    {
        if key_is_none(&self.whitelist.admin) {
            self.whitelist.admin = self.admin;
            self.whitelist.whitelist_bump = bumps.whitelist;
        }
        if !self.whitelist.contains_address(&address) {
            match self.realloc_whitelist(true, lamports_required) {
                Some(action) => {
                    self.apply_realloc(action);
                    self.whitelist.address.push((address, 0, true));
                    Ok(Some(action))
                },
                None => Err(WhitelistUpdateError::ArithmeticOverflow),
            }
        } else {
            Ok(None)
        }
    }

    /// Removes the first entry that holds `address`, which the whitelist
    /// must hold, and shrinks the account by one entry, with
    /// `lamports_required` the rent-exempt minimum for the shrunk size.
    pub fn remove_from_whitelist(&mut self, address: Key, lamports_required: u64) -> (r: Result<
        Option<ReallocAction>,
        WhitelistUpdateError,
    >)
        ensures
            final(self).admin == old(self).admin,
            final(self).whitelist.admin == old(self).whitelist.admin,
            final(self).whitelist.whitelist_bump == old(self).whitelist.whitelist_bump,
            !holds_address(old(self).whitelist.address@, address) ==> {
                &&& r == Err::<Option<ReallocAction>, WhitelistUpdateError>(
                    WhitelistUpdateError::Vault(VaultError::UserNotExistInVec),
                )
                &&& final(self).whitelist.address@ == old(self).whitelist.address@
                &&& final(self).whitelist_data_len == old(self).whitelist_data_len
                &&& final(self).whitelist_lamports == old(self).whitelist_lamports
            },
            holds_address(old(self).whitelist.address@, address) ==> match spec_realloc_action(
                old(self).whitelist_data_len,
                old(self).whitelist_lamports,
                false,
                lamports_required,
            ) {
                Some(action) => {
                    &&& r == Ok::<Option<ReallocAction>, WhitelistUpdateError>(Some(action))
                    &&& final(self).whitelist.address@ == entries_after_remove(
                        old(self).whitelist.address@,
                        address,
                    )
                    &&& final(self).whitelist_data_len == len_after(action)
                    &&& final(self).whitelist_lamports == lamports_after(
                        old(self).whitelist_lamports,
                        action,
                    )
                },
                None => {
                    &&& r == Err::<Option<ReallocAction>, WhitelistUpdateError>(
                        WhitelistUpdateError::ArithmeticOverflow,
                    )
                    &&& final(self).whitelist.address@ == old(self).whitelist.address@
                    &&& final(self).whitelist_data_len == old(self).whitelist_data_len
                    &&& final(self).whitelist_lamports == old(self).whitelist_lamports
                },
            },
    {
        if !self.whitelist.contains_address(&address) {
            return Err(WhitelistUpdateError::Vault(VaultError::UserNotExistInVec));
        }
        if let Some(pos) = self.whitelist.first_position(&address) {
            match self.realloc_whitelist(false, lamports_required) {
                Some(action) => {
                    self.whitelist.address.remove(pos);
                    self.apply_realloc(action);
                    Ok(Some(action))
                },
                None => Err(WhitelistUpdateError::ArithmeticOverflow),
            }
        } else {
            Ok(None)
        }
    }

    /// Records the account's size and lamports after `action`, which came
    /// from resizing this account by one entry.
    fn apply_realloc(&mut self, action: ReallocAction)
        requires
            exists|required: u64|
                spec_realloc_action(
                    old(self).whitelist_data_len,
                    old(self).whitelist_lamports,
                    true,
                    required,
                ) == Some(action) || spec_realloc_action(
                    old(self).whitelist_data_len,
                    old(self).whitelist_lamports,
                    false,
                    required,
                ) == Some(action),
        ensures
            final(self).admin == old(self).admin,
            final(self).whitelist == old(self).whitelist,
            final(self).whitelist_data_len == len_after(action),
            final(self).whitelist_lamports == lamports_after(old(self).whitelist_lamports, action),
    {
        match action {
            ReallocAction::Grow { new_len, lamports_from_admin } => {
                self.whitelist_data_len = new_len;
                self.whitelist_lamports = self.whitelist_lamports + lamports_from_admin;
            },
            ReallocAction::Shrink { new_len, lamports_to_admin } => {
                self.whitelist_data_len = new_len;
                self.whitelist_lamports = self.whitelist_lamports - lamports_to_admin;
            },
        }
    }
}

impl Whitelist {
    /// The position of the first entry that holds `address`, if any does.
    fn first_position(&self, address: &Key) -> (r: Option<usize>)
        ensures
            match r {
                Some(i) => is_first_match(self.address@, *address, i as int),
                None => !holds_address(self.address@, *address),
            },
    {
        let mut i: usize = 0;
        while i < self.address.len()
            invariant
                0 <= i <= self.address@.len(),
                forall|j: int| 0 <= j < i ==> #[trigger] self.address@[j].0 != *address,
            decreases self.address@.len() - i,
        {
            if keys_equal(&self.address[i].0, address) {
                return Some(i);
            }
            i = i + 1;
        }
        None
    }
}

/// `contains_address` and `is_whitelisted` agree: an address is held exactly
/// when it has a flag.
pub proof fn law_contains_iff_flagged(entries: Seq<WhitelistEntry>, a: Key)
    ensures
        holds_address(entries, a) <==> whitelisted_flag(entries, a) is Some,
{
}

/// After an address is added, the whitelist holds it; an address that was
/// not held before comes back whitelisted.
pub proof fn law_added_address_is_whitelisted(entries: Seq<WhitelistEntry>, a: Key)
    ensures
        holds_address(entries_after_add(entries, a), a),
        !holds_address(entries, a) ==> whitelisted_flag(entries_after_add(entries, a), a)
            == Some(true),
{
    let e = entries_after_add(entries, a);
    if !holds_address(entries, a) {
        let n = entries.len() as int;
        assert(e[n].0 == a);
        assert(is_first_match(e, a, n));
        lemma_first_match_unique(e, a, n);
    }
}

/// The flag an address reads is the flag of the first entry holding it,
/// whatever that entry's amount.
pub proof fn law_lookup_reads_first_flag(entries: Seq<WhitelistEntry>, a: Key, i: int)
    requires
        is_first_match(entries, a, i),
    ensures
        whitelisted_flag(entries, a) == Some(entries[i].2),
{
    lemma_first_match_unique(entries, a, i);
}

/// Adding an address the list does not hold appends exactly one entry at
/// the end, holding the address, amount 0 and the flag set, and keeps every
/// earlier entry as it was; adding an address already held changes nothing.
pub proof fn law_add_appends_fresh_entry(entries: Seq<WhitelistEntry>, a: Key)
    ensures
        !holds_address(entries, a) ==> {
            let e = entries_after_add(entries, a);
            &&& e.len() == entries.len() + 1
            &&& forall|i: int| 0 <= i < entries.len() ==> #[trigger] e[i] == entries[i]
            &&& e[entries.len() as int].0 == a
            &&& e[entries.len() as int].1 == 0
            &&& e[entries.len() as int].2
        },
        holds_address(entries, a) ==> entries_after_add(entries, a) == entries,
{
}

/// Removing an address drops exactly the entry at its first position `k`:
/// the entries before `k` stay where they were and every later entry moves
/// down by one, each keeping its address, amount and flag.
pub proof fn law_remove_drops_first_entry(entries: Seq<WhitelistEntry>, a: Key, k: int)
    requires
        is_first_match(entries, a, k),
    ensures
        ({
            let e = entries_after_remove(entries, a);
            &&& e.len() == entries.len() - 1
            &&& forall|i: int| 0 <= i < k ==> #[trigger] e[i] == entries[i]
            &&& forall|i: int| k <= i < entries.len() - 1 ==> #[trigger] e[i] == entries[i + 1]
        }),
{
    lemma_first_match_unique(entries, a, k);
}

/// Adding keeps every address in at most one entry.
pub proof fn law_add_keeps_addresses_distinct(entries: Seq<WhitelistEntry>, a: Key)
    requires
        distinct_addresses(entries),
    ensures
        distinct_addresses(entries_after_add(entries, a)),
{
    let e = entries_after_add(entries, a);
    if !holds_address(entries, a) {
        assert forall|i: int, j: int| 0 <= i < j < e.len() implies #[trigger] e[i].0
            != #[trigger] e[j].0 by {
            if j == entries.len() {
                assert(entries[i].0 == e[i].0);
            } else {
                assert(entries[i].0 == e[i].0 && entries[j].0 == e[j].0);
            }
        }
    }
}

/// Removing keeps every address in at most one entry.
pub proof fn law_remove_keeps_addresses_distinct(entries: Seq<WhitelistEntry>, a: Key)
    requires
        distinct_addresses(entries),
        holds_address(entries, a),
    ensures
        distinct_addresses(entries_after_remove(entries, a)),
{
    lemma_first_match(entries, a);
    let k = first_match(entries, a);
    let e = entries_after_remove(entries, a);
    assert forall|i: int, j: int| 0 <= i < j < e.len() implies #[trigger] e[i].0
        != #[trigger] e[j].0 by {
        let oi = if i < k { i } else { i + 1 };
        let oj = if j < k { j } else { j + 1 };
        assert(e[i] == entries[oi] && e[j] == entries[oj]);
        assert(entries[oi].0 != entries[oj].0);
    }
}

/// Where no address occurs twice, a removed address is no longer held.
pub proof fn law_removed_address_is_gone(entries: Seq<WhitelistEntry>, a: Key)
    requires
        distinct_addresses(entries),
        holds_address(entries, a),
    ensures
        !holds_address(entries_after_remove(entries, a), a),
        whitelisted_flag(entries_after_remove(entries, a), a) is None,
{
    lemma_first_match(entries, a);
    let k = first_match(entries, a);
    let e = entries_after_remove(entries, a);
    assert forall|i: int| 0 <= i < e.len() implies #[trigger] e[i].0 != a by {
        let oi = if i < k { i } else { i + 1 };
        assert(e[i] == entries[oi]);
        if oi < k {
        } else {
            assert(entries[k].0 != entries[oi].0);
        }
    }
}

/// Removing an address that was just added to a list that did not hold it
/// gives back the list as it was.
pub proof fn law_add_then_remove_restores(entries: Seq<WhitelistEntry>, a: Key)
    requires
        !holds_address(entries, a),
    ensures
        entries_after_remove(entries_after_add(entries, a), a) == entries,
{
    law_added_address_is_whitelisted(entries, a);
    let e = entries_after_add(entries, a);
    let n = entries.len() as int;
    assert(is_first_match(e, a, n));
    lemma_first_match_unique(e, a, n);
    assert(e.remove(n) =~= entries);
}

/// After a resize, the whitelist account holds exactly the rent-exempt
/// minimum for its new size, and its size has moved by one entry.
pub proof fn law_resize_leaves_rent_exempt_minimum(
    data_len: usize,
    lamports: u64,
    is_adding: bool,
    lamports_required: u64,
)
    requires
        spec_realloc_action(data_len, lamports, is_adding, lamports_required) is Some,
    ensures
        ({
            let action = spec_realloc_action(data_len, lamports, is_adding, lamports_required)->0;
            &&& lamports_after(lamports, action) == lamports_required
            &&& len_after(action) == (if is_adding {
                data_len + WHITELIST_ENTRY_SIZE
            } else {
                data_len - WHITELIST_ENTRY_SIZE
            })
        }),
{
}

/// A grow adds one entry's bytes and charges the admin what the account
/// lacks of the new minimum; a shrink takes one entry's bytes off and
/// refunds the admin what the account holds beyond the new minimum. There
/// is no resize exactly where the size would leave the range of `usize` or
/// the account's balance is on the wrong side of the new minimum.
pub proof fn law_resize_amounts(data_len: usize, lamports: u64, is_adding: bool, lamports_required: u64)
    ensures
        is_adding ==> match spec_realloc_action(data_len, lamports, true, lamports_required) {
            Some(ReallocAction::Grow { new_len, lamports_from_admin }) => {
                &&& new_len == data_len + 41
                &&& lamports_from_admin == lamports_required - lamports
            },
            Some(ReallocAction::Shrink { .. }) => false,
            None => data_len + 41 > usize::MAX || lamports_required < lamports,
        },
        !is_adding ==> match spec_realloc_action(data_len, lamports, false, lamports_required) {
            Some(ReallocAction::Shrink { new_len, lamports_to_admin }) => {
                &&& new_len == data_len - 41
                &&& lamports_to_admin == lamports - lamports_required
            },
            Some(ReallocAction::Grow { .. }) => false,
            None => data_len < 41 || lamports < lamports_required,
        },
{
}

/// A resize only moves lamports between the admin and the whitelist
/// account: what one gains the other loses, so their sum is unchanged.
pub proof fn law_resize_conserves_lamports(
    admin_lamports: u64,
    data_len: usize,
    lamports: u64,
    is_adding: bool,
    lamports_required: u64,
)
    requires
        spec_realloc_action(data_len, lamports, is_adding, lamports_required) is Some,
    ensures
        ({
            let action = spec_realloc_action(data_len, lamports, is_adding, lamports_required)->0;
            admin_lamports_after(admin_lamports, action) + lamports_after(lamports, action)
                == admin_lamports + lamports
        }),
{
}

/// Adding an address the list does not hold and then removing it gives back
/// the list, the account's size and its balance, and the shrink refunds what
/// the grow charged; the removal succeeds provided the account held the
/// rent-exempt minimum for its size and that minimum is no more than the one
/// for the grown size.
pub proof fn law_add_then_remove_restores_account(
    entries: Seq<WhitelistEntry>,
    a: Key,
    data_len: usize,
    lamports: u64,
    required_grown: u64,
    required_initial: u64,
)
    requires
        !holds_address(entries, a),
        spec_realloc_action(data_len, lamports, true, required_grown) is Some,
        lamports == required_initial,
        required_initial <= required_grown,
    ensures
        ({
            let grow = spec_realloc_action(data_len, lamports, true, required_grown)->0;
            let shrink = spec_realloc_action(
                len_after(grow),
                lamports_after(lamports, grow) as u64,
                false,
                required_initial,
            );
            &&& holds_address(entries_after_add(entries, a), a)
            &&& entries_after_remove(entries_after_add(entries, a), a) == entries
            &&& shrink is Some
            &&& len_after(shrink->0) == data_len
            &&& lamports_after(lamports_after(lamports, grow) as u64, shrink->0) == lamports
            &&& shrink->0 matches ReallocAction::Shrink { lamports_to_admin, .. }
                && grow matches ReallocAction::Grow { lamports_from_admin, .. }
                && lamports_to_admin == lamports_from_admin
        }),
{
    law_added_address_is_whitelisted(entries, a);
    law_add_then_remove_restores(entries, a);
}

/// The whitelist account's size is a fixed header plus one entry per listed
/// address, and it holds the rent-exempt minimum for that size: an addition
/// keeps both when it is given the minimum for the grown size.
pub proof fn law_add_keeps_size_and_rent(
    entries: Seq<WhitelistEntry>,
    a: Key,
    header: int,
    data_len: usize,
    lamports: u64,
    lamports_required: u64,
)
    requires
        data_len == header + WHITELIST_ENTRY_SIZE * entries.len(),
        !holds_address(entries, a),
        spec_realloc_action(data_len, lamports, true, lamports_required) is Some,
    ensures
        ({
            let action = spec_realloc_action(data_len, lamports, true, lamports_required)->0;
            &&& len_after(action) == header + WHITELIST_ENTRY_SIZE * entries_after_add(
                entries,
                a,
            ).len()
            &&& lamports_after(lamports, action) == lamports_required
        }),
{
}

/// A removal keeps the same two facts when it is given the minimum for the
/// shrunk size.
pub proof fn law_remove_keeps_size_and_rent(
    entries: Seq<WhitelistEntry>,
    a: Key,
    header: int,
    data_len: usize,
    lamports: u64,
    lamports_required: u64,
)
    requires
        data_len == header + WHITELIST_ENTRY_SIZE * entries.len(),
        holds_address(entries, a),
        spec_realloc_action(data_len, lamports, false, lamports_required) is Some,
    ensures
        ({
            let action = spec_realloc_action(data_len, lamports, false, lamports_required)->0;
            &&& len_after(action) == header + WHITELIST_ENTRY_SIZE * entries_after_remove(
                entries,
                a,
            ).len()
            &&& lamports_after(lamports, action) == lamports_required
        }),
{
    lemma_first_match(entries, a);
}

} // verus!
