//! The framework's checks on an instruction's accounts that the programs
//! rely on, and the program-derived addresses those checks compare against.
use vstd::prelude::*;

use anchor_lang::prelude::Pubkey;

use crate::keys::Key;

verus! {

/// A failed framework check on an instruction's accounts.
#[derive(Clone, Copy, Debug, PartialEq, Eq)]
pub enum AccountCheckError {
    /// An account is not at the address its seeds derive.
    ConstraintSeeds,
    /// An account that must sign did not.
    AccountNotSigner,
    /// An account is not at the address required of it.
    ConstraintAddress,
    /// No bump seed gives an address for the seeds: the framework aborts.
    NoViableBump,
}

impl AccountCheckError {
    /// The error's number as the framework reports it; an abort has none.
    pub fn code(&self) -> (r: Option<u32>)
        ensures
            r == match self {
                AccountCheckError::ConstraintSeeds => Some(2006u32),
                AccountCheckError::AccountNotSigner => Some(3010u32),
                AccountCheckError::ConstraintAddress => Some(2012u32),
                AccountCheckError::NoViableBump => None,
            },
    {
        match self {
            AccountCheckError::ConstraintSeeds => Some(2006),
            AccountCheckError::AccountNotSigner => Some(3010),
            AccountCheckError::ConstraintAddress => Some(2012),
            AccountCheckError::NoViableBump => None,
        }
    }
}

/// A failed check on an instruction's accounts: the framework's, or one with
/// a program's own error.
#[derive(Clone, Copy, Debug, PartialEq, Eq)]
pub enum CheckFailure<E> {
    /// One of the framework's checks failed.
    Framework(AccountCheckError),
    /// A constraint with the program's own error failed.
    Program(E),
}

/// The address derived from `seeds` under `program_id` with the highest
/// bump seed that gives one, and that bump; `None` where no bump does or
/// the seeds are too many or too long.
pub uninterp spec fn found_program_address(seeds: Seq<Seq<u8>>, program_id: Key) -> Option<
    (Key, u8),
>;

/// The address derived from `seeds` (the last of which is the bump) under
/// `program_id`; `None` where they give no address or are too many or too
/// long.
pub uninterp spec fn created_program_address(seeds: Seq<Seq<u8>>, program_id: Key) -> Option<
    Key,
>;

/// Searches for a program-derived address with
/// `Pubkey::try_find_program_address`, the search that the framework's
/// `find_program_address` makes before it aborts on `None`. The source
/// tries bumps from 255 down, and returns the first address that
/// `create_program_address` gives for the seeds followed by the bump.
#[verifier::external_body]
pub fn find_program_address(seeds: &Vec<Vec<u8>>, program_id: &Key) -> (r: Option<(Key, u8)>)
    ensures
        r == found_program_address(seeds.deep_view(), *program_id),
        r matches Some((k, b)) ==> created_program_address(
            seeds.deep_view().push(seq![b]),
            *program_id,
        ) == Some(k),
{
    let s: Vec<&[u8]> = seeds.iter().map(|x| x.as_slice()).collect();
    Pubkey::try_find_program_address(&s, &Pubkey::from(*program_id)).map(|(k, b)| (k.to_bytes(), b))
}

/// Derives a program address from seeds that end with the bump, with
/// `Pubkey::create_program_address`; an error becomes `None`.
#[verifier::external_body]
pub fn create_program_address(seeds: &Vec<Vec<u8>>, program_id: &Key) -> (r: Option<Key>)
    ensures
        r == created_program_address(seeds.deep_view(), *program_id),
{
    let s: Vec<&[u8]> = seeds.iter().map(|x| x.as_slice()).collect();
    Pubkey::create_program_address(&s, &Pubkey::from(*program_id)).ok().map(|k| k.to_bytes())
}

/// The framework's check of an account derived from `seeds` with the bump
/// found for them: the account must be at the address found.
pub open spec fn spec_check_found_seeds(account: Key, seeds: Seq<Seq<u8>>, program_id: Key) -> Result<
    u8,
    AccountCheckError,
> {
    match found_program_address(seeds, program_id) {
        None => Err(AccountCheckError::NoViableBump),
        Some((k, b)) => if account != k {
            Err(AccountCheckError::ConstraintSeeds)
        } else {
            Ok(b)
        },
    }
}

/// The framework's check of an account derived from `seeds` and a bump
/// given by the account's data: the account must be at the address they
/// give.
pub open spec fn spec_check_given_bump(
    account: Key,
    seeds: Seq<Seq<u8>>,
    bump: u8,
    program_id: Key,
) -> Result<(), AccountCheckError> {
    match created_program_address(seeds.push(seq![bump]), program_id) {
        Some(k) if k == account => Ok(()),
        _ => Err(AccountCheckError::ConstraintSeeds),
    }
}

/// Checks an account derived from `seeds` with the bump found for them, and
/// gives that bump.
pub fn check_found_seeds(account: &Key, seeds: &Vec<Vec<u8>>, program_id: &Key) -> (r: Result<
    u8,
    AccountCheckError,
>)
    ensures
        r == spec_check_found_seeds(*account, seeds.deep_view(), *program_id),
        r matches Ok(b) ==> created_program_address(seeds.deep_view().push(seq![b]), *program_id)
            == Some(*account),
{
    match find_program_address(seeds, program_id) {
        None => Err(AccountCheckError::NoViableBump),
        Some((k, b)) => {
            if !crate::keys::keys_equal(account, &k) {
                Err(AccountCheckError::ConstraintSeeds)
            } else {
                Ok(b)
            }
        },
    }
}

/// Checks an account derived from `seeds` and the bump `bump`.
pub fn check_given_bump(account: &Key, seeds: Vec<Vec<u8>>, bump: u8, program_id: &Key) -> (r:
    Result<(), AccountCheckError>)
    ensures
        r == spec_check_given_bump(*account, seeds.deep_view(), bump, *program_id),
{
    let ghost given = seeds.deep_view();
    let mut with_bump = seeds;
    let last: Vec<u8> = vec![bump];
    with_bump.push(last);
    assert(last.deep_view() =~= seq![bump]);
    assert(with_bump.deep_view() =~= given.push(seq![bump]));
    match create_program_address(&with_bump, program_id) {
        Some(k) => {
            if crate::keys::keys_equal(account, &k) {
                Ok(())
            } else {
                Err(AccountCheckError::ConstraintSeeds)
            }
        },
        None => Err(AccountCheckError::ConstraintSeeds),
    }
}

/// The bytes of an address, as a seed.
pub fn key_seed(k: &Key) -> (r: Vec<u8>)
    ensures
        r@ == k@,
{
    let mut v: Vec<u8> = Vec::new();
    let mut i: usize = 0;
    while i < 32
        invariant
            0 <= i <= 32,
            v@ == k@.subrange(0, i as int),
        decreases 32 - i,
    {
        v.push(k[i]);
        i = i + 1;
    }
    assert(k@.subrange(0, 32) =~= k@);
    v
}

/// An account at the address found for its seeds, whose data records the
/// bump found, passes the check made with the recorded bump.
pub proof fn law_found_address_passes_given_bump_check(
    account: Key,
    seeds: Seq<Seq<u8>>,
    program_id: Key,
    bump: u8,
)
    requires
        spec_check_found_seeds(account, seeds, program_id) == Ok::<u8, AccountCheckError>(bump),
        forall|k: Key, b: u8|
            found_program_address(seeds, program_id) == Some((k, b)) ==> created_program_address(
                seeds.push(seq![b]),
                program_id,
            ) == Some(k),
    ensures
        spec_check_given_bump(account, seeds, bump, program_id) == Ok::<(), AccountCheckError>(()),
{
}

} // verus!
