//! A user's state account updated from verifiable randomness: the user asks
//! the randomness oracle for a value, and the oracle's callback stores a die
//! roll drawn from it.
use vstd::prelude::*;

use ephemeral_vrf_sdk::instructions::{create_request_randomness_ix, RequestRandomnessParams};
use ephemeral_vrf_sdk::types::SerializableAccountMeta;
use ephemeral_vrf_sdk::Pubkey;

use crate::accounts::{
    check_found_seeds, check_given_bump, key_seed, spec_check_found_seeds, spec_check_given_bump,
    AccountCheckError,
};
use crate::instruction::{readonly, writable, writable_signer, AccountMetaData, TxInstruction};
use crate::keys::{keys_equal, Key};

verus! {

/// The address of this program, which the oracle calls back.
pub const PROGRAM_ID: Key = [
    168, 169, 78, 38, 35, 240, 136, 9, 76, 111, 250, 143, 111, 222, 208, 56, 55, 192, 238, 78, 61,
    234, 147, 163, 145, 109, 107, 145, 227, 164, 168, 115,
];

/// The address of the randomness oracle program.
pub const VRF_PROGRAM_ID: Key = [
    7, 100, 104, 119, 200, 241, 253, 43, 158, 185, 243, 92, 234, 235, 93, 25, 63, 162, 158, 196, 92,
    7, 181, 101, 242, 27, 167, 177, 39, 172, 247, 127,
];

/// The address of the system program.
pub const SYSTEM_PROGRAM_ID: Key = [
    0, 0, 0, 0, 0, 0, 0, 0, 0, 0, 0, 0, 0, 0, 0, 0, 0, 0, 0, 0, 0, 0, 0, 0, 0, 0, 0, 0, 0, 0, 0, 0,
];

/// The address of the slot hashes sysvar.
pub const SLOT_HASHES_ID: Key = [
    6, 167, 213, 23, 25, 47, 10, 175, 198, 242, 101, 227, 251, 119, 204, 122, 218, 130, 197, 41, 208,
    190, 59, 19, 110, 45, 0, 85, 32, 0, 0, 0,
];

/// The instruction selector of the callback that stores a roll and commits
/// the account.
pub const DELEGATED_UPDATE_COMMIT_DISCRIMINATOR: [u8; 8] = [11, 39, 32, 87, 80, 77, 16, 79];

/// The instruction selector of the callback that stores a roll.
pub const UNDELEGATED_UPDATE_DISCRIMINATOR: [u8; 8] = [21, 79, 244, 171, 93, 110, 228, 185];

/// The range of the roll the committing callback stores.
pub const DELEGATED_ROLL_MIN: u8 = 1;

pub const DELEGATED_ROLL_MAX: u8 = 6;

/// The range of the roll the plain callback stores.
pub const UNDELEGATED_ROLL_MIN: u8 = 1;

pub const UNDELEGATED_ROLL_MAX: u8 = 61;

/// The identity account through which the oracle signs its callbacks to
/// this program: the address derived from the seed "identity" and this
/// program's address.
pub const PROGRAM_IDENTITY: Key = [
    253, 14, 67, 69, 96, 229, 190, 120, 216, 91, 25, 130, 93, 202, 212, 48, 192, 150, 156, 27, 45,
    2, 85, 84, 124, 27, 120, 85, 114, 18, 41, 214,
];

/// The oracle's global identity, which signs the callbacks this program
/// accepts.
pub const VRF_PROGRAM_IDENTITY: Key = [
    129, 149, 237, 71, 27, 236, 243, 116, 219, 84, 34, 221, 119, 231, 249, 254, 170, 194, 114, 165,
    249, 93, 38, 97, 146, 155, 47, 105, 113, 22, 94, 252,
];

/// The oracle queue for requests from the base layer.
pub const DEFAULT_QUEUE: Key = [
    176, 242, 103, 240, 220, 124, 68, 181, 2, 196, 54, 75, 234, 77, 57, 13, 125, 145, 34, 180, 223,
    225, 64, 202, 93, 91, 244, 232, 28, 11, 142, 242,
];

/// The oracle queue for requests from the ephemeral rollup.
pub const DEFAULT_EPHEMERAL_QUEUE: Key = [
    69, 185, 193, 160, 226, 118, 43, 231, 240, 17, 186, 10, 117, 95, 214, 26, 143, 3, 61, 185, 132,
    75, 237, 89, 242, 59, 5, 128, 136, 40, 202, 167,
];

/// The ephemeral rollup's context account, through which commits go.
pub const MAGIC_CONTEXT_ID: Key = [
    5, 69, 180, 36, 196, 165, 40, 191, 95, 180, 3, 47, 68, 82, 130, 142, 187, 56, 171, 193, 210, 220,
    151, 247, 63, 139, 148, 84, 128, 0, 0, 0,
];

/// The value drawn by scanning the bytes from position `i - 1` down to 0
/// for the first one below `threshold`, mapped into the range; where none
/// is, the last byte mapped into the range.
pub open spec fn scan_unbiased(
    bytes: Seq<u8>,
    min_value: u8,
    range: int,
    threshold: int,
    i: int,
) -> u8
    decreases i,
{
    if i <= 0 {
        (min_value + (bytes[31] as int) % range) as u8
    } else if (bytes[i - 1] as int) < threshold {
        (min_value + (bytes[i - 1] as int) % range) as u8
    } else {
        scan_unbiased(bytes, min_value, range, threshold, i - 1)
    }
}

/// The value in `[min_value, max_value]` drawn from 32 random bytes: the
/// last byte, scanning from the end, that lies below the largest multiple of
/// the range size not above 256, reduced modulo the range size and offset by
/// `min_value`; the last byte reduced so where no byte qualifies.
pub open spec fn random_u8_in_range(bytes: Seq<u8>, min_value: u8, max_value: u8) -> u8 {
    let range: int = max_value - min_value + 1;
    scan_unbiased(bytes, min_value, range, (256int / range) * range, 32)
}

/// Draws a value in `[min_value, max_value]` from 32 random bytes with
/// `rnd::random_u8_with_range` of the oracle library, which panics unless
/// `min_value <= max_value`, documents its result as lying in that range,
/// and draws it as `random_u8_in_range` states.
#[verifier::external_body]
fn random_u8_with_range(bytes: &[u8; 32], min_value: u8, max_value: u8) -> (r: u8)
    requires
        min_value <= max_value,
    ensures
        r == random_u8_in_range(bytes@, min_value, max_value),
        min_value <= r <= max_value,
{
    ephemeral_vrf_sdk::rnd::random_u8_with_range(bytes, min_value, max_value)
}

/// The four little-endian bytes of a length below 2^32.
pub open spec fn le_u32(n: nat) -> Seq<u8> {
    seq![
        (n % 256) as u8,
        ((n / 256) % 256) as u8,
        ((n / 65536) % 256) as u8,
        ((n / 16777216) % 256) as u8,
    ]
}

/// The byte of a flag: 1 when set, 0 when not.
pub open spec fn flag_byte(b: bool) -> u8 {
    if b {
        1
    } else {
        0
    }
}

/// The account metas, each as its address, its signer byte and its writable
/// byte, one after another.
pub open spec fn encode_metas(metas: Seq<AccountMetaData>) -> Seq<u8>
    decreases metas.len(),
{
    if metas.len() == 0 {
        seq![]
    } else {
        let m = metas.last();
        encode_metas(metas.drop_last()) + m.pubkey@ + seq![
            flag_byte(m.is_signer),
            flag_byte(m.is_writable),
        ]
    }
}

/// A request for randomness, as the oracle takes it.
#[derive(Clone, Debug, PartialEq, Eq)]
pub struct RandomnessRequest {
    pub payer: Key,
    pub oracle_queue: Key,
    pub callback_program_id: Key,
    pub callback_discriminator: Vec<u8>,
    pub callback_accounts: Vec<AccountMetaData>,
    pub caller_seed: [u8; 32],
}

impl RandomnessRequest {
    /// The data of the request instruction: the selector of a regular
    /// request padded to eight bytes, then the caller's seed, the callback
    /// program, the callback selector and the callback accounts, each list
    /// preceded by its length, and an empty list of callback arguments.
    pub open spec fn data(self) -> Seq<u8> {
        seq![10u8, 0, 0, 0, 0, 0, 0, 0] + self.caller_seed@ + self.callback_program_id@ + le_u32(
            self.callback_discriminator@.len(),
        ) + self.callback_discriminator@ + le_u32(self.callback_accounts@.len()) + encode_metas(
            self.callback_accounts@,
        ) + le_u32(0)
    }

    /// The accounts of the request instruction: the payer, the oracle's
    /// identity for this program (the callback program), the oracle queue, the system
    /// program and the slot hashes sysvar.
    pub open spec fn accounts(self) -> Seq<AccountMetaData> {
        seq![
            writable_signer(self.payer),
            AccountMetaData { pubkey: PROGRAM_IDENTITY, is_signer: true, is_writable: false },
            writable(self.oracle_queue),
            readonly(SYSTEM_PROGRAM_ID),
            readonly(SLOT_HASHES_ID),
        ]
    }
}

/// Builds the instruction that asks the oracle for randomness, with
/// `create_request_randomness_ix` of the oracle library: a regular-priority
/// request to the oracle program, whose data is the borsh encoding of the
/// request after its selector, and whose second account is the identity
/// derived for the callback program. The encoding of a list panics on more
/// than 2^32 - 1 items. The callback program is this one, whose identity is
/// derived with the first bump seed tried.
#[verifier::external_body]
fn request_randomness_ix(request: &RandomnessRequest) -> (r: TxInstruction)
    requires
        request.callback_program_id == PROGRAM_ID,
        request.callback_discriminator@.len() < 0x1_0000_0000,
        request.callback_accounts@.len() < 0x1_0000_0000,
    ensures
        r.program_id == VRF_PROGRAM_ID,
        r.accounts@ == request.accounts(),
        r.data@ == request.data(),
{
    let metas = request.callback_accounts.iter().map(|m| SerializableAccountMeta {
        pubkey: Pubkey::from(m.pubkey), is_signer: m.is_signer, is_writable: m.is_writable }).collect();
    let ix = create_request_randomness_ix(RequestRandomnessParams { payer: Pubkey::from(request.payer),
        oracle_queue: Pubkey::from(request.oracle_queue), callback_program_id: Pubkey::from(request.callback_program_id),
        callback_discriminator: request.callback_discriminator.clone(), accounts_metas: Some(metas),
        caller_seed: request.caller_seed, callback_args: None });
    TxInstruction { program_id: ix.program_id.to_bytes(), data: ix.data, accounts: ix.accounts.iter().map(|m|
        AccountMetaData { pubkey: m.pubkey.to_bytes(), is_signer: m.is_signer, is_writable: m.is_writable }).collect() }
}

/// The user's state account.
#[derive(Clone, Copy, Debug, PartialEq, Eq)]
pub struct UserAccount {
    /// The last value stored, here the last roll.
    pub data: u64,
    pub bump: u8,
}

impl UserAccount {
    /// Stores `value` as the account's data.
    pub fn record_result(&mut self, value: u8)
        ensures
            *final(self) == (UserAccount { data: value as u64, ..*old(self) }),
    {
        self.data = value as u64;
    }
}

/// The accounts of the oracle's callback to an account delegated to the
/// ephemeral rollup, as far as the logic reads them.
#[derive(Clone, Copy, Debug, PartialEq, Eq)]
pub struct CallBackDelegated {
    pub vrf_program_identity: Key,
    pub user_account: UserAccount,
    /// The ephemeral rollup's context account, through which the commit goes.
    pub magic_context: Key,
}

/// The accounts of the oracle's callback to an account on the base layer,
/// as far as the logic reads them.
#[derive(Clone, Copy, Debug, PartialEq, Eq)]
pub struct CallBackUnDelegated {
    pub vrf_program_identity: Key,
    pub user_account: UserAccount,
}

/// The checks on a callback's oracle identity, in the order they are made:
/// it must sign, and it must be the oracle's identity.
pub open spec fn spec_check_callback_identity(identity: Key, identity_is_signer: bool) -> Result<
    (),
    AccountCheckError,
> {
    if !identity_is_signer {
        Err(AccountCheckError::AccountNotSigner)
    } else if identity != VRF_PROGRAM_IDENTITY {
        Err(AccountCheckError::ConstraintAddress)
    } else {
        Ok(())
    }
}

/// Checks a callback's oracle identity.
pub fn check_callback_identity(identity: &Key, identity_is_signer: bool) -> (r: Result<
    (),
    AccountCheckError,
>)
    ensures
        r == spec_check_callback_identity(*identity, identity_is_signer),
{
    if !identity_is_signer {
        Err(AccountCheckError::AccountNotSigner)
    } else if !keys_equal(identity, &VRF_PROGRAM_IDENTITY) {
        Err(AccountCheckError::ConstraintAddress)
    } else {
        Ok(())
    }
}

/// The checks on the delegated callback's accounts, in the order they are
/// made: those on the oracle identity, then the rollup's context account
/// must be at its address.
pub open spec fn spec_check_delegated_callback(
    identity: Key,
    identity_is_signer: bool,
    magic_context: Key,
) -> Result<(), AccountCheckError> {
    match spec_check_callback_identity(identity, identity_is_signer) {
        Err(e) => Err(e),
        Ok(()) => if magic_context != MAGIC_CONTEXT_ID {
            Err(AccountCheckError::ConstraintAddress)
        } else {
            Ok(())
        },
    }
}

/// The seeds of a user's state account: "user" and the user's address.
pub open spec fn user_account_seeds(user: Key) -> Seq<Seq<u8>> {
    seq![seq![117u8, 115, 101, 114], user@]
}

/// The seeds of this program's identity: "identity".
pub open spec fn identity_seeds() -> Seq<Seq<u8>> {
    seq![seq![105u8, 100, 101, 110, 116, 105, 116, 121]]
}

/// The checks on a randomness request's accounts, in the order they are
/// made: the user must sign; the state account must be at the address its seeds and recorded
/// bump give; the oracle queue must be `expected_queue`; the program's
/// identity must be at the address found for its seed; the slot hashes
/// account must be the sysvar's.
pub open spec fn spec_check_request_accounts(
    user: Key,
    user_is_signer: bool,
    user_account: Key,
    user_account_bump: u8,
    oracle_queue: Key,
    expected_queue: Key,
    program_identity: Key,
    slot_hashes: Key,
) -> Result<(), AccountCheckError> {
    if !user_is_signer {
        Err(AccountCheckError::AccountNotSigner)
    } else {
        match spec_check_given_bump(user_account, user_account_seeds(user), user_account_bump, PROGRAM_ID) {
            Err(e) => Err(e),
            Ok(()) => if oracle_queue != expected_queue {
                Err(AccountCheckError::ConstraintAddress)
            } else {
                match spec_check_found_seeds(program_identity, identity_seeds(), PROGRAM_ID) {
                    Err(e) => Err(e),
                    Ok(_) => if slot_hashes != SLOT_HASHES_ID {
                        Err(AccountCheckError::ConstraintAddress)
                    } else {
                        Ok(())
                    },
                }
            },
        }
    }
}

/// Checks a randomness request's accounts.
pub fn check_request_accounts(
    user: &Key,
    user_is_signer: bool,
    user_account: &Key,
    user_account_bump: u8,
    oracle_queue: &Key,
    expected_queue: &Key,
    program_identity: &Key,
    slot_hashes: &Key,
) -> (r: Result<(), AccountCheckError>)
    ensures
        r == spec_check_request_accounts(
            *user,
            user_is_signer,
            *user_account,
            user_account_bump,
            *oracle_queue,
            *expected_queue,
            *program_identity,
            *slot_hashes,
        ),
{
    if !user_is_signer {
        return Err(AccountCheckError::AccountNotSigner);
    }
    let user_literal: Vec<u8> = vec![117u8, 115, 101, 114];
    let user_bytes = key_seed(user);
    assert(user_literal.deep_view() =~= seq![117u8, 115, 101, 114]);
    assert(user_bytes.deep_view() =~= user@);
    let seeds = vec![user_literal, user_bytes];
    assert(seeds.deep_view() =~= user_account_seeds(*user));
    match check_given_bump(user_account, seeds, user_account_bump, &PROGRAM_ID) {
        Err(e) => Err(e),
        Ok(()) => {
            if !keys_equal(oracle_queue, expected_queue) {
                return Err(AccountCheckError::ConstraintAddress);
            }
            let identity_literal: Vec<u8> = vec![105u8, 100, 101, 110, 116, 105, 116, 121];
            assert(identity_literal.deep_view() =~= identity_seeds()[0]);
            let identity = vec![identity_literal];
            assert(identity.deep_view() =~= identity_seeds());
            match check_found_seeds(program_identity, &identity, &PROGRAM_ID) {
                Err(e) => Err(e),
                Ok(_) => {
                    if !keys_equal(slot_hashes, &SLOT_HASHES_ID) {
                        Err(AccountCheckError::ConstraintAddress)
                    } else {
                        Ok(())
                    }
                },
            }
        },
    }
}

impl CallBackDelegated {
    /// Checks that the callback comes from the oracle, its identity signing
    /// and being the oracle's, and that the commit goes through the
    /// rollup's context account.
    pub fn check_constraints(&self, identity_is_signer: bool) -> (r: Result<(), AccountCheckError>)
        ensures
            r == spec_check_delegated_callback(
                self.vrf_program_identity,
                identity_is_signer,
                self.magic_context,
            ),
    {
        match check_callback_identity(&self.vrf_program_identity, identity_is_signer) {
            Err(e) => Err(e),
            Ok(()) => {
                if !keys_equal(&self.magic_context, &MAGIC_CONTEXT_ID) {
                    Err(AccountCheckError::ConstraintAddress)
                } else {
                    Ok(())
                }
            },
        }
    }
}

impl CallBackUnDelegated {
    /// Checks that the callback comes from the oracle: its identity signs
    /// and is the oracle's.
    pub fn check_constraints(&self, identity_is_signer: bool) -> (r: Result<(), AccountCheckError>)
        ensures
            r == spec_check_callback_identity(self.vrf_program_identity, identity_is_signer),
    {
        check_callback_identity(&self.vrf_program_identity, identity_is_signer)
    }
}

impl CallBackDelegated {
    /// Stores a roll from 1 to 6 drawn from the oracle's random bytes. The
    /// caller then commits the account to the base layer.
    pub fn delegated_update_commit(&mut self, randomness: [u8; 32])
        ensures
            final(self).vrf_program_identity == old(self).vrf_program_identity,
            final(self).magic_context == old(self).magic_context,
            final(self).user_account == (UserAccount {
                data: random_u8_in_range(randomness@, DELEGATED_ROLL_MIN, DELEGATED_ROLL_MAX) as u64,
                ..old(self).user_account
            }),
            DELEGATED_ROLL_MIN <= final(self).user_account.data <= DELEGATED_ROLL_MAX,
    {
        let rnd_u8 = random_u8_with_range(&randomness, DELEGATED_ROLL_MIN, DELEGATED_ROLL_MAX);
        self.user_account.record_result(rnd_u8);
    }
}

impl CallBackUnDelegated {
    /// Stores a roll from 1 to 61 drawn from the oracle's random bytes.
    pub fn undelegated_update(&mut self, randomness: [u8; 32])
        ensures
            final(self).vrf_program_identity == old(self).vrf_program_identity,
            final(self).user_account == (UserAccount {
                data: random_u8_in_range(randomness@, UNDELEGATED_ROLL_MIN, UNDELEGATED_ROLL_MAX)
                    as u64,
                ..old(self).user_account
            }),
            UNDELEGATED_ROLL_MIN <= final(self).user_account.data <= UNDELEGATED_ROLL_MAX,
    {
        let rnd_u8 = random_u8_with_range(&randomness, UNDELEGATED_ROLL_MIN, UNDELEGATED_ROLL_MAX);
        self.user_account.record_result(rnd_u8);
    }
}

/// The request that asks for randomness on behalf of `user` for the account
/// `user_account`, to be delivered to this program's callback with
/// `discriminator`; the caller's seed is the low byte of `seed`, 32 times.
pub open spec fn spec_randomness_request(
    user: Key,
    user_account: Key,
    oracle_queue: Key,
    discriminator: Seq<u8>,
    seed: u64,
    request: RandomnessRequest,
) -> bool {
    &&& request.payer == user
    &&& request.oracle_queue == oracle_queue
    &&& request.callback_program_id == PROGRAM_ID
    &&& request.callback_discriminator@ == discriminator
    &&& request.callback_accounts@ == seq![writable(user_account)]
    &&& request.caller_seed@ == Seq::new(32, |i: int| seed as u8)
}

/// A request is paid for by the user, goes to the queue given, calls back
/// this program with the selector given, and hands the callback exactly one
/// account: the user's state account, written and not signing.
pub proof fn law_request_targets_the_state_account(
    user: Key,
    user_account: Key,
    oracle_queue: Key,
    discriminator: Seq<u8>,
    seed: u64,
    request: RandomnessRequest,
)
    requires
        spec_randomness_request(user, user_account, oracle_queue, discriminator, seed, request),
    ensures
        request.payer == user,
        request.oracle_queue == oracle_queue,
        request.callback_program_id == PROGRAM_ID,
        request.callback_discriminator@ == discriminator,
        request.callback_accounts@.len() == 1,
        request.callback_accounts@[0].pubkey == user_account,
        !request.callback_accounts@[0].is_signer,
        request.callback_accounts@[0].is_writable,
{
}

/// A request's caller seed is 32 copies of the seed's low byte, the seed
/// modulo 256, and so are bytes 8 to 40 of the request instruction's data.
pub proof fn law_caller_seed_is_low_byte(
    user: Key,
    user_account: Key,
    oracle_queue: Key,
    discriminator: Seq<u8>,
    seed: u64,
    request: RandomnessRequest,
)
    requires
        spec_randomness_request(user, user_account, oracle_queue, discriminator, seed, request),
    ensures
        request.caller_seed@.len() == 32,
        forall|i: int| 0 <= i < 32 ==> #[trigger] request.caller_seed@[i] as int == seed % 256,
        request.data().subrange(8, 40) == Seq::new(32, |i: int| (seed % 256) as u8),
{
    assert((seed as u8) as int == seed % 256) by (bit_vector);
    assert(request.data().subrange(8, 40) =~= request.caller_seed@);
    assert(request.caller_seed@ =~= Seq::new(32, |i: int| (seed % 256) as u8));
}

/// Builds the request for randomness described by `spec_randomness_request`.
pub fn randomness_request(
    user: Key,
    user_account: Key,
    oracle_queue: Key,
    discriminator: [u8; 8],
    seed: u64,
) -> (r: RandomnessRequest)
    ensures
        spec_randomness_request(user, user_account, oracle_queue, discriminator@, seed, r),
{
    let low: u8 = seed as u8;
    let caller_seed: [u8; 32] = [low; 32];
    let mut callback_discriminator: Vec<u8> = Vec::new();
    let mut i: usize = 0;
    while i < 8
        invariant
            0 <= i <= 8,
            callback_discriminator@ == discriminator@.subrange(0, i as int),
        decreases 8 - i,
    {
        callback_discriminator.push(discriminator[i]);
        i = i + 1;
    }
    assert(discriminator@.subrange(0, 8) =~= discriminator@);
    let callback_accounts = vec![
        AccountMetaData { pubkey: user_account, is_signer: false, is_writable: true },
    ];
    assert(callback_accounts@ =~= seq![writable(user_account)]);
    assert(caller_seed@ =~= Seq::new(32, |i: int| seed as u8));
    RandomnessRequest {
        payer: user,
        oracle_queue,
        callback_program_id: PROGRAM_ID,
        callback_discriminator,
        callback_accounts,
        caller_seed,
    }
}

/// The accounts of a randomness request whose answer is delivered to a
/// delegated account and committed, as far as the logic reads them.
#[derive(Clone, Copy, Debug, PartialEq, Eq)]
pub struct VrfUpdateCommit {
    pub user: Key,
    pub user_is_signer: bool,
    pub user_account: Key,
    /// The bump recorded in the state account's data.
    pub user_account_bump: u8,
    pub oracle_queue: Key,
    pub program_identity: Key,
    pub slot_hashes: Key,
    /// The ephemeral rollup's context account.
    pub magic_context: Key,
}

/// The accounts of a randomness request whose answer is delivered to an
/// account on the base layer, as far as the logic reads them.
#[derive(Clone, Copy, Debug, PartialEq, Eq)]
pub struct VrfUpdate {
    pub user: Key,
    pub user_is_signer: bool,
    pub user_account: Key,
    /// The bump recorded in the state account's data.
    pub user_account_bump: u8,
    pub oracle_queue: Key,
    pub program_identity: Key,
    pub slot_hashes: Key,
}

impl VrfUpdateCommit {
    /// Checks the request's accounts, with the ephemeral rollup's oracle
    /// queue, and then that the rollup's context account is at its address.
    pub fn check_constraints(&self) -> (r: Result<(), AccountCheckError>)
        ensures
            r == match spec_check_request_accounts(
                self.user,
                self.user_is_signer,
                self.user_account,
                self.user_account_bump,
                self.oracle_queue,
                DEFAULT_EPHEMERAL_QUEUE,
                self.program_identity,
                self.slot_hashes,
            ) {
                Err(e) => Err(e),
                Ok(()) => if self.magic_context != MAGIC_CONTEXT_ID {
                    Err(AccountCheckError::ConstraintAddress)
                } else {
                    Ok(())
                },
            },
    {
        match check_request_accounts(
            &self.user,
            self.user_is_signer,
            &self.user_account,
            self.user_account_bump,
            &self.oracle_queue,
            &DEFAULT_EPHEMERAL_QUEUE,
            &self.program_identity,
            &self.slot_hashes,
        ) {
            Err(e) => Err(e),
            Ok(()) => {
                if !keys_equal(&self.magic_context, &MAGIC_CONTEXT_ID) {
                    Err(AccountCheckError::ConstraintAddress)
                } else {
                    Ok(())
                }
            },
        }
    }

    /// The instruction that asks the oracle for randomness, to be delivered
    /// to the committing callback. The caller invokes it, signed for by the
    /// program's identity.
    pub fn request_randomness(&self, seed: u64) -> (r: TxInstruction)
        ensures
            exists|request: RandomnessRequest|
                spec_randomness_request(
                    self.user,
                    self.user_account,
                    self.oracle_queue,
                    DELEGATED_UPDATE_COMMIT_DISCRIMINATOR@,
                    seed,
                    request,
                ) && r.program_id == VRF_PROGRAM_ID && r.accounts@ == request.accounts()
                    && r.data@ == request.data(),
    {
        let request = randomness_request(
            self.user,
            self.user_account,
            self.oracle_queue,
            DELEGATED_UPDATE_COMMIT_DISCRIMINATOR,
            seed,
        );
        request_randomness_ix(&request)
    }
}

impl VrfUpdate {
    /// Checks the request's accounts, with the base layer's oracle queue.
    pub fn check_constraints(&self) -> (r: Result<(), AccountCheckError>)
        ensures
            r == spec_check_request_accounts(
                self.user,
                self.user_is_signer,
                self.user_account,
                self.user_account_bump,
                self.oracle_queue,
                DEFAULT_QUEUE,
                self.program_identity,
                self.slot_hashes,
            ),
    {
        check_request_accounts(
            &self.user,
            self.user_is_signer,
            &self.user_account,
            self.user_account_bump,
            &self.oracle_queue,
            &DEFAULT_QUEUE,
            &self.program_identity,
            &self.slot_hashes,
        )
    }

    /// The instruction that asks the oracle for randomness, to be delivered
    /// to the plain callback. The caller invokes it, signed for by the
    /// program's identity.
    pub fn request_randomness_undelegated(&self, seed: u64) -> (r: TxInstruction)
        ensures
            exists|request: RandomnessRequest|
                spec_randomness_request(
                    self.user,
                    self.user_account,
                    self.oracle_queue,
                    UNDELEGATED_UPDATE_DISCRIMINATOR@,
                    seed,
                    request,
                ) && r.program_id == VRF_PROGRAM_ID && r.accounts@ == request.accounts()
                    && r.data@ == request.data(),
    {
        let request = randomness_request(
            self.user,
            self.user_account,
            self.oracle_queue,
            UNDELEGATED_UPDATE_DISCRIMINATOR,
            seed,
        );
        request_randomness_ix(&request)
    }
}

} // verus!
