//! Instructions as plain values: the program they call, the accounts they
//! name and their data.
use vstd::prelude::*;

use crate::keys::Key;

verus! {

/// One account that an instruction names, and how it uses it.
#[derive(Clone, Copy, Debug, PartialEq, Eq)]
pub struct AccountMetaData {
    pub pubkey: Key,
    pub is_signer: bool,
    pub is_writable: bool,
}

/// An instruction to a program.
#[derive(Clone, Debug, PartialEq, Eq)]
pub struct TxInstruction {
    pub program_id: Key,
    pub accounts: Vec<AccountMetaData>,
    pub data: Vec<u8>,
}

/// An account that is written and signs.
pub open spec fn writable_signer(k: Key) -> AccountMetaData {
    AccountMetaData { pubkey: k, is_signer: true, is_writable: true }
}

/// An account that is written and does not sign.
pub open spec fn writable(k: Key) -> AccountMetaData {
    AccountMetaData { pubkey: k, is_signer: false, is_writable: true }
}

/// An account that is only read and does not sign.
pub open spec fn readonly(k: Key) -> AccountMetaData {
    AccountMetaData { pubkey: k, is_signer: false, is_writable: false }
}

} // verus!
