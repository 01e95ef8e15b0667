//! Verified account logic of a set of on-chain programs: a gated vault whose
//! whitelist holds many addresses, a per-user whitelist flag checked by a
//! token transfer hook, the scheduling of a whitelist removal on a task
//! queue, and a state account updated from verifiable randomness.

pub mod keys;
pub mod accounts;
pub mod instruction;
pub mod gated_vault;
pub mod transfer_hook;
pub mod schedule;
pub mod vrf;
