//! A custodial vault on a ledger of accounts: each user owns one vault, at
//! an address derived from the user's identity, and only the user's
//! signature moves value into it or out of it.
//!
//! The operations are functions of the accounts they are handed: they say
//! whether a creation, a deposit or a withdrawal is admitted, and what the
//! accounts hold afterwards. `vault` holds the operations, `ledger` the
//! transfer of value and the seeds that sign for a vault, `derivation` the
//! vault's address, `laws` what holds of all of them together.
//!
//! One thing is believed and not proved: what the ledger's library derives
//! from given seeds, a hash followed by a test against the curve of the
//! signing keys. `derivation::program_address` names it.

pub mod account;
pub mod address;
pub mod derivation;
pub mod error;
pub mod laws;
pub mod ledger;
pub mod vault;
