//! Why operations are refused.

use vstd::prelude::*;

verus! {

/// Why an operation on a vault was refused. A refused operation changes
/// nothing.
#[derive(Clone, Copy, Debug, PartialEq, Eq, Structural)]
pub enum VaultError {
    /// The presented vault address or bump is not what the user's identity
    /// derives, or that identity derives no address at all.
    DerivationMismatch,
    /// The vault to create exists already.
    AccountAlreadyInitialized,
    /// The source of a transfer holds less than the amount asked for.
    InsufficientFunds,
    /// The user did not sign the operation, or the seeds presented in a
    /// vault's place do not derive the account to debit.
    Unauthorized,
    /// A deposit was asked for at an address that holds no vault yet.
    VaultNotFound,
}

/// The result of an operation that `rejection` describes: `Ok` where nothing
/// was objected to.
pub open spec fn outcome(rejection: Option<VaultError>) -> Result<(), VaultError> {
    match rejection {
        Some(e) => Err(e),
        None => Ok(()),
    }
}

} // verus!
