//! The ledger's transfer of value, and the seeds that stand in for a
//! vault's signature.

use crate::address::Address;
use crate::derivation::{derive_signer_address, signer_address};
use crate::error::VaultError;
use vstd::prelude::*;

verus! {

/// The seeds that stand in for the signature of a vault, which has no key of
/// its own: the vault tag, the owner's identity and a bump.
#[derive(Clone, Copy, Debug, PartialEq, Eq)]
pub struct SignerSeeds {
    pub owner: Address,
    pub bump: u8,
}

impl SignerSeeds {
    /// The seeds derive exactly `account`.
    pub open spec fn authorize(&self, account: Address) -> bool {
        signer_address(self.owner@, self.bump) == Some(account@)
    }
}

/// Compares the address that presented seeds derive, if they derive one,
/// with the account that is to be debited.
pub fn check_signer_address(recomputed: Option<Address>, account: &Address) -> (r: Result<
    (),
    VaultError,
>)
    ensures
        r == (if recomputed == Some(*account) {
            Ok::<(), VaultError>(())
        } else {
            Err(VaultError::Unauthorized)
        }),
{
    match recomputed {
        Some(address) => {
            if address.equals(account) {
                Ok(())
            } else {
                Err(VaultError::Unauthorized)
            }
        },
        None => Err(VaultError::Unauthorized),
    }
}

/// Admits a debit of `account` under `seeds` only if the seeds, derived
/// afresh, give that very address.
pub fn authorize_with_seeds(seeds: &SignerSeeds, account: &Address) -> (r: Result<(), VaultError>)
    ensures
        r == (if seeds.authorize(*account) {
            Ok::<(), VaultError>(())
        } else {
            Err(VaultError::Unauthorized)
        }),
{
    let recomputed = derive_signer_address(&seeds.owner, seeds.bump);
    proof {
        if let Some(address) = recomputed {
            Address::lemma_view_determines(address, *account);
        }
    }
    check_signer_address(recomputed, account)
}

/// Moves `amount` from a holding of `source` to one of `destination`, whole
/// or not at all. Returns the two holdings after the move, the source's
/// first.
pub fn move_funds(source: u64, destination: u64, amount: u64) -> (r: Result<(u64, u64), VaultError>)
    requires
        source + destination <= u64::MAX,
    ensures
        r == (if source < amount {
            Err::<(u64, u64), VaultError>(VaultError::InsufficientFunds)
        } else {
            Ok(((source - amount) as u64, (destination + amount) as u64))
        }),
{
    if source < amount {
        Err(VaultError::InsufficientFunds)
    } else {
        Ok((source - amount, destination + amount))
    }
}

} // verus!
