//! The accounts that an operation on a vault reads and changes.

use crate::address::Address;
use vstd::prelude::*;

verus! {

/// A user's own account as one operation sees it.
#[derive(Clone, Copy, Debug, PartialEq, Eq)]
pub struct UserAccount {
    /// The user's identity.
    pub key: Address,
    /// Whether the user signed the operation.
    pub is_signer: bool,
    /// What the user can spend.
    pub lamports: u64,
}

/// What stands at a vault's address. A vault is created once and never
/// destroyed.
#[derive(Clone, Copy, Debug, PartialEq, Eq, Structural)]
pub enum VaultState {
    /// No vault has been created.
    Uninitialized,
    /// The vault exists. `existence_funding` is what the user paid at its
    /// creation to keep the account in existence: it stays in the vault and
    /// cannot be withdrawn. `balance` is what the user can withdraw.
    Active { existence_funding: u64, balance: u64 },
}

impl VaultState {
    /// All that the ledger holds at the vault's address.
    pub open spec fn lamports(self) -> int {
        match self {
            VaultState::Uninitialized => 0,
            VaultState::Active { existence_funding, balance } => existence_funding + balance,
        }
    }

    /// The state that the ledger's record of an address stands for. Where an
    /// account exists there, its `lamports` cover what its existence costs
    /// first, and the rest is the balance.
    pub open spec fn of_record(exists: bool, lamports: u64, existence_cost: u64) -> VaultState {
        if !exists {
            VaultState::Uninitialized
        } else if lamports < existence_cost {
            VaultState::Active { existence_funding: lamports, balance: 0 }
        } else {
            VaultState::Active {
                existence_funding: existence_cost,
                balance: (lamports - existence_cost) as u64,
            }
        }
    }

    /// Reads the state off the ledger's record of an address: whether an
    /// account exists there, what it holds, and what its existence costs.
    pub fn from_record(exists: bool, lamports: u64, existence_cost: u64) -> (r: VaultState)
        ensures
            r == VaultState::of_record(exists, lamports, existence_cost),
            exists ==> r.lamports() == lamports,
    {
        if !exists {
            VaultState::Uninitialized
        } else if lamports < existence_cost {
            VaultState::Active { existence_funding: lamports, balance: 0 }
        } else {
            VaultState::Active {
                existence_funding: existence_cost,
                balance: lamports - existence_cost,
            }
        }
    }

    /// What the user can withdraw: nothing where no vault exists.
    pub open spec fn spec_balance(&self) -> u64 {
        match *self {
            VaultState::Uninitialized => 0,
            VaultState::Active { balance, .. } => balance,
        }
    }

    /// What the user can withdraw: nothing where no vault exists.
    #[verifier::when_used_as_spec(spec_balance)]
    pub fn balance(&self) -> (r: u64)
        ensures
            r == self.spec_balance(),
    {
        match *self {
            VaultState::Uninitialized => 0,
            VaultState::Active { balance, .. } => balance,
        }
    }
}

/// The account at the address that a caller presents as a vault's, with the
/// bump that the caller claims for it.
#[derive(Clone, Copy, Debug, PartialEq, Eq)]
pub struct VaultAccount {
    /// The address presented as the vault's.
    pub key: Address,
    /// The bump presented with it.
    pub bump: u8,
    /// What stands at that address.
    pub state: VaultState,
}

/// All that the two accounts of an operation hold.
pub open spec fn supply(user: UserAccount, vault: VaultAccount) -> int {
    user.lamports + vault.state.lamports()
}

/// Whether the two accounts can be views of one ledger, whose whole supply
/// fits in a `u64`. The operations on a vault ask for it.
pub fn supply_fits(user: &UserAccount, vault: &VaultAccount) -> (r: bool)
    ensures
        r == (supply(*user, *vault) <= u64::MAX),
{
    match vault.state {
        VaultState::Uninitialized => true,
        VaultState::Active { existence_funding, balance } => {
            match existence_funding.checked_add(balance) {
                None => false,
                Some(held) => held.checked_add(user.lamports).is_some(),
            }
        },
    }
}

} // verus!
