//! The three operations on a vault: its creation, deposits and withdrawals.

use crate::account::{supply, UserAccount, VaultAccount, VaultState};
use crate::address::Address;
use crate::derivation::{
    derive_vault_address, lemma_largest_bump, vault_derivation, vault_seeds, PROGRAM_ID,
};
use crate::error::{outcome, VaultError};
use crate::ledger::{authorize_with_seeds, move_funds, SignerSeeds};
use vstd::prelude::*;

verus! {

/// The bytes that a vault's account takes on the ledger. A vault carries no
/// data of its own, only value.
pub const VAULT_SPACE: usize = 8;

/// The accounts of a vault's creation, and what the ledger asks for keeping
/// an account of `VAULT_SPACE` bytes in existence.
#[derive(Clone, Copy, Debug, PartialEq, Eq)]
pub struct InitializeVault {
    pub vault: VaultAccount,
    pub user: UserAccount,
    pub existence_funding: u64,
}

/// The accounts of a deposit.
#[derive(Clone, Copy, Debug, PartialEq, Eq)]
pub struct Deposit {
    pub user: UserAccount,
    pub vault: VaultAccount,
}

/// The accounts of a withdrawal.
#[derive(Clone, Copy, Debug, PartialEq, Eq)]
pub struct Withdraw {
    pub user: UserAccount,
    pub vault: VaultAccount,
}

impl InitializeVault {
    /// All that the two accounts hold.
    pub open spec fn supply(&self) -> int {
        supply(self.user, self.vault)
    }
}

impl Deposit {
    /// All that the two accounts hold.
    pub open spec fn supply(&self) -> int {
        supply(self.user, self.vault)
    }

    /// The two accounts are views of one ledger, whose whole supply fits in
    /// a `u64`.
    pub open spec fn wf(&self) -> bool {
        self.supply() <= u64::MAX
    }
}

impl Withdraw {
    /// All that the two accounts hold.
    pub open spec fn supply(&self) -> int {
        supply(self.user, self.vault)
    }

    /// The two accounts are views of one ledger, whose whole supply fits in
    /// a `u64`.
    pub open spec fn wf(&self) -> bool {
        self.supply() <= u64::MAX
    }
}

/// The presented vault is the one that the identity `user` derives, under
/// the canonical bump.
pub open spec fn vault_belongs_to(vault: VaultAccount, user: Address) -> bool {
    vault_derivation(user@) == Some((vault.key@, vault.bump))
}

/// Why the accounts of an operation are refused, if they are: the user must
/// have signed, and the vault must be the user's own.
pub open spec fn access_rejection(user: UserAccount, vault: VaultAccount) -> Option<VaultError> {
    if !user.is_signer {
        Some(VaultError::Unauthorized)
    } else if !vault_belongs_to(vault, user.key) {
        Some(VaultError::DerivationMismatch)
    } else {
        None
    }
}

/// Why a creation is refused, if it is: the first of the accounts' defects,
/// a vault that exists already, a user who cannot pay for its existence.
pub open spec fn initialize_rejection(ctx: InitializeVault) -> Option<VaultError> {
    if access_rejection(ctx.user, ctx.vault) is Some {
        access_rejection(ctx.user, ctx.vault)
    } else if ctx.vault.state is Active {
        Some(VaultError::AccountAlreadyInitialized)
    } else if ctx.user.lamports < ctx.existence_funding {
        Some(VaultError::InsufficientFunds)
    } else {
        None
    }
}

/// The accounts after a creation that was asked for: where it was not
/// refused, the vault exists with nothing to withdraw, and the user has paid
/// for its existence.
pub open spec fn initialize_after(ctx: InitializeVault) -> InitializeVault {
    if initialize_rejection(ctx) is Some {
        ctx
    } else {
        InitializeVault {
            vault: VaultAccount {
                state: VaultState::Active {
                    existence_funding: ctx.existence_funding,
                    balance: 0,
                },
                ..ctx.vault
            },
            user: UserAccount {
                lamports: (ctx.user.lamports - ctx.existence_funding) as u64,
                ..ctx.user
            },
            ..ctx
        }
    }
}

/// Why a deposit is refused, if it is: the first of the accounts' defects, a
/// vault that was never created, a user who holds less than `amount`.
pub open spec fn deposit_rejection(ctx: Deposit, amount: u64) -> Option<VaultError> {
    if access_rejection(ctx.user, ctx.vault) is Some {
        access_rejection(ctx.user, ctx.vault)
    } else if ctx.vault.state is Uninitialized {
        Some(VaultError::VaultNotFound)
    } else if ctx.user.lamports < amount {
        Some(VaultError::InsufficientFunds)
    } else {
        None
    }
}

/// The accounts after a deposit that was asked for: where it was not
/// refused, `amount` has left the user for the vault's balance.
pub open spec fn deposit_after(ctx: Deposit, amount: u64) -> Deposit {
    match ctx.vault.state {
        VaultState::Active { existence_funding, balance } if deposit_rejection(ctx, amount)
            is None => Deposit {
            user: UserAccount { lamports: (ctx.user.lamports - amount) as u64, ..ctx.user },
            vault: VaultAccount {
                state: VaultState::Active {
                    existence_funding,
                    balance: (balance + amount) as u64,
                },
                ..ctx.vault
            },
        },
        _ => ctx,
    }
}

/// Why a withdrawal is refused, if it is: the first of the accounts'
/// defects, a balance below `amount`. Where no vault was created the
/// balance is nothing.
pub open spec fn withdraw_rejection(ctx: Withdraw, amount: u64) -> Option<VaultError> {
    if access_rejection(ctx.user, ctx.vault) is Some {
        access_rejection(ctx.user, ctx.vault)
    } else if ctx.vault.state.balance() < amount {
        Some(VaultError::InsufficientFunds)
    } else {
        None
    }
}

/// The accounts after a withdrawal that was asked for: where it was not
/// refused, `amount` has left the vault's balance for the user. Where no
/// vault was created, only a withdrawal of nothing is not refused, and it
/// changes nothing.
pub open spec fn withdraw_after(ctx: Withdraw, amount: u64) -> Withdraw {
    match ctx.vault.state {
        VaultState::Active { existence_funding, balance } if withdraw_rejection(ctx, amount)
            is None => Withdraw {
            user: UserAccount { lamports: (ctx.user.lamports + amount) as u64, ..ctx.user },
            vault: VaultAccount {
                state: VaultState::Active {
                    existence_funding,
                    balance: (balance - amount) as u64,
                },
                ..ctx.vault
            },
        },
        _ => ctx,
    }
}

/// Compares a derivation's result with the address and bump that a caller
/// presented: both must agree.
pub fn match_vault_address(derived: Option<(Address, u8)>, vault: &VaultAccount) -> (r: Result<
    (),
    VaultError,
>)
    ensures
        r == (if derived == Some((vault.key, vault.bump)) {
            Ok::<(), VaultError>(())
        } else {
            Err(VaultError::DerivationMismatch)
        }),
{
    match derived {
        Some((address, bump)) => {
            if bump == vault.bump && address.equals(&vault.key) {
                Ok(())
            } else {
                Err(VaultError::DerivationMismatch)
            }
        },
        None => Err(VaultError::DerivationMismatch),
    }
}

/// Checks the accounts that every operation takes: the user's signature, and
/// the vault's address and bump against a fresh derivation.
pub fn check_access(user: &UserAccount, vault: &VaultAccount) -> (r: Result<(), VaultError>)
    ensures
        r == outcome(access_rejection(*user, *vault)),
{
    if !user.is_signer {
        return Err(VaultError::Unauthorized);
    }
    let derived = derive_vault_address(&user.key);
    proof {
        if let Some((address, _)) = derived {
            Address::lemma_view_determines(address, vault.key);
        }
    }
    match_vault_address(derived, vault)
}

/// The seeds of a vault that belongs to `user` derive the vault's own
/// address: the canonical bump is one that derives it.
pub proof fn lemma_own_seeds_authorize(vault: VaultAccount, user: Address)
    requires
        vault_belongs_to(vault, user),
    ensures
        (SignerSeeds { owner: user, bump: vault.bump }).authorize(vault.key),
{
    lemma_largest_bump(vault_seeds(user@), PROGRAM_ID@, u8::MAX);
}

/// Creates the vault of the user who signed, at the address that the user's
/// identity derives. The user pays what the ledger asks for the account's
/// existence; the vault starts with nothing to withdraw. A refused creation
/// changes nothing.
pub fn initialize_vault(ctx: &mut InitializeVault) -> (r: Result<(), VaultError>)
    ensures
        r == outcome(initialize_rejection(*old(ctx))),
        *final(ctx) == initialize_after(*old(ctx)),
        r is Err ==> *final(ctx) == *old(ctx),
        r is Ok ==> final(ctx).vault.state == (VaultState::Active {
            existence_funding: old(ctx).existence_funding,
            balance: 0,
        }) && final(ctx).user.lamports == old(ctx).user.lamports - old(ctx).existence_funding,
        final(ctx).supply() == old(ctx).supply(),
{
    match check_access(&ctx.user, &ctx.vault) {
        Err(e) => {
            return Err(e);
        },
        Ok(()) => {},
    }
    match ctx.vault.state {
        VaultState::Active { .. } => Err(VaultError::AccountAlreadyInitialized),
        VaultState::Uninitialized => {
            match move_funds(ctx.user.lamports, 0, ctx.existence_funding) {
                Err(e) => Err(e),
                Ok((remaining, paid)) => {
                    ctx.user.lamports = remaining;
                    ctx.vault.state = VaultState::Active { existence_funding: paid, balance: 0 };
                    Ok(())
                },
            }
        },
    }
}

/// Moves `amount` from the user who signed into the user's own vault, whole
/// or not at all. A refused deposit changes nothing.
pub fn deposit(ctx: &mut Deposit, amount: u64) -> (r: Result<(), VaultError>)
    requires
        old(ctx).wf(),
    ensures
        r == outcome(deposit_rejection(*old(ctx), amount)),
        *final(ctx) == deposit_after(*old(ctx), amount),
        r is Err ==> *final(ctx) == *old(ctx),
        r is Ok ==> final(ctx).vault.state.balance() == old(ctx).vault.state.balance() + amount
            && final(ctx).user.lamports == old(ctx).user.lamports - amount,
        final(ctx).supply() == old(ctx).supply(),
{
    match check_access(&ctx.user, &ctx.vault) {
        Err(e) => {
            return Err(e);
        },
        Ok(()) => {},
    }
    match ctx.vault.state {
        VaultState::Uninitialized => Err(VaultError::VaultNotFound),
        VaultState::Active { existence_funding, balance } => {
            match move_funds(ctx.user.lamports, balance, amount) {
                Err(e) => Err(e),
                Ok((remaining, grown)) => {
                    ctx.user.lamports = remaining;
                    ctx.vault.state = VaultState::Active { existence_funding, balance: grown };
                    Ok(())
                },
            }
        },
    }
}

/// Moves `amount` from the vault to its user, whole or not at all. The vault
/// has no key to sign with: the seeds that derive it are presented in its
/// place, and derived again before the vault is debited. A refused
/// withdrawal changes nothing.
pub fn withdraw(ctx: &mut Withdraw, amount: u64) -> (r: Result<(), VaultError>)
    requires
        old(ctx).wf(),
    ensures
        r == outcome(withdraw_rejection(*old(ctx), amount)),
        *final(ctx) == withdraw_after(*old(ctx), amount),
        r is Err ==> *final(ctx) == *old(ctx),
        r is Ok ==> final(ctx).vault.state.balance() == old(ctx).vault.state.balance() - amount
            && final(ctx).user.lamports == old(ctx).user.lamports + amount,
        final(ctx).supply() == old(ctx).supply(),
{
    match check_access(&ctx.user, &ctx.vault) {
        Err(e) => {
            return Err(e);
        },
        Ok(()) => {},
    }
    let seeds = SignerSeeds { owner: ctx.user.key, bump: ctx.vault.bump };
    proof {
        lemma_own_seeds_authorize(ctx.vault, ctx.user.key);
    }
    match authorize_with_seeds(&seeds, &ctx.vault.key) {
        Err(e) => {
            return Err(e);
        },
        Ok(()) => {},
    }
    match move_funds(ctx.vault.state.balance(), ctx.user.lamports, amount) {
        Err(e) => Err(e),
        Ok((remaining, grown)) => {
            if let VaultState::Active { existence_funding, .. } = ctx.vault.state {
                ctx.vault.state = VaultState::Active { existence_funding, balance: remaining };
                ctx.user.lamports = grown;
            }
            Ok(())
        },
    }
}

} // verus!
