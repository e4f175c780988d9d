//! What holds of the operations on a vault, whatever the accounts and the
//! amounts.

use crate::address::Address;
use crate::derivation::{
    derives, lemma_largest_bump, signer_address, vault_derivation, vault_seeds, PROGRAM_ID,
};
use crate::error::VaultError;
use crate::vault::{
    access_rejection, deposit_after, deposit_rejection, initialize_after, initialize_rejection,
    vault_belongs_to, withdraw_after, withdraw_rejection, Deposit, InitializeVault, Withdraw,
};
use vstd::prelude::*;

verus! {

/// A vault's address and bump depend on the user's identity alone: whatever
/// two derivations for one identity return, they return the same.
pub proof fn rederivation_agrees(
    user: Address,
    first: Option<(Address, u8)>,
    second: Option<(Address, u8)>,
)
    requires
        derives(user, first),
        derives(user, second),
    ensures
        first == second,
{
    if let Some((a, _)) = first {
        if let Some((b, _)) = second {
            Address::lemma_view_determines(a, b);
        }
    }
}

/// The canonical bump of a vault derives the vault's address without a
/// search, and it is the largest bump that derives any address.
pub proof fn canonical_bump_is_largest(user: Address, vault: Address, bump: u8)
    requires
        vault_derivation(user@) == Some((vault@, bump)),
    ensures
        bump >= 1,
        signer_address(user@, bump) == Some(vault@),
        forall|larger: u8| larger > bump ==> signer_address(user@, larger) is None,
{
    lemma_largest_bump(vault_seeds(user@), PROGRAM_ID@, u8::MAX);
}

/// A vault is created once. After a creation that was not refused, another
/// one for the same user and the same vault is refused as already
/// initialized, whatever the user now holds and whatever funding is now asked
/// for, and the vault stays as the first creation left it.
pub proof fn second_creation_is_refused(first: InitializeVault, second: InitializeVault)
    requires
        initialize_rejection(first) is None,
        second.vault == initialize_after(first).vault,
        second.user.key == first.user.key,
        second.user.is_signer,
    ensures
        initialize_rejection(second) == Some(VaultError::AccountAlreadyInitialized),
        initialize_after(second) == second,
{
}

/// Deposits add up exactly. Two deposits of `a` and of `b`, which together
/// do not exceed what the user holds, are both accepted; they raise the
/// vault's balance by `a + b` and lower the user's holdings by as much, as
/// one deposit of `a + b` does.
pub proof fn deposits_add_up(ctx: Deposit, a: u64, b: u64)
    requires
        ctx.wf(),
        access_rejection(ctx.user, ctx.vault) is None,
        ctx.vault.state is Active,
        a + b <= ctx.user.lamports,
    ensures
        deposit_rejection(ctx, a) is None,
        deposit_rejection(deposit_after(ctx, a), b) is None,
        deposit_after(deposit_after(ctx, a), b).vault.state.balance() == ctx.vault.state.balance()
            + a + b,
        deposit_after(deposit_after(ctx, a), b).user.lamports == ctx.user.lamports - a - b,
        deposit_after(deposit_after(ctx, a), b) == deposit_after(ctx, (a + b) as u64),
{
}

/// A withdrawal never takes a balance below zero. A request for more than
/// the vault's balance is refused and changes nothing; where the accounts
/// are in order, the refusal is for insufficient funds.
pub proof fn overdraft_is_refused(ctx: Withdraw, amount: u64)
    requires
        amount > ctx.vault.state.balance(),
    ensures
        withdraw_rejection(ctx, amount) is Some,
        withdraw_after(ctx, amount) == ctx,
        access_rejection(ctx.user, ctx.vault) is None ==> withdraw_rejection(ctx, amount) == Some(
            VaultError::InsufficientFunds,
        ),
{
}

/// Withdrawals that follow one another never take more than the vault
/// holds. Of two requests that together ask for more than the balance, the
/// second is refused for insufficient funds if the first was accepted, and
/// what was withdrawn in all stays within the balance.
pub proof fn withdrawals_never_overdraw(ctx: Withdraw, a: u64, b: u64)
    requires
        a + b > ctx.vault.state.balance(),
        withdraw_rejection(ctx, a) is None,
    ensures
        withdraw_rejection(withdraw_after(ctx, a), b) == Some(VaultError::InsufficientFunds),
        withdraw_after(withdraw_after(ctx, a), b).vault.state.balance()
            == ctx.vault.state.balance() - a,
{
}

/// Nobody withdraws from another user's vault. A withdrawal that presents a
/// vault which the user's own identity does not derive, or the wrong bump
/// for it, is refused whatever the amount: as unauthorized where the user
/// did not sign, else as a derivation mismatch. The vault is left as it was.
pub proof fn foreign_vault_is_out_of_reach(ctx: Withdraw, amount: u64)
    requires
        !vault_belongs_to(ctx.vault, ctx.user.key),
    ensures
        withdraw_rejection(ctx, amount) == Some(
            if ctx.user.is_signer {
                VaultError::DerivationMismatch
            } else {
                VaultError::Unauthorized
            },
        ),
        withdraw_after(ctx, amount) == ctx,
{
}

/// What was deposited can be withdrawn again. After a deposit that was not
/// refused, a withdrawal of the same amount is not refused either, and it
/// leaves both accounts as they were before the deposit.
pub proof fn deposit_then_withdraw_restores(ctx: Deposit, amount: u64)
    requires
        ctx.wf(),
        deposit_rejection(ctx, amount) is None,
    ensures
        ({
            let deposited = deposit_after(ctx, amount);
            let request = Withdraw { user: deposited.user, vault: deposited.vault };
            &&& withdraw_rejection(request, amount) is None
            &&& withdraw_after(request, amount).user == ctx.user
            &&& withdraw_after(request, amount).vault == ctx.vault
        }),
{
}

/// The life of a vault runs one way. A creation that is not refused brings
/// the vault into existence; after that no operation, accepted or refused,
/// removes it, and no transfer reaches a vault that was never created.
pub proof fn vault_is_never_destroyed(
    creation: InitializeVault,
    deposit: Deposit,
    withdrawal: Withdraw,
    amount: u64,
)
    ensures
        initialize_rejection(creation) is None ==> initialize_after(creation).vault.state is Active,
        creation.vault.state is Active ==> initialize_after(creation) == creation,
        deposit.vault.state is Active ==> deposit_after(deposit, amount).vault.state is Active,
        withdrawal.vault.state is Active ==> withdraw_after(withdrawal, amount).vault.state
            is Active,
        deposit.vault.state is Uninitialized ==> deposit_after(deposit, amount) == deposit,
        withdrawal.vault.state is Uninitialized ==> withdraw_after(withdrawal, amount)
            == withdrawal,
{
}

} // verus!
