//! Protocol-wide guarantees, stated and proved over the transition contracts.

use vstd::prelude::*;
use crate::accounts::TokenAccount;
use crate::accounts::vault_balance;
use crate::engine::CompleteGrant;
use crate::engine::EscrowError;
use crate::engine::Initiate;
use crate::engine::PullBackInstruction;
use crate::engine::complete_grant_guard;
use crate::engine::initiate_guard;
use crate::engine::initiated;
use crate::engine::pull_back_guard;
use crate::engine::resolved;
use crate::engine::transferred;
use crate::key::Key;

verus! {

/// Conservation at the custody routine: a successful transfer debits the
/// vault by exactly the amount it credits the destination.
pub proof fn lemma_transfer_conserves(
    pre_vault: TokenAccount,
    pre_dest: TokenAccount,
    amount: u64,
    post_vault: Option<TokenAccount>,
    post_dest: TokenAccount,
)
    requires
        transferred(pre_vault, pre_dest, amount, post_vault, post_dest),
    ensures
        vault_balance(Some(pre_vault)) - vault_balance(post_vault) == amount,
        post_dest.amount - pre_dest.amount == amount,
{
}

/// Conservation across the lifecycle: after a successful `initiate` of
/// `amount` followed by one successful `pull_back` on the resulting escrow,
/// the sender's refund wallet was credited with exactly `amount` — all that
/// was reserved is released, and the vault is gone.
pub proof fn lemma_conservation_pull_back(
    program: Seq<u8>,
    pre: Initiate,
    signer: Key,
    amount: u64,
    record_salt: u8,
    vault_salt: u8,
    mid: Initiate,
    ctx: PullBackInstruction,
    resolving_signer: Key,
    post_vault: Option<TokenAccount>,
    post_dest: TokenAccount,
)
    requires
        initiate_guard(program, pre, signer, record_salt, vault_salt) is None,
        initiated(program, pre, amount, record_salt, vault_salt, mid),
        ctx.escrow_wallet_state == mid.escrow_wallet_state,
        pull_back_guard(program, ctx, resolving_signer) is None,
        resolved(ctx.escrow_wallet_state, ctx.refund_wallet, post_vault, post_dest),
    ensures
        post_dest.amount == ctx.refund_wallet.amount + amount,
        vault_balance(ctx.escrow_wallet_state) - vault_balance(post_vault) == amount,
        post_vault is None,
{
}

/// Conservation across the lifecycle, for the grant resolution: after a
/// successful `initiate` of `amount` followed by one successful
/// `complete_grant`, the receiver's deposit account was credited with exactly
/// `amount`, and the vault is gone.
pub proof fn lemma_conservation_complete_grant(
    program: Seq<u8>,
    pre: Initiate,
    signer: Key,
    amount: u64,
    record_salt: u8,
    vault_salt: u8,
    mid: Initiate,
    ctx: CompleteGrant,
    resolving_signer: Key,
    post_vault: Option<TokenAccount>,
    post_dest: TokenAccount,
)
    requires
        initiate_guard(program, pre, signer, record_salt, vault_salt) is None,
        initiated(program, pre, amount, record_salt, vault_salt, mid),
        ctx.escrow_wallet_state == mid.escrow_wallet_state,
        complete_grant_guard(program, ctx, resolving_signer) is None,
        resolved(ctx.escrow_wallet_state, ctx.wallet_to_deposit_to, post_vault, post_dest),
    ensures
        post_dest.amount == ctx.wallet_to_deposit_to.amount + amount,
        vault_balance(ctx.escrow_wallet_state) - vault_balance(post_vault) == amount,
        post_vault is None,
{
}

/// Mutual exclusivity: once either resolution has succeeded the vault is
/// gone, so a `complete_grant` reading that state fails — for every signer —
/// and fails with `AlreadyResolved` when the receiver signs and the supplied
/// accounts match the record.
pub proof fn lemma_grant_after_resolution_rejected(
    program: Seq<u8>,
    pre_vault: Option<TokenAccount>,
    pre_dest: TokenAccount,
    post_vault: Option<TokenAccount>,
    post_dest: TokenAccount,
    ctx: CompleteGrant,
    signer: Key,
)
    requires
        resolved(pre_vault, pre_dest, post_vault, post_dest),
        ctx.escrow_wallet_state == post_vault,
    ensures
        complete_grant_guard(program, ctx, signer) is Some,
        (signer@ == ctx.user_receiving@ && ctx.application_state.user_sending@
            == ctx.user_sending@ && ctx.application_state.user_receiving@ == ctx.user_receiving@
            && ctx.application_state.mint_of_token_being_sent@ == ctx.mint_of_token_being_sent@)
            ==> complete_grant_guard(program, ctx, signer) == Some(EscrowError::AlreadyResolved),
{
}

/// Mutual exclusivity: once either resolution has succeeded the vault is
/// gone, so a `pull_back` reading that state fails — for every signer — and
/// fails with `AlreadyResolved` when the sender signs and the supplied
/// accounts match the record.
pub proof fn lemma_refund_after_resolution_rejected(
    program: Seq<u8>,
    pre_vault: Option<TokenAccount>,
    pre_dest: TokenAccount,
    post_vault: Option<TokenAccount>,
    post_dest: TokenAccount,
    ctx: PullBackInstruction,
    signer: Key,
)
    requires
        resolved(pre_vault, pre_dest, post_vault, post_dest),
        ctx.escrow_wallet_state == post_vault,
    ensures
        pull_back_guard(program, ctx, signer) is Some,
        (signer@ == ctx.user_sending@ && ctx.application_state.user_sending@ == ctx.user_sending@
            && ctx.application_state.user_receiving@ == ctx.user_receiving@
            && ctx.application_state.mint_of_token_being_sent@ == ctx.mint_of_token_being_sent@)
            ==> pull_back_guard(program, ctx, signer) == Some(EscrowError::AlreadyResolved),
{
}

/// Conditional close: a successful custody transfer closes the vault exactly
/// when the balance it leaves behind is zero; a transfer of the full balance
/// therefore always closes it.
pub proof fn lemma_conditional_close(
    pre_vault: TokenAccount,
    pre_dest: TokenAccount,
    amount: u64,
    post_vault: Option<TokenAccount>,
    post_dest: TokenAccount,
)
    requires
        transferred(pre_vault, pre_dest, amount, post_vault, post_dest),
    ensures
        post_vault is None <==> pre_vault.amount - amount == 0,
        amount == pre_vault.amount ==> post_vault is None,
{
}

/// Authorization of the refund: `pull_back` under any signature but the
/// sender's — the receiver's included — fails with `AuthorizationFailure`.
pub proof fn lemma_pull_back_requires_sender(
    program: Seq<u8>,
    ctx: PullBackInstruction,
    signer: Key,
)
    requires
        signer@ != ctx.user_sending@,
    ensures
        pull_back_guard(program, ctx, signer) == Some(EscrowError::AuthorizationFailure),
{
}

/// Authorization of the grant: `complete_grant` under any signature but the
/// receiver's — the sender's included — fails with `AuthorizationFailure`.
pub proof fn lemma_complete_grant_requires_receiver(
    program: Seq<u8>,
    ctx: CompleteGrant,
    signer: Key,
)
    requires
        signer@ != ctx.user_receiving@,
    ensures
        complete_grant_guard(program, ctx, signer) == Some(EscrowError::AuthorizationFailure),
{
}

} // verus!
