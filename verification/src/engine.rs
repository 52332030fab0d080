//! The escrow lifecycle state machine.
//!
//! Three transitions act on an escrow: `initiate` creates the record and the
//! vault and funds the vault from the sender's wallet; `pull_back` returns
//! the vault's balance to the sender; `complete_grant` pays it out to the
//! receiver's associated deposit account. The two resolutions share one
//! custody routine, `transfer_escrow_out`, which moves funds out of the vault
//! under the derived protocol authority and closes the vault once drained.
//!
//! Every transition is all-or-nothing: when a check fails, the transition
//! returns the error and leaves every account exactly as it was.

use vstd::prelude::*;
use crate::accounts::State;
use crate::accounts::TokenAccount;
use crate::accounts::vault_balance;
use crate::addressing::associated_account;
use crate::addressing::associated_address_of;
use crate::addressing::derive_address;
use crate::addressing::record_id;
use crate::addressing::record_tag_bytes;
use crate::addressing::vault_id;
use crate::addressing::vault_tag_bytes;
use crate::key::Key;

verus! {

/// Why a transition was rejected. Every failure aborts the whole transition
/// with no side effects.
#[derive(Clone, Copy, Debug, PartialEq, Eq, Structural)]
pub enum EscrowError {
    /// A derived address is already occupied, so the escrow for this triple
    /// cannot be created (again).
    AddressCollision,
    /// A supplied account does not match the stored triple or the account the
    /// protocol derives for the transition.
    RecordMismatch,
    /// The wrong party signed, or a derivation proof does not match the
    /// authority an account is under.
    AuthorizationFailure,
    /// A source or destination account holds a different asset than the
    /// escrowed one.
    AssetTypeMismatch,
    /// The vault is gone: the escrow was already resolved.
    AlreadyResolved,
}

/// The accounts read and written by `initiate`.
///
/// `application_state` and `escrow_wallet_state` carry what the ledger holds
/// at the derived record and vault addresses: `None` when the address is
/// vacant, which is the only state in which `initiate` may create the escrow.
#[derive(Clone, Copy, Debug)]
pub struct Initiate {
    /// Content of the derived record address, if occupied.
    pub application_state: Option<State>,
    /// Content of the derived vault address, if occupied.
    pub escrow_wallet_state: Option<TokenAccount>,
    /// The sender funding the escrow.
    pub user_sending: Key,
    /// The intended beneficiary.
    pub user_receiving: Key,
    /// The asset being escrowed.
    pub mint_of_token_being_sent: Key,
    /// The sender's wallet that funds the escrow.
    pub wallet_to_withdraw_from: TokenAccount,
}

/// The accounts read and written by `pull_back`.
#[derive(Clone, Copy, Debug)]
pub struct PullBackInstruction {
    /// The escrow record; it persists even after resolution.
    pub application_state: State,
    /// The vault slot: `None` once the vault has been closed.
    pub escrow_wallet_state: Option<TokenAccount>,
    /// The sender reclaiming the escrow.
    pub user_sending: Key,
    /// The receiver named by the escrow.
    pub user_receiving: Key,
    /// The asset being escrowed.
    pub mint_of_token_being_sent: Key,
    /// The sender-owned wallet that receives the refund.
    pub refund_wallet: TokenAccount,
}

/// The accounts read and written by `complete_grant`.
#[derive(Clone, Copy, Debug)]
pub struct CompleteGrant {
    /// The escrow record; it persists even after resolution.
    pub application_state: State,
    /// The vault slot: `None` once the vault has been closed.
    pub escrow_wallet_state: Option<TokenAccount>,
    /// The receiver's associated deposit account for the asset.
    pub wallet_to_deposit_to: TokenAccount,
    /// The sender named by the escrow.
    pub user_sending: Key,
    /// The receiver collecting the escrow.
    pub user_receiving: Key,
    /// The asset being escrowed.
    pub mint_of_token_being_sent: Key,
}

/// Why the custody routine rejects, checked in this order: a missing vault,
/// then an authority proof that does not match the vault's owner, then a
/// destination holding the wrong asset.
pub open spec fn transfer_guard(
    program: Seq<u8>,
    sender: Seq<u8>,
    receiver: Seq<u8>,
    asset: Seq<u8>,
    state_bump: u8,
    vault: Option<TokenAccount>,
    dest: TokenAccount,
) -> Option<EscrowError> {
    match vault {
        None => Some(EscrowError::AlreadyResolved),
        Some(w) => if Some(w.owner@) != record_id(program, sender, receiver, asset, state_bump) {
            Some(EscrowError::AuthorizationFailure)
        } else if dest.mint@ != w.mint@ {
            Some(EscrowError::AssetTypeMismatch)
        } else {
            None
        },
    }
}

/// What a successful custody transfer of `amount` did: the destination was
/// credited with exactly `amount` and otherwise untouched; the vault was
/// debited by `amount`, and closed exactly when that left its balance zero.
pub open spec fn transferred(
    pre_vault: TokenAccount,
    pre_dest: TokenAccount,
    amount: u64,
    post_vault: Option<TokenAccount>,
    post_dest: TokenAccount,
) -> bool {
    &&& post_dest.key == pre_dest.key
    &&& post_dest.owner == pre_dest.owner
    &&& post_dest.mint == pre_dest.mint
    &&& post_dest.amount == pre_dest.amount + amount
    &&& (post_vault is None <==> pre_vault.amount == amount)
    &&& (post_vault matches Some(w) ==> {
        &&& w.key == pre_vault.key
        &&& w.owner == pre_vault.owner
        &&& w.mint == pre_vault.mint
        &&& w.amount == pre_vault.amount - amount
    })
}

/// Moves `amount` out of the vault to `destination_wallet`, authorized by the
/// protocol authority re-derived from the triple and the record's stored
/// salt. After the debit, the vault is closed exactly when its balance is
/// zero; the residual account is reclaimed for the sender. On any failure
/// nothing moves.
pub fn transfer_escrow_out(
    program_id: &Key,
    user_sending: &Key,
    user_receiving: &Key,
    mint_of_token_being_sent: &Key,
    escrow_wallet: &mut Option<TokenAccount>,
    state_bump: u8,
    destination_wallet: &mut TokenAccount,
    amount: u64,
) -> (r: Result<(), EscrowError>)
    requires
        amount <= vault_balance(*old(escrow_wallet)),
        old(destination_wallet).amount + amount <= u64::MAX,
    ensures
        match transfer_guard(
            program_id@,
            user_sending@,
            user_receiving@,
            mint_of_token_being_sent@,
            state_bump,
            *old(escrow_wallet),
            *old(destination_wallet),
        ) {
            Some(e) => {
                &&& r == Err::<(), EscrowError>(e)
                &&& *final(escrow_wallet) == *old(escrow_wallet)
                &&& *final(destination_wallet) == *old(destination_wallet)
            },
            None => {
                &&& r is Ok
                &&& *old(escrow_wallet) matches Some(w) && transferred(
                    w,
                    *old(destination_wallet),
                    amount,
                    *final(escrow_wallet),
                    *final(destination_wallet),
                )
            },
        },
{
    let w = match *escrow_wallet {
        Some(w) => w,
        None => {
            return Err(EscrowError::AlreadyResolved);
        },
    };
    let tag = record_tag_bytes();
    let authority_ok = match derive_address(
        program_id,
        &tag,
        user_sending,
        user_receiving,
        mint_of_token_being_sent,
        state_bump,
    ) {
        Some(authority) => authority == w.owner,
        None => false,
    };
    if !authority_ok {
        return Err(EscrowError::AuthorizationFailure);
    }
    if !(destination_wallet.mint == w.mint) {
        return Err(EscrowError::AssetTypeMismatch);
    }
    let remaining = w.amount - amount;
    destination_wallet.amount = destination_wallet.amount + amount;
    if remaining == 0 {
        *escrow_wallet = None;
    } else {
        *escrow_wallet = Some(
            TokenAccount { key: w.key, owner: w.owner, mint: w.mint, amount: remaining },
        );
    }
    Ok(())
}

/// Why `initiate` rejects, checked in this order: a signature that is not the
/// sender's; a salt under which the record or the vault has no derivable
/// address; an already-occupied record or vault address; a source wallet the
/// sender does not own; a source wallet holding the wrong asset.
pub open spec fn initiate_guard(
    program: Seq<u8>,
    ctx: Initiate,
    signer: Key,
    record_salt: u8,
    vault_salt: u8,
) -> Option<EscrowError> {
    let s = ctx.user_sending@;
    let rv = ctx.user_receiving@;
    let m = ctx.mint_of_token_being_sent@;
    if signer@ != s {
        Some(EscrowError::AuthorizationFailure)
    } else if record_id(program, s, rv, m, record_salt) is None {
        Some(EscrowError::AuthorizationFailure)
    } else if vault_id(program, s, rv, m, vault_salt) is None {
        Some(EscrowError::AuthorizationFailure)
    } else if ctx.application_state is Some || ctx.escrow_wallet_state is Some {
        Some(EscrowError::AddressCollision)
    } else if ctx.wallet_to_withdraw_from.owner@ != s {
        Some(EscrowError::AuthorizationFailure)
    } else if ctx.wallet_to_withdraw_from.mint@ != m {
        Some(EscrowError::AssetTypeMismatch)
    } else {
        None
    }
}

/// What a successful `initiate` created: a record binding the triple, the
/// reserved amount, the vault address and both salts; a vault at the derived
/// vault address, under the derived record authority, holding exactly
/// `amount`; and the source wallet debited by `amount`. Nothing else moved.
pub open spec fn initiated(
    program: Seq<u8>,
    pre: Initiate,
    amount: u64,
    record_salt: u8,
    vault_salt: u8,
    post: Initiate,
) -> bool {
    let s = pre.user_sending@;
    let rv = pre.user_receiving@;
    let m = pre.mint_of_token_being_sent@;
    &&& post.user_sending == pre.user_sending
    &&& post.user_receiving == pre.user_receiving
    &&& post.mint_of_token_being_sent == pre.mint_of_token_being_sent
    &&& post.application_state matches Some(st) && {
        &&& st.user_sending == pre.user_sending
        &&& st.user_receiving == pre.user_receiving
        &&& st.mint_of_token_being_sent == pre.mint_of_token_being_sent
        &&& Some(st.escrow_wallet@) == vault_id(program, s, rv, m, vault_salt)
        &&& st.amount_tokens == amount
        &&& st.application_state_bump == record_salt
        &&& st.escrow_wallet_state_bump == vault_salt
    }
    &&& post.escrow_wallet_state matches Some(w) && {
        &&& Some(w.key@) == vault_id(program, s, rv, m, vault_salt)
        &&& Some(w.owner@) == record_id(program, s, rv, m, record_salt)
        &&& w.mint == pre.mint_of_token_being_sent
        &&& w.amount == amount
    }
    &&& post.wallet_to_withdraw_from.key == pre.wallet_to_withdraw_from.key
    &&& post.wallet_to_withdraw_from.owner == pre.wallet_to_withdraw_from.owner
    &&& post.wallet_to_withdraw_from.mint == pre.wallet_to_withdraw_from.mint
    &&& post.wallet_to_withdraw_from.amount == pre.wallet_to_withdraw_from.amount - amount
}

/// Creates the escrow: signed by the sender, it creates the record and the
/// vault at their derived addresses (rejecting occupied ones) and moves
/// `amount` of the asset from the sender's wallet into the vault.
pub fn initiate(
    program_id: &Key,
    ctx: &mut Initiate,
    signer: &Key,
    amount: u64,
    application_state_bump: u8,
    escrow_wallet_state_bump: u8,
) -> (r: Result<(), EscrowError>)
    requires
        amount <= old(ctx).wallet_to_withdraw_from.amount,
    ensures
        match initiate_guard(
            program_id@,
            *old(ctx),
            *signer,
            application_state_bump,
            escrow_wallet_state_bump,
        ) {
            Some(e) => r == Err::<(), EscrowError>(e) && *final(ctx) == *old(ctx),
            None => r is Ok && initiated(
                program_id@,
                *old(ctx),
                amount,
                application_state_bump,
                escrow_wallet_state_bump,
                *final(ctx),
            ),
        },
{
    if !(*signer == ctx.user_sending) {
        return Err(EscrowError::AuthorizationFailure);
    }
    let record_tag = record_tag_bytes();
    let record_key = match derive_address(
        program_id,
        &record_tag,
        &ctx.user_sending,
        &ctx.user_receiving,
        &ctx.mint_of_token_being_sent,
        application_state_bump,
    ) {
        Some(k) => k,
        None => {
            return Err(EscrowError::AuthorizationFailure);
        },
    };
    let vault_tag = vault_tag_bytes();
    let vault_key = match derive_address(
        program_id,
        &vault_tag,
        &ctx.user_sending,
        &ctx.user_receiving,
        &ctx.mint_of_token_being_sent,
        escrow_wallet_state_bump,
    ) {
        Some(k) => k,
        None => {
            return Err(EscrowError::AuthorizationFailure);
        },
    };
    if ctx.application_state.is_some() || ctx.escrow_wallet_state.is_some() {
        return Err(EscrowError::AddressCollision);
    }
    if !(ctx.wallet_to_withdraw_from.owner == ctx.user_sending) {
        return Err(EscrowError::AuthorizationFailure);
    }
    if !(ctx.wallet_to_withdraw_from.mint == ctx.mint_of_token_being_sent) {
        return Err(EscrowError::AssetTypeMismatch);
    }
    ctx.application_state = Some(
        State {
            user_sending: ctx.user_sending,
            user_receiving: ctx.user_receiving,
            mint_of_token_being_sent: ctx.mint_of_token_being_sent,
            escrow_wallet: vault_key,
            amount_tokens: amount,
            application_state_bump,
            escrow_wallet_state_bump,
        },
    );
    ctx.escrow_wallet_state = Some(
        TokenAccount {
            key: vault_key,
            owner: record_key,
            mint: ctx.mint_of_token_being_sent,
            amount,
        },
    );
    ctx.wallet_to_withdraw_from.amount = ctx.wallet_to_withdraw_from.amount - amount;
    Ok(())
}

/// Why `pull_back` rejects, checked in this order: a signature that is not
/// the sender's; a record that does not match the supplied triple; a closed
/// vault; a supplied vault that is not the record's vault; a refund wallet
/// the sender does not own; then the custody routine's own checks.
pub open spec fn pull_back_guard(
    program: Seq<u8>,
    ctx: PullBackInstruction,
    signer: Key,
) -> Option<EscrowError> {
    let st = ctx.application_state;
    if signer@ != ctx.user_sending@ {
        Some(EscrowError::AuthorizationFailure)
    } else if st.user_sending@ != ctx.user_sending@ || st.user_receiving@ != ctx.user_receiving@
        || st.mint_of_token_being_sent@ != ctx.mint_of_token_being_sent@ {
        Some(EscrowError::RecordMismatch)
    } else if ctx.escrow_wallet_state is None {
        Some(EscrowError::AlreadyResolved)
    } else if ctx.escrow_wallet_state matches Some(w) && w.key@ != st.escrow_wallet@ {
        Some(EscrowError::RecordMismatch)
    } else if ctx.refund_wallet.owner@ != ctx.user_sending@ {
        Some(EscrowError::RecordMismatch)
    } else {
        transfer_guard(
            program,
            ctx.user_sending@,
            ctx.user_receiving@,
            ctx.mint_of_token_being_sent@,
            st.application_state_bump,
            ctx.escrow_wallet_state,
            ctx.refund_wallet,
        )
    }
}

/// What a successful resolution did to a resolving context: the record and
/// the parties are untouched, and the vault's full balance moved to the
/// destination, closing the vault.
pub open spec fn resolved(
    pre_vault: Option<TokenAccount>,
    pre_dest: TokenAccount,
    post_vault: Option<TokenAccount>,
    post_dest: TokenAccount,
) -> bool {
    &&& pre_vault matches Some(w) && transferred(w, pre_dest, w.amount, post_vault, post_dest)
    &&& post_vault is None
}

/// Returns the vault's full balance to a wallet of the sender's choosing,
/// owned by the sender and holding the escrowed asset, and closes the vault.
/// Signed by the sender.
pub fn pull_back(program_id: &Key, ctx: &mut PullBackInstruction, signer: &Key) -> (r: Result<
    (),
    EscrowError,
>)
    requires
        old(ctx).refund_wallet.amount + vault_balance(old(ctx).escrow_wallet_state) <= u64::MAX,
    ensures
        match pull_back_guard(program_id@, *old(ctx), *signer) {
            Some(e) => r == Err::<(), EscrowError>(e) && *final(ctx) == *old(ctx),
            None => {
                &&& r is Ok
                &&& resolved(
                    old(ctx).escrow_wallet_state,
                    old(ctx).refund_wallet,
                    final(ctx).escrow_wallet_state,
                    final(ctx).refund_wallet,
                )
                &&& final(ctx).application_state == old(ctx).application_state
                &&& final(ctx).user_sending == old(ctx).user_sending
                &&& final(ctx).user_receiving == old(ctx).user_receiving
                &&& final(ctx).mint_of_token_being_sent == old(ctx).mint_of_token_being_sent
            },
        },
{
    if !(*signer == ctx.user_sending) {
        return Err(EscrowError::AuthorizationFailure);
    }
    let st = ctx.application_state;
    if !(st.user_sending == ctx.user_sending) || !(st.user_receiving == ctx.user_receiving) || !(
    st.mint_of_token_being_sent == ctx.mint_of_token_being_sent) {
        return Err(EscrowError::RecordMismatch);
    }
    let wallet_amount = match ctx.escrow_wallet_state {
        Some(w) => {
            if !(w.key == st.escrow_wallet) {
                return Err(EscrowError::RecordMismatch);
            }
            w.amount
        },
        None => {
            return Err(EscrowError::AlreadyResolved);
        },
    };
    if !(ctx.refund_wallet.owner == ctx.user_sending) {
        return Err(EscrowError::RecordMismatch);
    }
    let user_sending = ctx.user_sending;
    let user_receiving = ctx.user_receiving;
    let mint = ctx.mint_of_token_being_sent;
    transfer_escrow_out(
        program_id,
        &user_sending,
        &user_receiving,
        &mint,
        &mut ctx.escrow_wallet_state,
        st.application_state_bump,
        &mut ctx.refund_wallet,
        wallet_amount,
    )
}

/// Why `complete_grant` rejects, checked in this order: a signature that is
/// not the receiver's; a record that does not match the supplied triple; a
/// closed vault; a supplied vault that is not the record's vault; a
/// destination that is not the receiver's associated deposit account for the
/// asset; then the custody routine's own checks.
pub open spec fn complete_grant_guard(
    program: Seq<u8>,
    ctx: CompleteGrant,
    signer: Key,
) -> Option<EscrowError> {
    let st = ctx.application_state;
    if signer@ != ctx.user_receiving@ {
        Some(EscrowError::AuthorizationFailure)
    } else if st.user_sending@ != ctx.user_sending@ || st.user_receiving@ != ctx.user_receiving@
        || st.mint_of_token_being_sent@ != ctx.mint_of_token_being_sent@ {
        Some(EscrowError::RecordMismatch)
    } else if ctx.escrow_wallet_state is None {
        Some(EscrowError::AlreadyResolved)
    } else if ctx.escrow_wallet_state matches Some(w) && w.key@ != st.escrow_wallet@ {
        Some(EscrowError::RecordMismatch)
    } else if ctx.wallet_to_deposit_to.key@ != associated_address_of(
        ctx.user_receiving@,
        ctx.mint_of_token_being_sent@,
    ) {
        Some(EscrowError::RecordMismatch)
    } else {
        transfer_guard(
            program,
            ctx.user_sending@,
            ctx.user_receiving@,
            ctx.mint_of_token_being_sent@,
            st.application_state_bump,
            ctx.escrow_wallet_state,
            ctx.wallet_to_deposit_to,
        )
    }
}

/// Pays the vault's full balance out to the receiver's associated deposit
/// account for the asset — that account and no other — and closes the vault.
/// Signed by the receiver.
pub fn complete_grant(program_id: &Key, ctx: &mut CompleteGrant, signer: &Key) -> (r: Result<
    (),
    EscrowError,
>)
    requires
        old(ctx).wallet_to_deposit_to.amount + vault_balance(old(ctx).escrow_wallet_state)
            <= u64::MAX,
    ensures
        match complete_grant_guard(program_id@, *old(ctx), *signer) {
            Some(e) => r == Err::<(), EscrowError>(e) && *final(ctx) == *old(ctx),
            None => {
                &&& r is Ok
                &&& resolved(
                    old(ctx).escrow_wallet_state,
                    old(ctx).wallet_to_deposit_to,
                    final(ctx).escrow_wallet_state,
                    final(ctx).wallet_to_deposit_to,
                )
                &&& final(ctx).application_state == old(ctx).application_state
                &&& final(ctx).user_sending == old(ctx).user_sending
                &&& final(ctx).user_receiving == old(ctx).user_receiving
                &&& final(ctx).mint_of_token_being_sent == old(ctx).mint_of_token_being_sent
            },
        },
{
    if !(*signer == ctx.user_receiving) {
        return Err(EscrowError::AuthorizationFailure);
    }
    let st = ctx.application_state;
    if !(st.user_sending == ctx.user_sending) || !(st.user_receiving == ctx.user_receiving) || !(
    st.mint_of_token_being_sent == ctx.mint_of_token_being_sent) {
        return Err(EscrowError::RecordMismatch);
    }
    let wallet_amount = match ctx.escrow_wallet_state {
        Some(w) => {
            if !(w.key == st.escrow_wallet) {
                return Err(EscrowError::RecordMismatch);
            }
            w.amount
        },
        None => {
            return Err(EscrowError::AlreadyResolved);
        },
    };
    let expected = associated_account(&ctx.user_receiving, &ctx.mint_of_token_being_sent);
    if !(ctx.wallet_to_deposit_to.key == expected) {
        return Err(EscrowError::RecordMismatch);
    }
    let user_sending = ctx.user_sending;
    let user_receiving = ctx.user_receiving;
    let mint = ctx.mint_of_token_being_sent;
    transfer_escrow_out(
        program_id,
        &user_sending,
        &user_receiving,
        &mint,
        &mut ctx.escrow_wallet_state,
        st.application_state_bump,
        &mut ctx.wallet_to_deposit_to,
        wallet_amount,
    )
}

} // verus!
