//! End-to-end escrow lifecycle scenarios.

use safe_pay::addressing::associated_account;
use safe_pay::addressing::find_record_address;
use safe_pay::addressing::find_vault_address;
use safe_pay::complete_grant;
use safe_pay::initiate;
use safe_pay::pull_back;
use safe_pay::CompleteGrant;
use safe_pay::EscrowError;
use safe_pay::Initiate;
use safe_pay::Key;
use safe_pay::PullBackInstruction;
use safe_pay::TokenAccount;

fn key(n: u8) -> Key {
    Key { bytes: [n; 32] }
}

fn wallet(key: Key, owner: Key, mint: Key, amount: u64) -> TokenAccount {
    TokenAccount { key, owner, mint, amount }
}

struct Parties {
    program: Key,
    sender: Key,
    receiver: Key,
    mint: Key,
}

fn parties() -> Parties {
    Parties { program: key(7), sender: key(1), receiver: key(2), mint: key(3) }
}

fn initiated_escrow(p: &Parties, source_funds: u64, amount: u64) -> Initiate {
    let mut ctx = Initiate {
        application_state: None,
        escrow_wallet_state: None,
        user_sending: p.sender,
        user_receiving: p.receiver,
        mint_of_token_being_sent: p.mint,
        wallet_to_withdraw_from: wallet(key(40), p.sender, p.mint, source_funds),
    };
    let (_, record_salt) =
        find_record_address(&p.program, &p.sender, &p.receiver, &p.mint).unwrap();
    let (_, vault_salt) = find_vault_address(&p.program, &p.sender, &p.receiver, &p.mint).unwrap();
    let r = initiate(&p.program, &mut ctx, &p.sender, amount, record_salt, vault_salt);
    assert_eq!(r, Ok(()));
    ctx
}

#[test]
fn reserve_then_refund_then_grant_rejected() {
    // The sender reserves 500 units for the receiver.
    let p = parties();
    let ctx = initiated_escrow(&p, 700, 500);
    let vault = ctx.escrow_wallet_state.unwrap();
    assert_eq!(vault.amount, 500);
    assert_eq!(ctx.wallet_to_withdraw_from.amount, 200);
    let state = ctx.application_state.unwrap();
    assert_eq!(state.amount_tokens, 500);
    assert_eq!(state.escrow_wallet, vault.key);

    // The sender pulls the reservation back: the vault drains and closes.
    let mut refund_ctx = PullBackInstruction {
        application_state: state,
        escrow_wallet_state: Some(vault),
        user_sending: p.sender,
        user_receiving: p.receiver,
        mint_of_token_being_sent: p.mint,
        refund_wallet: wallet(key(41), p.sender, p.mint, 200),
    };
    let r = pull_back(&p.program, &mut refund_ctx, &p.sender);
    assert_eq!(r, Ok(()));
    assert_eq!(refund_ctx.refund_wallet.amount, 700);
    assert!(refund_ctx.escrow_wallet_state.is_none());

    // A grant on the resolved escrow is rejected.
    let deposit = associated_account(&p.receiver, &p.mint);
    let mut grant_ctx = CompleteGrant {
        application_state: state,
        escrow_wallet_state: refund_ctx.escrow_wallet_state,
        wallet_to_deposit_to: wallet(deposit, p.receiver, p.mint, 0),
        user_sending: p.sender,
        user_receiving: p.receiver,
        mint_of_token_being_sent: p.mint,
    };
    let r = complete_grant(&p.program, &mut grant_ctx, &p.receiver);
    assert_eq!(r, Err(EscrowError::AlreadyResolved));
    assert_eq!(grant_ctx.wallet_to_deposit_to.amount, 0);
}

#[test]
fn reserve_then_grant_then_refund_rejected() {
    // The sender reserves 100 units; the receiver collects them.
    let p = parties();
    let ctx = initiated_escrow(&p, 100, 100);
    let vault = ctx.escrow_wallet_state.unwrap();
    assert_eq!(vault.amount, 100);
    assert_eq!(ctx.wallet_to_withdraw_from.amount, 0);
    let state = ctx.application_state.unwrap();

    let deposit = associated_account(&p.receiver, &p.mint);
    let mut grant_ctx = CompleteGrant {
        application_state: state,
        escrow_wallet_state: Some(vault),
        wallet_to_deposit_to: wallet(deposit, p.receiver, p.mint, 25),
        user_sending: p.sender,
        user_receiving: p.receiver,
        mint_of_token_being_sent: p.mint,
    };
    let r = complete_grant(&p.program, &mut grant_ctx, &p.receiver);
    assert_eq!(r, Ok(()));
    assert_eq!(grant_ctx.wallet_to_deposit_to.amount, 125);
    assert!(grant_ctx.escrow_wallet_state.is_none());

    // A refund on the resolved escrow is rejected.
    let mut refund_ctx = PullBackInstruction {
        application_state: state,
        escrow_wallet_state: grant_ctx.escrow_wallet_state,
        user_sending: p.sender,
        user_receiving: p.receiver,
        mint_of_token_being_sent: p.mint,
        refund_wallet: wallet(key(41), p.sender, p.mint, 0),
    };
    let r = pull_back(&p.program, &mut refund_ctx, &p.sender);
    assert_eq!(r, Err(EscrowError::AlreadyResolved));
    assert_eq!(refund_ctx.refund_wallet.amount, 0);
}

#[test]
fn initiate_rejects_occupied_addresses() {
    let p = parties();
    let ctx = initiated_escrow(&p, 700, 500);
    let state = ctx.application_state.unwrap();

    // Re-creating the escrow for the same triple finds the record address
    // occupied and must fail, never overwrite.
    let mut again = Initiate {
        application_state: Some(state),
        escrow_wallet_state: ctx.escrow_wallet_state,
        user_sending: p.sender,
        user_receiving: p.receiver,
        mint_of_token_being_sent: p.mint,
        wallet_to_withdraw_from: wallet(key(40), p.sender, p.mint, 200),
    };
    let r = initiate(
        &p.program,
        &mut again,
        &p.sender,
        200,
        state.application_state_bump,
        state.escrow_wallet_state_bump,
    );
    assert_eq!(r, Err(EscrowError::AddressCollision));
    assert_eq!(again.application_state.unwrap().amount_tokens, 500);
    assert_eq!(again.wallet_to_withdraw_from.amount, 200);
}
