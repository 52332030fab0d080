//! The persisted state of one escrow: the record describing it and the
//! custody accounts holding balances of the escrowed asset.

use vstd::prelude::*;
use crate::key::Key;

verus! {

/// A custody account on the ledger holding a balance of one asset.
///
/// `key` is the account's own address, `owner` the identity allowed to move
/// funds out of it, `mint` the asset type it holds, and `amount` its balance.
#[derive(Clone, Copy, Debug)]
pub struct TokenAccount {
    pub key: Key,
    pub owner: Key,
    pub mint: Key,
    pub amount: u64,
}

/// The escrow record: persistent metadata describing one escrow instance.
///
/// Created once per (sender, receiver, asset) triple by `initiate` and never
/// modified afterwards. `escrow_wallet` is the address of the vault holding
/// the reserved balance; the two bump fields are the salts under which the
/// record's and the vault's addresses were derived, kept so that both can be
/// re-derived and authorized later.
#[derive(Clone, Copy, Debug)]
pub struct State {
    pub user_sending: Key,
    pub user_receiving: Key,
    pub mint_of_token_being_sent: Key,
    pub escrow_wallet: Key,
    pub amount_tokens: u64,
    pub application_state_bump: u8,
    pub escrow_wallet_state_bump: u8,
}

/// The balance held by a vault slot; an absent (closed) vault holds nothing.
pub open spec fn vault_balance(v: Option<TokenAccount>) -> int {
    match v {
        Some(w) => w.amount as int,
        None => 0,
    }
}

} // verus!
