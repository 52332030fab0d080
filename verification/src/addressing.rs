//! Deterministic addressing.
//!
//! The record and the vault of an escrow live at canonical addresses derived
//! from a fixed domain tag, the (sender, receiver, asset) triple, and a salt.
//! Derivation is a pure function of those inputs: for some salts it yields no
//! address at all, so a bounded search tries salts from the highest down and
//! keeps the first that works. The accepted salt is stored in the record so
//! that the same address (and the protocol authority behind it) can be
//! re-derived later.

use vstd::prelude::*;
use crate::key::Key;

verus! {

/// The address that the ledger's derivation rule yields for a domain tag,
/// the (sender, receiver, asset) triple and a salt under a given protocol
/// identity; `None` when that salt admits no protocol-controlled address.
pub uninterp spec fn address_of(
    program: Seq<u8>,
    tag: Seq<u8>,
    sender: Seq<u8>,
    receiver: Seq<u8>,
    asset: Seq<u8>,
    salt: u8,
) -> Option<Seq<u8>>;

/// The canonical deposit account of a wallet for one asset, as the ledger's
/// associated-account rule derives it.
pub uninterp spec fn associated_address_of(wallet: Seq<u8>, asset: Seq<u8>) -> Seq<u8>;

/// The domain tag under which escrow records are addressed.
pub open spec fn record_tag() -> Seq<u8> {
    // "safe_pay_noah_state"
    seq![
        115u8, 97, 102, 101, 95, 112, 97, 121, 95, 110, 111, 97, 104, 95, 115, 116, 97, 116,
        101,
    ]
}

/// The domain tag under which escrow vaults are addressed.
pub open spec fn vault_tag() -> Seq<u8> {
    // "safe_pay_noah_wallet"
    seq![
        115u8, 97, 102, 101, 95, 112, 97, 121, 95, 110, 111, 97, 104, 95, 119, 97, 108, 108,
        101, 116,
    ]
}

/// The record address of the escrow for a triple, under a given salt.
pub open spec fn record_id(
    program: Seq<u8>,
    sender: Seq<u8>,
    receiver: Seq<u8>,
    asset: Seq<u8>,
    salt: u8,
) -> Option<Seq<u8>> {
    address_of(program, record_tag(), sender, receiver, asset, salt)
}

/// The vault address of the escrow for a triple, under a given salt.
pub open spec fn vault_id(
    program: Seq<u8>,
    sender: Seq<u8>,
    receiver: Seq<u8>,
    asset: Seq<u8>,
    salt: u8,
) -> Option<Seq<u8>> {
    address_of(program, vault_tag(), sender, receiver, asset, salt)
}

pub(crate) fn record_tag_bytes() -> (v: Vec<u8>)
    ensures
        v@ == record_tag(),
{
    let v: Vec<u8> = vec![
        115u8, 97, 102, 101, 95, 112, 97, 121, 95, 110, 111, 97, 104, 95, 115, 116, 97, 116,
        101,
    ];
    proof {
        assert(v@ =~= record_tag());
    }
    v
}

pub(crate) fn vault_tag_bytes() -> (v: Vec<u8>)
    ensures
        v@ == vault_tag(),
{
    let v: Vec<u8> = vec![
        115u8, 97, 102, 101, 95, 112, 97, 121, 95, 110, 111, 97, 104, 95, 119, 97, 108, 108,
        101, 116,
    ];
    proof {
        assert(v@ =~= vault_tag());
    }
    v
}

/// Relies on `Pubkey::create_program_address` (anchor_lang's re-export of the
/// ledger SDK): the derived address is a deterministic digest of the seeds
/// and the program id alone, and derivation fails exactly when that digest
/// is not protocol-controllable for this salt (or a seed is over the length
/// limit). No outcome is promised beyond being a function of the arguments.
#[verifier::external_body]
pub(crate) fn derive_address(
    program_id: &Key,
    tag: &Vec<u8>,
    sender: &Key,
    receiver: &Key,
    asset: &Key,
    salt: u8,
) -> (r: Option<Key>)
    ensures
        r is Some <==> address_of(program_id@, tag@, sender@, receiver@, asset@, salt) is Some,
        r matches Some(k) ==> Some(k@) == address_of(
            program_id@,
            tag@,
            sender@,
            receiver@,
            asset@,
            salt,
        ),
{
    let program = anchor_lang::solana_program::pubkey::Pubkey::new_from_array(program_id.bytes);
    let salt_bytes = [salt];
    let seeds: [&[u8]; 5] = [
        tag.as_slice(),
        &sender.bytes,
        &receiver.bytes,
        &asset.bytes,
        &salt_bytes,
    ];
    match anchor_lang::solana_program::pubkey::Pubkey::create_program_address(&seeds, &program) {
        Ok(k) => Some(Key { bytes: k.to_bytes() }),
        Err(_) => None,
    }
}

/// Relies on `anchor_spl::associated_token::get_associated_token_address`:
/// the associated deposit account of a wallet for an asset is a deterministic
/// digest of the wallet, the token program and the asset alone. Its
/// underlying bounded search aborts only in the statistically improbable
/// event that no salt yields a valid address.
#[verifier::external_body]
fn associated_account_for(wallet: &Key, asset: &Key) -> (r: Key)
    ensures
        r@ == associated_address_of(wallet@, asset@),
{
    let w = anchor_lang::solana_program::pubkey::Pubkey::new_from_array(wallet.bytes);
    let m = anchor_lang::solana_program::pubkey::Pubkey::new_from_array(asset.bytes);
    let derived = anchor_spl::associated_token::get_associated_token_address(&w, &m);
    Key { bytes: derived.to_bytes() }
}

/// The associated deposit account of `wallet` for `asset`; `complete_grant`
/// accepts this account and no other as its destination.
pub fn associated_account(wallet: &Key, asset: &Key) -> (r: Key)
    ensures
        r@ == associated_address_of(wallet@, asset@),
{
    associated_account_for(wallet, asset)
}

/// The view of a search result, for stating contracts over it.
pub open spec fn found_view(r: Option<(Key, u8)>) -> Option<(Seq<u8>, u8)> {
    match r {
        Some((k, s)) => Some((k@, s)),
        None => None,
    }
}

/// What the bounded salt search yields: the highest salt that derives an
/// address, together with that address, or nothing when no salt works.
pub open spec fn derive_outcome(
    program: Seq<u8>,
    tag: Seq<u8>,
    sender: Seq<u8>,
    receiver: Seq<u8>,
    asset: Seq<u8>,
    r: Option<(Seq<u8>, u8)>,
) -> bool {
    match r {
        Some((id, salt)) => {
            &&& address_of(program, tag, sender, receiver, asset, salt) == Some(id)
            &&& forall|s: u8|
                salt < s ==> address_of(program, tag, sender, receiver, asset, s) is None
        },
        None => forall|s: u8| address_of(program, tag, sender, receiver, asset, s) is None,
    }
}

/// Bounded search over the salt space, highest salt first.
fn find_address(
    program_id: &Key,
    tag: &Vec<u8>,
    sender: &Key,
    receiver: &Key,
    asset: &Key,
) -> (r: Option<(Key, u8)>)
    ensures
        derive_outcome(program_id@, tag@, sender@, receiver@, asset@, found_view(r)),
{
    let mut i: u16 = 0;
    while i < 256
        invariant
            0 <= i <= 256,
            forall|s: u8|
                255 - (i as int) < s as int ==> address_of(
                    program_id@,
                    tag@,
                    sender@,
                    receiver@,
                    asset@,
                    s,
                ) is None,
        decreases 256 - i,
    {
        let salt: u8 = (255 - i) as u8;
        match derive_address(program_id, tag, sender, receiver, asset, salt) {
            Some(k) => {
                return Some((k, salt));
            },
            None => {},
        }
        i = i + 1;
    }
    None
}

/// Derives the canonical record address of the escrow for a triple: the
/// highest salt admitting an address, and that address.
pub fn find_record_address(
    program_id: &Key,
    sender: &Key,
    receiver: &Key,
    asset: &Key,
) -> (r: Option<(Key, u8)>)
    ensures
        derive_outcome(program_id@, record_tag(), sender@, receiver@, asset@, found_view(r)),
{
    let tag = record_tag_bytes();
    find_address(program_id, &tag, sender, receiver, asset)
}

/// Derives the canonical vault address of the escrow for a triple: the
/// highest salt admitting an address, and that address.
pub fn find_vault_address(
    program_id: &Key,
    sender: &Key,
    receiver: &Key,
    asset: &Key,
) -> (r: Option<(Key, u8)>)
    ensures
        derive_outcome(program_id@, vault_tag(), sender@, receiver@, asset@, found_view(r)),
{
    let tag = vault_tag_bytes();
    find_address(program_id, &tag, sender, receiver, asset)
}

/// Determinism of addressing: the search outcome is pinned by its inputs, so
/// deriving the identifiers twice from the same (sender, receiver, asset) and
/// tag yields identical identifiers and salts.
pub proof fn lemma_derivation_deterministic(
    program: Seq<u8>,
    tag: Seq<u8>,
    sender: Seq<u8>,
    receiver: Seq<u8>,
    asset: Seq<u8>,
    r1: Option<(Seq<u8>, u8)>,
    r2: Option<(Seq<u8>, u8)>,
)
    requires
        derive_outcome(program, tag, sender, receiver, asset, r1),
        derive_outcome(program, tag, sender, receiver, asset, r2),
    ensures
        r1 == r2,
{
    match (r1, r2) {
        (Some((id1, s1)), Some((id2, s2))) => {
            if s1 < s2 {
                assert(address_of(program, tag, sender, receiver, asset, s2) is None);
            } else if s2 < s1 {
                assert(address_of(program, tag, sender, receiver, asset, s1) is None);
            }
        },
        (Some((id1, s1)), None) => {
            assert(address_of(program, tag, sender, receiver, asset, s1) is None);
        },
        (None, Some((id2, s2))) => {
            assert(address_of(program, tag, sender, receiver, asset, s2) is None);
        },
        (None, None) => {},
    }
}

} // verus!
