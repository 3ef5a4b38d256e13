//! Key material for Solana accounts: a random Ed25519 keypair, its public key
//! written as an address and its 64 bytes written in base58.

use crate::entry::{EntryText, GeneratedEntry};
use solana_sdk::bs58;
use solana_sdk::pubkey::Pubkey;
use solana_sdk::signature::{Keypair, Signer};
use vstd::prelude::*;

verus! {

/// The base58 text of a byte string, as `bs58::encode(..).into_string()`
/// computes it with its default alphabet.
pub uninterp spec fn base58_of(bytes: Seq<u8>) -> Seq<char>;

/// The text of the address made of the given bytes, as `Pubkey::try_from`
/// followed by `to_string` computes it; `None` where the bytes make no
/// address.
pub uninterp spec fn solana_address_text_of(bytes: Seq<u8>) -> Option<Seq<char>>;

/// Calls `Keypair::new` and hands out the keypair's `to_bytes()` and the bytes
/// of its `pubkey()`. Claimed: the keypair has 64 bytes, the public key 32,
/// and the public key is the second half of the keypair's bytes. Nothing is
/// claimed of which keypair is drawn.
#[verifier::external_body]
fn fresh_solana_keypair() -> (r: (Vec<u8>, Vec<u8>))
    ensures
        r.0@.len() == 64,
        r.1@.len() == 32,
        r.1@ == r.0@.subrange(32, 64),
{
    let keypair = Keypair::new();
    (keypair.to_bytes().to_vec(), keypair.pubkey().to_bytes().to_vec())
}

/// Calls `bs58::encode` and `into_string`. The result is a function of the
/// bytes alone and is known to contracts as `base58_of`.
#[verifier::external_body]
fn base58(bytes: &Vec<u8>) -> (r: String)
    ensures
        r@ == base58_of(bytes@),
{
    bs58::encode(bytes).into_string()
}

/// Calls `Pubkey::try_from` on the bytes and `to_string` on the address.
/// Claimed: the result is `solana_address_text_of` of the bytes, and there is
/// one exactly where the bytes are 32.
#[verifier::external_body]
fn solana_address_text(bytes: &Vec<u8>) -> (r: Option<String>)
    ensures
        r.is_some() <==> bytes@.len() == 32,
        match r {
            Some(text) => solana_address_text_of(bytes@) == Some(text@),
            None => solana_address_text_of(bytes@).is_none(),
        },
{
    Pubkey::try_from(bytes.as_slice()).ok().map(|address| address.to_string())
}

/// The entry for a keypair's bytes and its public key, where the public key
/// makes an address.
pub open spec fn solana_entry_text(keypair: Seq<u8>, pubkey: Seq<u8>) -> Option<EntryText> {
    match solana_address_text_of(pubkey) {
        Some(text) => Some(EntryText { public_identifier: text, secret: base58_of(keypair) }),
        None => None,
    }
}

/// Whether an entry belongs to some 64-byte keypair: its secret is the base58
/// text of the keypair, and its identifier is the address made of the
/// keypair's second half.
pub open spec fn is_solana_entry(e: EntryText) -> bool {
    exists|keypair: Seq<u8>|
        keypair.len() == 64 && #[trigger] solana_entry_text(keypair, keypair.subrange(32, 64))
            == Some(e)
}

/// The entry for a keypair's bytes and its public key: the address of the
/// public key and the base58 text of the keypair. `None` exactly where the
/// public key has not 32 bytes.
pub fn solana_entry(keypair: &Vec<u8>, pubkey: &Vec<u8>) -> (r: Option<GeneratedEntry>)
    ensures
        r.is_some() <==> pubkey@.len() == 32,
        match r {
            Some(e) => solana_entry_text(keypair@, pubkey@) == Some(e@),
            None => solana_entry_text(keypair@, pubkey@).is_none(),
        },
{
    match solana_address_text(pubkey) {
        Some(text) => Some(GeneratedEntry::new(text, base58(keypair))),
        None => None,
    }
}

/// The entry for a keypair given by its 64 bytes, whose second half is the
/// public key. `None` exactly where the bytes are not 64.
pub fn solana_entry_of_keypair(keypair: &Vec<u8>) -> (r: Option<GeneratedEntry>)
    ensures
        r.is_some() <==> keypair@.len() == 64,
        r matches Some(e) ==> solana_entry_text(keypair@, keypair@.subrange(32, 64)) == Some(e@)
            && is_solana_entry(e@),
{
    if keypair.len() != 64 {
        return None;
    }
    let mut pubkey: Vec<u8> = Vec::new();
    let mut i: usize = 32;
    while i < 64
        invariant
            32 <= i <= 64,
            keypair@.len() == 64,
            pubkey@ == keypair@.subrange(32, i as int),
        decreases 64 - i,
    {
        pubkey.push(keypair[i]);
        assert(pubkey@ =~= keypair@.subrange(32, i + 1));
        i += 1;
    }
    solana_entry(keypair, &pubkey)
}

/// Generates `count` entries, each from a keypair of its own drawn from a
/// cryptographically secure generator. Every secret is the base58 text of 64
/// bytes, and every identifier is the address made of their second half.
pub fn generate_sol_addresses(count: usize) -> (batch: Vec<GeneratedEntry>)
    ensures
        batch@.len() == count,
        forall|i: int| 0 <= i < count ==> is_solana_entry(#[trigger] batch@[i]@),
{
    let mut batch: Vec<GeneratedEntry> = Vec::new();
    let mut n: usize = 0;
    while n < count
        invariant
            n <= count,
            batch@.len() == n,
            forall|i: int| 0 <= i < n ==> is_solana_entry(#[trigger] batch@[i]@),
        decreases count - n,
    {
        let (keypair, pubkey) = fresh_solana_keypair();
        match solana_entry(&keypair, &pubkey) {
            Some(entry) => {
                batch.push(entry);
            },
            None => {
                // The public key of a fresh keypair has 32 bytes.
                assert(false);
            },
        }
        n += 1;
    }
    batch
}

} // verus!
