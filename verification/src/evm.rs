//! Key material for EVM accounts: a random secp256k1 secret and the address
//! that belongs to it, both written in lowercase hexadecimal.

use crate::encode::{
    hex_text, is_lower_hex_char, lemma_hex_text_injective, lemma_hex_text_shape, push_hex,
};
use crate::entry::{EntryText, GeneratedEntry};
use ethers_signers::{LocalWallet, Signer};
use vstd::prelude::*;

verus! {

/// The 20-byte address of the account whose secret scalar is given as 32
/// big-endian bytes, as `LocalWallet::from_bytes` followed by `address`
/// computes it; `None` where the bytes are no valid secret.
pub uninterp spec fn evm_address_of(secret: Seq<u8>) -> Option<Seq<u8>>;

/// Calls `LocalWallet::new` with the thread's random generator and hands out
/// the wallet's secret (`signer().to_bytes()`) and its address (`address()`).
/// Claimed: the secret has 32 bytes, the address 20, and the address is the
/// one that `LocalWallet::from_bytes` derives from that secret. Nothing is
/// claimed of which secret is drawn.
#[verifier::external_body]
fn fresh_evm_wallet() -> (r: (Vec<u8>, Vec<u8>))
    ensures
        r.0@.len() == 32,
        r.1@.len() == 20,
        evm_address_of(r.0@) == Some(r.1@),
{
    let wallet = LocalWallet::new(&mut rand::thread_rng());
    (wallet.signer().to_bytes().to_vec(), wallet.address().0.to_vec())
}

/// Calls `LocalWallet::from_bytes` and, where it accepts the secret, hands out
/// the wallet's `address()`. Claimed: the result is `evm_address_of` of the
/// secret, and an address has 20 bytes. The outside function panics on a
/// secret of another length than 32, which the precondition leaves out.
#[verifier::external_body]
fn evm_address(secret: &Vec<u8>) -> (r: Option<Vec<u8>>)
    requires
        secret@.len() == 32,
    ensures
        match r {
            Some(a) => a@.len() == 20 && evm_address_of(secret@) == Some(a@),
            None => evm_address_of(secret@).is_none(),
        },
{
    LocalWallet::from_bytes(secret).ok().map(|wallet| wallet.address().0.to_vec())
}

/// The text of an address: `0x` and the lowercase hexadecimal digits of its
/// bytes.
pub open spec fn evm_address_text(address: Seq<u8>) -> Seq<char> {
    seq!['0', 'x'] + hex_text(address)
}

/// Whether a text is `0x` followed by exactly forty lowercase hexadecimal
/// digits.
pub open spec fn is_evm_address_text(s: Seq<char>) -> bool {
    &&& s.len() == 42
    &&& s[0] == '0'
    &&& s[1] == 'x'
    &&& forall|i: int| 2 <= i < 42 ==> is_lower_hex_char(#[trigger] s[i])
}

/// Whether a text is exactly sixty-four lowercase hexadecimal digits.
pub open spec fn is_evm_secret_text(s: Seq<char>) -> bool {
    &&& s.len() == 64
    &&& forall|i: int| 0 <= i < 64 ==> is_lower_hex_char(#[trigger] s[i])
}

/// The entry for a secret and its address.
pub open spec fn evm_entry_text(secret: Seq<u8>, address: Seq<u8>) -> EntryText {
    EntryText { public_identifier: evm_address_text(address), secret: hex_text(secret) }
}

/// Whether an entry belongs to some valid 32-byte secret: its secret text is
/// that secret in hexadecimal, and its identifier is the text of the address
/// derived from that secret.
pub open spec fn is_evm_entry(e: EntryText) -> bool {
    exists|secret: Seq<u8>, address: Seq<u8>|
        secret.len() == 32 && address.len() == 20 && evm_address_of(secret) == Some(address) && e
            == #[trigger] evm_entry_text(secret, address)
}

/// The identifier that belongs to a secret, where it is a valid one.
pub open spec fn evm_identifier(secret: Seq<u8>) -> Option<Seq<char>> {
    if secret.len() != 32 {
        None
    } else {
        match evm_address_of(secret) {
            Some(a) => Some(evm_address_text(a)),
            None => None,
        }
    }
}

/// The text of a 20-byte address has the shape of an EVM address.
pub proof fn lemma_address_text_shape(address: Seq<u8>)
    requires
        address.len() == 20,
    ensures
        is_evm_address_text(evm_address_text(address)),
{
    lemma_hex_text_shape(address);
    let s = evm_address_text(address);
    assert forall|i: int| 2 <= i < 42 implies is_lower_hex_char(#[trigger] s[i]) by {
        assert(s[i] == hex_text(address)[i - 2]);
    }
}

/// The hexadecimal text of a 32-byte secret is sixty-four hexadecimal digits.
pub proof fn lemma_secret_text_shape(secret: Seq<u8>)
    requires
        secret.len() == 32,
    ensures
        is_evm_secret_text(hex_text(secret)),
{
    lemma_hex_text_shape(secret);
}

/// An entry's identifier is determined by its secret text: it has the shape of
/// an address, the secret text is sixty-four hexadecimal digits, and whatever
/// 32 bytes are written as that secret text, the identifier is the text of the
/// address derived from them.
pub proof fn lemma_evm_entry_is_derivable(e: EntryText)
    requires
        is_evm_entry(e),
    ensures
        is_evm_address_text(e.public_identifier),
        is_evm_secret_text(e.secret),
        forall|secret: Seq<u8>| #[trigger]
            hex_text(secret) == e.secret ==> evm_identifier(secret) == Some(e.public_identifier),
{
    let (drawn, address) = choose|secret: Seq<u8>, address: Seq<u8>|
        secret.len() == 32 && address.len() == 20 && evm_address_of(secret) == Some(address) && e
            == #[trigger] evm_entry_text(secret, address);
    lemma_address_text_shape(address);
    lemma_secret_text_shape(drawn);
    assert forall|secret: Seq<u8>| #[trigger] hex_text(secret) == e.secret implies evm_identifier(
        secret,
    ) == Some(e.public_identifier) by {
        lemma_hex_text_injective(secret, drawn);
    }
}

/// Writes an address as text.
pub fn format_evm_address(address: &Vec<u8>) -> (r: String)
    ensures
        r@ == evm_address_text(address@),
        address@.len() == 20 ==> is_evm_address_text(r@),
{
    let mut out = String::new();
    out.push('0');
    out.push('x');
    assert(out@ =~= seq!['0', 'x']);
    push_hex(&mut out, address);
    proof {
        if address@.len() == 20 {
            lemma_address_text_shape(address@);
        }
    }
    out
}

/// The entry for a secret and the address that was derived from it.
pub fn evm_entry(secret: &Vec<u8>, address: &Vec<u8>) -> (r: GeneratedEntry)
    ensures
        r@ == evm_entry_text(secret@, address@),
{
    let public_identifier = format_evm_address(address);
    let secret_text = crate::encode::hex_encode(secret);
    GeneratedEntry::new(public_identifier, secret_text)
}

/// The identifier of the account that a secret belongs to: `None` where the
/// secret has not 32 bytes or is no valid scalar.
pub fn derive_evm_address(secret: &Vec<u8>) -> (r: Option<String>)
    ensures
        match r {
            Some(text) => evm_identifier(secret@) == Some(text@),
            None => evm_identifier(secret@).is_none(),
        },
        r matches Some(text) ==> is_evm_address_text(text@),
{
    if secret.len() != 32 {
        return None;
    }
    match evm_address(secret) {
        Some(a) => Some(format_evm_address(&a)),
        None => None,
    }
}

/// Generates `count` entries, each from a secret of its own drawn from the
/// thread's cryptographically secure generator. Every identifier has the
/// shape of an EVM address and is the one derived from the entry's secret.
pub fn generator_evm_addresses(count: usize) -> (batch: Vec<GeneratedEntry>)
    ensures
        batch@.len() == count,
        forall|i: int| 0 <= i < count ==> is_evm_entry(#[trigger] batch@[i]@),
        forall|i: int| 0 <= i < count ==> is_evm_address_text(#[trigger] batch@[i]@.public_identifier),
        forall|i: int| 0 <= i < count ==> is_evm_secret_text(#[trigger] batch@[i]@.secret),
{
    let mut batch: Vec<GeneratedEntry> = Vec::new();
    let mut n: usize = 0;
    while n < count
        invariant
            n <= count,
            batch@.len() == n,
            forall|i: int| 0 <= i < n ==> is_evm_entry(#[trigger] batch@[i]@),
            forall|i: int| 0 <= i < n ==> is_evm_address_text(#[trigger] batch@[i]@.public_identifier),
            forall|i: int| 0 <= i < n ==> is_evm_secret_text(#[trigger] batch@[i]@.secret),
        decreases count - n,
    {
        let (secret, address) = fresh_evm_wallet();
        let entry = evm_entry(&secret, &address);
        proof {
            lemma_address_text_shape(address@);
            lemma_secret_text_shape(secret@);
            assert(entry@ == evm_entry_text(secret@, address@));
        }
        batch.push(entry);
        n += 1;
    }
    batch
}

} // verus!
