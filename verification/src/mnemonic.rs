//! Mnemonic phrases: twelve English words for 128 bits of fresh entropy.

use crate::encode::decimal_text;
use crate::entry::{EntryText, GeneratedEntry};
use crate::network::GenError;
use bip39::{Language, Mnemonic};
use rand::rngs::OsRng;
use rand::RngCore;
use vstd::prelude::*;

verus! {

/// The error of the operating system's entropy source.
#[verifier::external_type_specification]
#[verifier::external_body]
pub struct ExEntropyError(rand::Error);

/// How many bytes of entropy stand behind one phrase.
pub const ENTROPY_BYTES: usize = 16;

/// How many words a phrase has.
pub const PHRASE_WORDS: usize = 12;

/// The English phrase for the given entropy, as `Mnemonic::from_entropy_in`
/// followed by `to_string` computes it; `None` where the entropy is refused.
pub uninterp spec fn mnemonic_phrase_of(entropy: Seq<u8>) -> Option<Seq<char>>;

/// How many spaces a text holds.
pub open spec fn space_count(s: Seq<char>) -> nat
    decreases s.len(),
{
    if s.len() == 0 {
        0
    } else {
        space_count(s.drop_last()) + if s.last() == ' ' {
            1nat
        } else {
            0nat
        }
    }
}

/// How many words a phrase holds whose words are separated by one space each.
pub open spec fn word_count(s: Seq<char>) -> nat {
    if s.len() == 0 {
        0
    } else {
        space_count(s) + 1
    }
}

/// Calls `OsRng.try_fill_bytes` on a zeroed buffer of the given length.
/// Claimed: what comes back on success has that length. Nothing is claimed of
/// which bytes are drawn.
#[verifier::external_body]
fn fresh_entropy(len: usize) -> (r: Result<Vec<u8>, rand::Error>)
    ensures
        r matches Ok(bytes) ==> bytes@.len() == len,
{
    let mut entropy = vec![0u8; len];
    OsRng.try_fill_bytes(&mut entropy)?;
    Ok(entropy)
}

/// Calls `Mnemonic::from_entropy_in` for English and, where it accepts the
/// entropy, `to_string`. Claimed: the result is `mnemonic_phrase_of` of the
/// entropy; sixteen bytes are accepted, and their phrase is twelve words
/// separated by one space each.
#[verifier::external_body]
fn mnemonic_phrase(entropy: &Vec<u8>) -> (r: Option<String>)
    ensures
        match r {
            Some(p) => mnemonic_phrase_of(entropy@) == Some(p@),
            None => mnemonic_phrase_of(entropy@).is_none(),
        },
        entropy@.len() == ENTROPY_BYTES ==> r.is_some() && word_count(r.unwrap()@) == PHRASE_WORDS,
{
    Mnemonic::from_entropy_in(Language::English, entropy).ok().map(|m| m.to_string())
}

/// The entry for a phrase at a position of the batch: the position in decimal
/// and the phrase.
pub open spec fn mnemonic_entry_text(index: nat, phrase: Seq<char>) -> EntryText {
    EntryText { public_identifier: decimal_text(index), secret: phrase }
}

/// Whether an entry at a position of a batch holds that position and the
/// twelve-word phrase of some sixteen bytes of entropy.
pub open spec fn is_mnemonic_entry(index: nat, e: EntryText) -> bool {
    &&& e.public_identifier == decimal_text(index)
    &&& word_count(e.secret) == PHRASE_WORDS
    &&& exists|entropy: Seq<u8>|
        entropy.len() == ENTROPY_BYTES && #[trigger] mnemonic_phrase_of(entropy) == Some(e.secret)
}

/// The entry for a phrase at a position of the batch.
pub fn mnemonic_entry(index: usize, phrase: String) -> (r: GeneratedEntry)
    ensures
        r@ == mnemonic_entry_text(index as nat, phrase@),
{
    GeneratedEntry::new(crate::encode::decimal(index), phrase)
}

/// The entry at a position of the batch for the given entropy: the position
/// in decimal and the entropy's phrase. `None` exactly where the entropy is
/// refused, which sixteen bytes never are.
pub fn mnemonic_entry_from_entropy(index: usize, entropy: &Vec<u8>) -> (r: Option<GeneratedEntry>)
    ensures
        match mnemonic_phrase_of(entropy@) {
            Some(phrase) => r matches Some(e) && e@ == mnemonic_entry_text(index as nat, phrase),
            None => r.is_none(),
        },
        entropy@.len() == ENTROPY_BYTES ==> r.is_some() && is_mnemonic_entry(
            index as nat,
            r.unwrap()@,
        ),
{
    match mnemonic_phrase(entropy) {
        Some(phrase) => Some(mnemonic_entry(index, phrase)),
        None => None,
    }
}

/// Generates `count` entries, each from sixteen bytes of entropy of its own
/// drawn from the operating system. The entry at position `i` holds `i` in
/// decimal and a phrase of twelve words. Fails with `RngFailure`, and with
/// nothing else, where the entropy source does.
pub fn generate_mnemonic(count: usize) -> (r: Result<Vec<GeneratedEntry>, GenError>)
    ensures
        match r {
            Ok(batch) => batch@.len() == count && forall|i: int|
                0 <= i < count ==> is_mnemonic_entry(i as nat, #[trigger] batch@[i]@),
            Err(e) => e == GenError::RngFailure && count > 0,
        },
{
    let mut batch: Vec<GeneratedEntry> = Vec::new();
    let mut n: usize = 0;
    while n < count
        invariant
            n <= count,
            batch@.len() == n,
            forall|i: int| 0 <= i < n ==> is_mnemonic_entry(i as nat, #[trigger] batch@[i]@),
        decreases count - n,
    {
        let entropy = match fresh_entropy(ENTROPY_BYTES) {
            Ok(bytes) => bytes,
            Err(_) => {
                return Err(GenError::RngFailure);
            },
        };
        match mnemonic_entry_from_entropy(n, &entropy) {
            Some(entry) => {
                batch.push(entry);
            },
            None => {
                // Entropy of the length asked for is never refused.
                assert(false);
            },
        }
        n += 1;
    }
    Ok(batch)
}

} // verus!
