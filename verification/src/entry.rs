//! One generated entry and its mathematical model.

use vstd::prelude::*;

verus! {

/// What contracts say of an entry: its two texts.
pub struct EntryText {
    pub public_identifier: Seq<char>,
    pub secret: Seq<char>,
}

/// A public identifier with the secret material it belongs to. For the
/// networks with addresses the identifier is the address and the secret the
/// encoded private key; for mnemonics the identifier is a running index and
/// the secret the phrase.
#[derive(Clone, Debug, PartialEq, Eq)]
pub struct GeneratedEntry {
    pub public_identifier: String,
    pub secret: String,
}

impl View for GeneratedEntry {
    type V = EntryText;

    open spec fn view(&self) -> EntryText {
        EntryText { public_identifier: self.public_identifier@, secret: self.secret@ }
    }
}

impl GeneratedEntry {
    /// Pairs an identifier with its secret.
    pub fn new(public_identifier: String, secret: String) -> (r: GeneratedEntry)
        ensures
            r@ == (EntryText { public_identifier: public_identifier@, secret: secret@ }),
    {
        GeneratedEntry { public_identifier, secret }
    }
}

/// The models of the entries of a batch, in order.
pub open spec fn batch_text(batch: Seq<GeneratedEntry>) -> Seq<EntryText> {
    Seq::new(batch.len(), |i: int| batch[i]@)
}

} // verus!
