//! The generation of a batch for a request.

use crate::entry::{batch_text, EntryText, GeneratedEntry};
use crate::evm::{generator_evm_addresses, is_evm_address_text, is_evm_entry, is_evm_secret_text};
use crate::mnemonic::{generate_mnemonic, is_mnemonic_entry};
use crate::network::{plan, planned, GenError, Network, Request};
use crate::solana::{generate_sol_addresses, is_solana_entry};
use vstd::prelude::*;

verus! {

/// Whether an entry at a position of a batch is one of the given network.
pub open spec fn is_entry_of(network: Network, position: nat, e: EntryText) -> bool {
    match network {
        Network::Evm => is_evm_entry(e) && is_evm_address_text(e.public_identifier)
            && is_evm_secret_text(e.secret),
        Network::Solana => is_solana_entry(e),
        Network::Mnemonic => is_mnemonic_entry(position, e),
    }
}

/// Whether a batch answers a request: it has as many entries as were asked
/// for, and each is one of the network asked for.
pub open spec fn answers(request: Request, entries: Seq<EntryText>) -> bool {
    &&& entries.len() == request.count
    &&& forall|i: int|
        0 <= i < entries.len() ==> is_entry_of(request.network, i as nat, #[trigger] entries[i])
}

/// Generates the batch for a request. It has exactly `count` entries, in the
/// order in which they were generated. Only the generation of mnemonics can
/// fail, with `RngFailure`, where the entropy source does.
pub fn generate(request: Request) -> (r: Result<Vec<GeneratedEntry>, GenError>)
    ensures
        match r {
            Ok(batch) => batch@.len() == request.count && answers(request, batch_text(batch@)),
            Err(e) => e == GenError::RngFailure && request.network == Network::Mnemonic
                && request.count > 0,
        },
{
    match request.network {
        Network::Evm => {
            let batch = generator_evm_addresses(request.count);
            Ok(batch)
        },
        Network::Solana => {
            let batch = generate_sol_addresses(request.count);
            Ok(batch)
        },
        Network::Mnemonic => generate_mnemonic(request.count),
    }
}

/// Decides what a count and a network name ask for and generates it. A
/// missing or zero count fails with `InvalidCount` and a name that selects no
/// network with `UnsupportedNetwork`, both before anything is generated.
pub fn generate_named(count: Option<usize>, network: Option<&str>) -> (r: Result<
    (Request, Vec<GeneratedEntry>),
    GenError,
>)
    ensures
        match (
            planned(
                count,
                match network {
                    Some(s) => Some(s@),
                    None => None,
                },
            ),
            r,
        ) {
            (Ok(request), Ok(done)) => done.0 == request && answers(request, batch_text(done.1@)),
            (Ok(request), Err(e)) => e == GenError::RngFailure && request.network
                == Network::Mnemonic,
            (Err(refused), Err(e)) => e == refused,
            (Err(_), Ok(_)) => false,
        },
{
    let request = match plan(count, network) {
        Ok(request) => request,
        Err(e) => {
            return Err(e);
        },
    };
    match generate(request) {
        Ok(batch) => Ok((request, batch)),
        Err(e) => Err(e),
    }
}

} // verus!
