//! The supported networks, the errors of a run, and the choice of what to
//! generate from the values a caller supplies.

use vstd::prelude::*;
use vstd::string::StringExecFns;

verus! {

/// What a batch is generated for.
#[derive(Clone, Copy, Debug, PartialEq, Eq, Structural)]
pub enum Network {
    Evm,
    Solana,
    Mnemonic,
}

/// Why a run is given up.
#[derive(Clone, Copy, Debug, PartialEq, Eq, Structural)]
pub enum GenError {
    /// No count was given, or it was zero.
    InvalidCount,
    /// The network's name is none of the supported ones.
    UnsupportedNetwork,
    /// The output could not be written.
    IoError,
    /// The entropy source failed.
    RngFailure,
}

/// What one run is to produce.
#[derive(Clone, Copy, Debug, PartialEq, Eq, Structural)]
pub struct Request {
    pub count: usize,
    pub network: Network,
}

/// The lowercase form of a text, as `str::to_lowercase` computes it.
pub uninterp spec fn lowercase_of(text: Seq<char>) -> Seq<char>;

/// Calls `str::to_lowercase`. The result is a function of the text alone and
/// is known to contracts as `lowercase_of`.
#[verifier::external_body]
fn lowercase(text: &str) -> (r: String)
    ensures
        r@ == lowercase_of(text@),
{
    text.to_lowercase()
}

/// The network that a lowercase name selects, if any.
pub open spec fn network_named(name: Seq<char>) -> Option<Network> {
    if name == "evm"@ {
        Some(Network::Evm)
    } else if name == "solana"@ {
        Some(Network::Solana)
    } else if name == "mnemonic"@ {
        Some(Network::Mnemonic)
    } else {
        None
    }
}

/// The result of selecting a network by a lowercase name.
pub open spec fn selection(name: Seq<char>) -> Result<Network, GenError> {
    match network_named(name) {
        Some(n) => Ok(n),
        None => Err(GenError::UnsupportedNetwork),
    }
}

/// The request that a count and a network name, each possibly absent, lead
/// to. The count is looked at first; an absent name selects the default.
pub open spec fn planned(count: Option<usize>, name: Option<Seq<char>>) -> Result<
    Request,
    GenError,
> {
    match count {
        Some(c) if c > 0 => match name {
            None => Ok(Request { count: c, network: Network::Evm }),
            Some(text) => match selection(lowercase_of(text)) {
                Ok(n) => Ok(Request { count: c, network: n }),
                Err(e) => Err(e),
            },
        },
        _ => Err(GenError::InvalidCount),
    }
}

impl Default for Network {
    /// The network that is used where none is named.
    fn default() -> (r: Self)
        ensures
            r == Network::Evm,
    {
        Network::Evm
    }
}

impl Network {
    /// The name by which the network is written in tabular output.
    pub open spec fn label_text(self) -> Seq<char> {
        match self {
            Network::Evm => "EVM"@,
            Network::Solana => "SOLANA"@,
            Network::Mnemonic => "mnemonic"@,
        }
    }

    /// Whether entries of this network pair an address with a private key.
    pub open spec fn has_addresses(self) -> bool {
        self != Network::Mnemonic
    }

    /// The name by which the network is written in tabular output: upper case
    /// for the networks with addresses, `mnemonic` otherwise.
    pub fn label(&self) -> (r: String)
        ensures
            r@ == self.label_text(),
    {
        match self {
            Network::Evm => String::from_str("EVM"),
            Network::Solana => String::from_str("SOLANA"),
            Network::Mnemonic => String::from_str("mnemonic"),
        }
    }

    /// Whether entries of this network pair an address with a private key.
    pub fn is_address_based(&self) -> (r: bool)
        ensures
            r == self.has_addresses(),
    {
        match self {
            Network::Mnemonic => false,
            _ => true,
        }
    }

    /// Selects a network by its lowercase name.
    pub fn from_lowercase_name(name: &String) -> (r: Result<Network, GenError>)
        ensures
            r == selection(name@),
    {
        if *name == String::from_str("evm") {
            Ok(Network::Evm)
        } else if *name == String::from_str("solana") {
            Ok(Network::Solana)
        } else if *name == String::from_str("mnemonic") {
            Ok(Network::Mnemonic)
        } else {
            Err(GenError::UnsupportedNetwork)
        }
    }

    /// Selects a network by its name, in whatever case it is written.
    pub fn parse(name: &str) -> (r: Result<Network, GenError>)
        ensures
            r == selection(lowercase_of(name@)),
    {
        let lowered = lowercase(name);
        Network::from_lowercase_name(&lowered)
    }
}

impl GenError {
    /// The text of the one-line message for this error.
    pub open spec fn message_text(self) -> Seq<char> {
        match self {
            GenError::InvalidCount => "Please specify a number greater than 0 using -c or --count"@,
            GenError::UnsupportedNetwork => "Unsupported network type"@,
            GenError::IoError => "Failed to write the output"@,
            GenError::RngFailure => "Failed to draw entropy"@,
        }
    }

    /// The one-line message for this error.
    pub fn message(&self) -> (r: String)
        ensures
            r@ == self.message_text(),
    {
        match self {
            GenError::InvalidCount => String::from_str(
                "Please specify a number greater than 0 using -c or --count",
            ),
            GenError::UnsupportedNetwork => String::from_str("Unsupported network type"),
            GenError::IoError => String::from_str("Failed to write the output"),
            GenError::RngFailure => String::from_str("Failed to draw entropy"),
        }
    }
}

/// Decides what a run is to produce. A missing or zero count is refused
/// before the network is looked at; a missing network name selects the
/// default; a name that selects no network is refused.
pub fn plan(count: Option<usize>, network: Option<&str>) -> (r: Result<Request, GenError>)
    ensures
        r == planned(
            count,
            match network {
                Some(s) => Some(s@),
                None => None,
            },
        ),
{
    let c: usize = match count {
        Some(c) => c,
        None => {
            return Err(GenError::InvalidCount);
        },
    };
    if c == 0 {
        return Err(GenError::InvalidCount);
    }
    match network {
        None => Ok(Request { count: c, network: Network::default() }),
        Some(name) => match Network::parse(name) {
            Ok(n) => Ok(Request { count: c, network: n }),
            Err(e) => Err(e),
        },
    }
}

} // verus!
