use address_gen::generate::generate_named;
use address_gen::network::{plan, GenError, Network, Request};

#[test]
fn names_select_networks_in_any_case() {
    assert_eq!(Network::parse("evm"), Ok(Network::Evm));
    assert_eq!(Network::parse("EVM"), Ok(Network::Evm));
    assert_eq!(Network::parse("Solana"), Ok(Network::Solana));
    assert_eq!(Network::parse("MNEMONIC"), Ok(Network::Mnemonic));
}

#[test]
fn lowercase_names_are_matched_exactly() {
    assert_eq!(Network::from_lowercase_name(&String::from("solana")), Ok(Network::Solana));
    assert_eq!(
        Network::from_lowercase_name(&String::from("EVM")),
        Err(GenError::UnsupportedNetwork)
    );
    assert_eq!(Network::from_lowercase_name(&String::new()), Err(GenError::UnsupportedNetwork));
    assert_eq!(
        Network::from_lowercase_name(&String::from("evm ")),
        Err(GenError::UnsupportedNetwork)
    );
}

#[test]
fn unknown_network_is_refused() {
    assert_eq!(plan(Some(1), Some("unknown_chain")), Err(GenError::UnsupportedNetwork));
    assert!(GenError::UnsupportedNetwork.message().contains("Unsupported network"));
    assert_eq!(
        generate_named(Some(1), Some("unknown_chain")).err(),
        Some(GenError::UnsupportedNetwork)
    );
}

#[test]
fn zero_or_missing_count_is_refused() {
    assert_eq!(plan(Some(0), Some("evm")), Err(GenError::InvalidCount));
    assert_eq!(plan(None, Some("evm")), Err(GenError::InvalidCount));
    assert_eq!(plan(None, None), Err(GenError::InvalidCount));
    assert_eq!(generate_named(Some(0), Some("solana")).err(), Some(GenError::InvalidCount));
}

#[test]
fn count_is_looked_at_before_the_network() {
    assert_eq!(plan(Some(0), Some("unknown_chain")), Err(GenError::InvalidCount));
}

#[test]
fn missing_network_selects_evm() {
    assert_eq!(plan(Some(5), None), Ok(Request { count: 5, network: Network::Evm }));
    assert_eq!(Network::default(), Network::Evm);
}

#[test]
fn plan_keeps_count_and_network() {
    assert_eq!(
        plan(Some(2), Some("Mnemonic")),
        Ok(Request { count: 2, network: Network::Mnemonic })
    );
}

#[test]
fn labels_are_upper_case_for_address_networks() {
    assert_eq!(Network::Evm.label(), "EVM");
    assert_eq!(Network::Solana.label(), "SOLANA");
    assert_eq!(Network::Mnemonic.label(), "mnemonic");
    assert!(Network::Evm.is_address_based());
    assert!(Network::Solana.is_address_based());
    assert!(!Network::Mnemonic.is_address_based());
}

#[test]
fn every_error_has_a_message() {
    assert_eq!(
        GenError::InvalidCount.message(),
        "Please specify a number greater than 0 using -c or --count"
    );
    assert_eq!(GenError::UnsupportedNetwork.message(), "Unsupported network type");
    assert_eq!(GenError::IoError.message(), "Failed to write the output");
    assert_eq!(GenError::RngFailure.message(), "Failed to draw entropy");
}
