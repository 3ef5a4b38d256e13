use address_gen::entry::GeneratedEntry;
use address_gen::evm::{derive_evm_address, evm_entry, format_evm_address, generator_evm_addresses};
use address_gen::generate::{generate, generate_named};
use address_gen::mnemonic::{generate_mnemonic, mnemonic_entry, mnemonic_entry_from_entropy};
use address_gen::network::{Network, Request};
use address_gen::solana::{generate_sol_addresses, solana_entry, solana_entry_of_keypair};
use bip39::{Language, Mnemonic};
use ethers_signers::{LocalWallet, Signer};
use solana_sdk::bs58;

fn unhex(text: &str) -> Vec<u8> {
    let digits: Vec<u8> = text.chars().map(|c| c.to_digit(16).unwrap() as u8).collect();
    digits.chunks(2).map(|pair| pair[0] * 16 + pair[1]).collect()
}

fn has_address_shape(text: &str) -> bool {
    text.len() == 42
        && text.starts_with("0x")
        && text[2..].chars().all(|c| matches!(c, '0'..='9' | 'a'..='f'))
}

#[test]
fn batch_has_the_requested_length() {
    for network in [Network::Evm, Network::Solana, Network::Mnemonic] {
        for count in [1usize, 2, 7] {
            let batch = generate(Request { count, network }).unwrap();
            assert_eq!(batch.len(), count);
        }
    }
    assert_eq!(generator_evm_addresses(0).len(), 0);
    assert_eq!(generate_sol_addresses(0).len(), 0);
    assert_eq!(generate_mnemonic(0).unwrap().len(), 0);
}

#[test]
fn generate_named_hands_back_the_request() {
    let (request, batch) = generate_named(Some(3), Some("SOLANA")).unwrap();
    assert_eq!(request, Request { count: 3, network: Network::Solana });
    assert_eq!(batch.len(), 3);
    let (request, batch) = generate_named(Some(2), None).unwrap();
    assert_eq!(request, Request { count: 2, network: Network::Evm });
    assert!(batch.iter().all(|e| has_address_shape(&e.public_identifier)));
}

#[test]
fn evm_address_has_its_shape_and_belongs_to_the_secret() {
    for entry in generator_evm_addresses(5) {
        assert!(has_address_shape(&entry.public_identifier));
        assert_eq!(entry.secret.len(), 64);
        let secret = unhex(&entry.secret);
        assert_eq!(hex_of(&secret), entry.secret);
        let wallet = LocalWallet::from_bytes(&secret).unwrap();
        assert_eq!(format!("0x{:x}", wallet.address()), entry.public_identifier);
        assert_eq!(derive_evm_address(&secret), Some(entry.public_identifier.clone()));
    }
}

fn hex_of(bytes: &[u8]) -> String {
    bytes.iter().map(|b| format!("{:02x}", b)).collect()
}

#[test]
fn evm_address_of_known_secrets() {
    let secret = unhex("ac0974bec39a17e36ba4a6b4d238ff944bacb478cbed5efcae784d7bf4f2ff80");
    assert_eq!(
        derive_evm_address(&secret),
        Some(String::from("0xf39fd6e51aad88f6f4ce6ab8827279cfffb92266"))
    );
    let mut one = vec![0u8; 32];
    one[31] = 1;
    assert_eq!(
        derive_evm_address(&one),
        Some(String::from("0x7e5f4552091a69125d5dfcb7b8c2659029395bdf"))
    );
}

#[test]
fn evm_address_of_invalid_secrets_is_none() {
    assert_eq!(derive_evm_address(&vec![0u8; 32]), None);
    assert_eq!(derive_evm_address(&vec![0xffu8; 32]), None);
    assert_eq!(derive_evm_address(&vec![1u8; 31]), None);
    assert_eq!(derive_evm_address(&vec![1u8; 33]), None);
    assert_eq!(derive_evm_address(&Vec::new()), None);
}

#[test]
fn evm_entry_writes_both_fields_in_hex() {
    let entry = evm_entry(&vec![0x01, 0xab], &vec![0xff, 0x00, 0x12]);
    assert_eq!(
        entry,
        GeneratedEntry::new(String::from("0xff0012"), String::from("01ab"))
    );
    assert_eq!(format_evm_address(&vec![0u8; 20]), format!("0x{}", "0".repeat(40)));
}

#[test]
fn solana_entry_decodes_to_keypair_and_public_key() {
    for entry in generate_sol_addresses(5) {
        let public = bs58::decode(&entry.public_identifier).into_vec().unwrap();
        let secret = bs58::decode(&entry.secret).into_vec().unwrap();
        assert_eq!(public.len(), 32);
        assert_eq!(secret.len(), 64);
        assert_eq!(&secret[32..], &public[..]);
        assert_eq!(solana_entry_of_keypair(&secret), Some(entry.clone()));
    }
}

#[test]
fn solana_entry_of_known_bytes() {
    let entry = solana_entry(&vec![0u8; 64], &vec![0u8; 32]).unwrap();
    assert_eq!(entry.public_identifier, "1".repeat(32));
    assert_eq!(entry.secret, "1".repeat(64));
    let mut public = vec![0u8; 32];
    public[31] = 58;
    let entry = solana_entry(&vec![0u8, 0, 1], &public).unwrap();
    assert_eq!(entry.public_identifier, format!("{}21", "1".repeat(31)));
    assert_eq!(entry.secret, "112");
}

#[test]
fn solana_entry_needs_a_public_key_of_32_bytes() {
    assert_eq!(solana_entry(&vec![0u8; 64], &vec![0u8; 31]), None);
    assert_eq!(solana_entry(&vec![0u8; 64], &vec![0u8; 33]), None);
    assert_eq!(solana_entry_of_keypair(&vec![0u8; 63]), None);
    assert_eq!(solana_entry_of_keypair(&vec![0u8; 65]), None);
}

#[test]
fn solana_entry_of_keypair_takes_the_second_half() {
    let mut keypair = vec![7u8; 64];
    for b in keypair.iter_mut().skip(32) {
        *b = 0;
    }
    let entry = solana_entry_of_keypair(&keypair).unwrap();
    assert_eq!(entry.public_identifier, "1".repeat(32));
    assert_eq!(bs58::decode(&entry.secret).into_vec().unwrap(), keypair);
}

#[test]
fn mnemonic_has_twelve_valid_words() {
    let batch = generate_mnemonic(6).unwrap();
    for (i, entry) in batch.iter().enumerate() {
        assert_eq!(entry.public_identifier, i.to_string());
        assert_eq!(entry.secret.split(' ').count(), 12);
        let parsed = Mnemonic::parse_in(Language::English, entry.secret.as_str()).unwrap();
        assert_eq!(parsed.word_count(), 12);
        assert_eq!(parsed.to_entropy().len(), 16);
    }
}

#[test]
fn phrase_of_known_entropy() {
    assert_eq!(
        mnemonic_entry_from_entropy(0, &vec![0u8; 16]),
        Some(GeneratedEntry::new(
            String::from("0"),
            String::from(
                "abandon abandon abandon abandon abandon abandon abandon abandon abandon abandon abandon about"
            )
        ))
    );
    assert_eq!(
        mnemonic_entry_from_entropy(23, &vec![0xffu8; 16]),
        Some(GeneratedEntry::new(
            String::from("23"),
            String::from("zoo zoo zoo zoo zoo zoo zoo zoo zoo zoo zoo wrong")
        ))
    );
}

#[test]
fn phrase_of_refused_entropy_is_none() {
    assert_eq!(mnemonic_entry_from_entropy(0, &vec![0u8; 15]), None);
    assert_eq!(mnemonic_entry_from_entropy(0, &Vec::new()), None);
    assert_eq!(mnemonic_entry_from_entropy(0, &vec![0u8; 36]), None);
}

#[test]
fn longer_entropy_gives_longer_phrases() {
    let entry = mnemonic_entry_from_entropy(1, &vec![0u8; 32]).unwrap();
    assert_eq!(entry.secret.split(' ').count(), 24);
}

#[test]
fn mnemonic_entry_holds_index_and_phrase() {
    assert_eq!(
        mnemonic_entry(11, String::from("a b")),
        GeneratedEntry::new(String::from("11"), String::from("a b"))
    );
}

#[test]
fn successive_batches_share_no_secret() {
    for network in [Network::Evm, Network::Solana, Network::Mnemonic] {
        let first = generate(Request { count: 4, network }).unwrap();
        let second = generate(Request { count: 4, network }).unwrap();
        let mut secrets: Vec<String> =
            first.iter().chain(second.iter()).map(|e| e.secret.clone()).collect();
        secrets.sort();
        secrets.dedup();
        assert_eq!(secrets.len(), 8);
    }
}
