//! Batch generation of key material for EVM and Solana accounts and of
//! mnemonic phrases, and its tabular and console representation.

pub mod encode;
pub mod entry;
pub mod evm;
pub mod generate;
pub mod mnemonic;
pub mod network;
pub mod record;
pub mod solana;
