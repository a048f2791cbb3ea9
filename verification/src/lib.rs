//! Protocol engine for an authenticated, length-obfuscated tunnelling
//! protocol carried over a message transport: key derivation, sealed request
//! header decoding, response header encoding, target address parsing and the
//! relay decisions, each with a machine-checked contract.

pub mod digest;
pub mod aead;
pub mod kdf;
pub mod address;
pub mod salt;
pub mod header;
pub mod request;
pub mod response;
pub mod config;
pub mod stream;
pub mod relay;
pub mod vmess;
pub mod descriptor;
pub mod settings;
