//! A bridge that exposes cryptographic primitive types (public keys, hashes,
//! key pairs, signatures, mnemonic seed phrases) to a memory-managed foreign
//! caller as opaque handles, flat result/option envelopes and raw-parts byte
//! buffers.  The marshalling protocol is verified here; the cryptographic
//! algorithms themselves are delegated to outside libraries behind trusted
//! declarations.

pub mod b58;
pub mod bip39_export;
pub mod common_types;
pub mod handle;
pub mod hash_export;
pub mod keypair_export;
pub mod pubkey_export;
pub mod signature_export;
