//! Protects a storage passphrase with the key-management slot of a PIV
//! hardware token, and recovers it to unlock the local store.
//!
//! The token's own operations (PIN verification, reading the slot's public
//! key, on-device decryption) are supplied by the caller as closures or as
//! plain values; everything decided around them is verified here.

pub mod codec;
pub mod error;
pub mod models;
pub mod pkcs1;
pub mod protector;
pub mod secret;
pub mod state;
pub mod token;
