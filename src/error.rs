use vstd::prelude::*;

verus! {

/// Every failure the protection subsystem reports to its caller.
#[derive(Debug, Clone, Copy, PartialEq, Eq, Structural)]
pub enum ProtectError {
    /// The serial number is not a decimal `u32`.
    InvalidSerial,
    /// No connected token carries the requested serial number.
    TokenNotFound,
    /// The token could not be reached or refused an operation.
    TokenCommunication,
    /// The PIN was rejected; the token reports the attempts left.
    PinIncorrect { retries: u8 },
    /// The key-management slot holds no usable RSA public key.
    InvalidKeyMaterial,
    /// The public-key encryption of the secret failed.
    EncryptionFailed,
    /// A decrypted block does not carry valid PKCS#1 v1.5 type 2 padding.
    InvalidPadding,
    /// The secret generation policy cannot be satisfied.
    GenerationFailed,
    /// No protection strategy is selected for this session.
    ProtectorUnset,
    /// The hardware strategy is selected but no token is.
    TokenNotSelected,
    /// The stored ciphertext record could not be read or written.
    StorageError,
    /// The selected strategy cannot protect a secret.
    NotImplemented,
}

} // verus!
