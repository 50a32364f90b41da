use vstd::prelude::*;
use vstd::utf8::encode_utf8;

use crate::error::ProtectError;
use crate::codec::{encrypts, spki_modulus_len};
use crate::pkcs1::pkcs1_payload;
use crate::protector::{key_fits, key_read_fits, password_outcome, protect_password, YubiKeyManager};
use crate::secret::{meets_policy, PasswordPolicy, DEFAULT_SECRET_LEN};
use crate::token::SelectedYubiKey;

verus! {

/// The protection strategy active in a session.
#[derive(Debug, Clone, Copy, PartialEq, Eq, Structural)]
pub enum PasswordProtector {
    YubiKey,
    Unset,
}

/// Session state: the selected token, the active strategy with the secret it
/// holds, and the storage handle `H` once the store is unlocked.
pub struct AppState<H> {
    pub selected_yubikey: Option<SelectedYubiKey>,
    pub protector: Option<PasswordProtector>,
    pub manager: YubiKeyManager,
    pub pool: Option<H>,
}

/// What the bootstrap hands to the storage engine: the passphrase, and the
/// ciphertext to store when the passphrase was generated by this run.
pub struct Bootstrap {
    pub password: String,
    pub new_record: Option<Vec<u8>>,
}

/// The token operation a bootstrap needs before it can run.
#[derive(Debug, Clone, Copy, PartialEq, Eq, Structural)]
pub enum TokenStep {
    /// No record exists: the public key of the key-management slot is needed.
    ReadPublicKey,
    /// A record exists and no secret is held: the token must decrypt it.
    Decrypt,
    /// A record exists and the secret is held: the token is not needed.
    NoTokenNeeded,
}

/// Why a bootstrap cannot start from this state, if it cannot.
pub open spec fn bootstrap_error<H>(s: AppState<H>) -> Option<ProtectError> {
    match s.protector {
        None => Some(ProtectError::ProtectorUnset),
        Some(PasswordProtector::Unset) => Some(ProtectError::ProtectorUnset),
        Some(PasswordProtector::YubiKey) => if s.selected_yubikey is None {
            Some(ProtectError::TokenNotSelected)
        } else {
            None
        },
    }
}

impl<H> AppState<H> {
    /// The state at process start: nothing selected, nothing unlocked.
    pub fn new() -> (s: AppState<H>)
        ensures
            s.selected_yubikey is None,
            s.protector is None,
            s.manager.cached() is None,
            s.pool is None,
    {
        AppState {
            selected_yubikey: None,
            protector: None,
            manager: YubiKeyManager::new(),
            pool: None,
        }
    }

    /// Records the selection of a token, given the outcome of verifying its
    /// PIN. On success the token and the hardware strategy become active and
    /// no secret of an earlier selection is kept; on failure nothing changes.
    pub fn select_yubikey(&mut self, data: SelectedYubiKey, verification: Result<(), ProtectError>) -> (r:
        Result<(), ProtectError>)
        ensures
            r == verification,
            r is Ok ==> final(self).selected_yubikey == Some(data),
            r is Ok ==> final(self).protector == Some(PasswordProtector::YubiKey),
            r is Ok ==> final(self).manager.cached() is None,
            r is Err ==> *final(self) == *old(self),
            final(self).pool == old(self).pool,
    {
        if verification.is_ok() {
            self.selected_yubikey = Some(data);
            self.protector = Some(PasswordProtector::YubiKey);
            self.manager = YubiKeyManager::new();
        }
        verification
    }

    /// Makes the given strategy the active one, without a token.
    pub fn set_protector(&mut self, protector: PasswordProtector)
        ensures
            final(self).protector == Some(protector),
            final(self).selected_yubikey == old(self).selected_yubikey,
            final(self).manager == old(self).manager,
            final(self).pool == old(self).pool,
    {
        self.protector = Some(protector);
    }

    /// Brings the session's secret into hand for unlocking the store.
    ///
    /// Fails with `ProtectorUnset` or `TokenNotSelected` when the session is
    /// not ready. When no ciphertext record exists for the selected token, a
    /// passphrase is generated under the storage policy and protected with the
    /// key that `read_public_key` reads from the token; the new ciphertext is
    /// returned for storing. Then the secret is taken from the manager, or
    /// recovered through `token_decrypt`. When a record exists, no new one is
    /// ever produced.
    pub fn init_database<F, G>(&mut self, record_exists: bool, read_public_key: F, token_decrypt: G) -> (r:
        Result<Bootstrap, ProtectError>) where
        F: FnOnce() -> Result<Vec<u8>, ProtectError>,
        G: FnOnce() -> Result<Vec<u8>, ProtectError>,

        requires
            bootstrap_error(*old(self)) is None && !record_exists ==> read_public_key.requires(()),
            bootstrap_error(*old(self)) is None && record_exists && old(self).manager.cached() is None
                ==> token_decrypt.requires(()),
        ensures
            final(self).selected_yubikey == old(self).selected_yubikey,
            final(self).protector == old(self).protector,
            final(self).pool == old(self).pool,
            bootstrap_error(*old(self)) is Some ==> r == Err::<Bootstrap, ProtectError>(
                bootstrap_error(*old(self))->Some_0) && final(self).manager == old(self).manager,
            r is Ok ==> bootstrap_error(*old(self)) is None,
            r is Ok ==> final(self).manager.cached() == Some(r->Ok_0.password@),
            record_exists && r is Ok ==> r->Ok_0.new_record is None,
            record_exists && bootstrap_error(*old(self)) is None ==> password_outcome(
                token_decrypt,
                old(self).manager.cached(),
                final(self).manager.cached(),
                match r {
                    Ok(b) => Ok::<String, ProtectError>(b.password),
                    Err(e) => Err::<String, ProtectError>(e),
                },
            ),
            r is Err ==> final(self).manager.cached() == old(self).manager.cached(),
            !record_exists && bootstrap_error(*old(self)) is None ==> match r {
                Ok(_) => true,
                Err(e) => read_public_key.ensures((), Err::<Vec<u8>, ProtectError>(e)) || e
                    == ProtectError::InvalidKeyMaterial || e == ProtectError::EncryptionFailed,
            },
            !record_exists && bootstrap_error(*old(self)) is None && key_read_fits(
                read_public_key,
                DEFAULT_SECRET_LEN as nat,
            ) ==> r is Ok,
            !record_exists && r is Ok ==> r->Ok_0.new_record is Some && exists|der: Vec<u8>| #[trigger]
                read_public_key.ensures((), Ok::<Vec<u8>, ProtectError>(der)) && key_fits(
                    der@,
                    DEFAULT_SECRET_LEN as nat,
                ) && r->Ok_0.new_record->Some_0@.len() == spki_modulus_len(der@)->Some_0 && encrypts(
                    der@,
                    encode_utf8(r->Ok_0.password@),
                    r->Ok_0.new_record->Some_0@,
                ),
            record_exists && bootstrap_error(*old(self)) is None && old(self).manager.cached() is None
                && (forall|res: Result<Vec<u8>, ProtectError>| #[trigger]
                token_decrypt.ensures((), res) ==> res is Ok && pkcs1_payload(res->Ok_0@) is None)
                ==> r is Err && r->Err_0 == ProtectError::InvalidPadding,
            !record_exists && r is Ok ==> r->Ok_0.new_record is Some && meets_policy(
                PasswordPolicy::spec_storage_default(),
                r->Ok_0.password@,
            ),
    {
        let protector = match self.protector {
            Some(p) => p,
            None => {
                return Err(ProtectError::ProtectorUnset);
            },
        };
        match protector {
            PasswordProtector::Unset => {
                return Err(ProtectError::ProtectorUnset);
            },
            PasswordProtector::YubiKey => {},
        }
        if self.selected_yubikey.is_none() {
            return Err(ProtectError::TokenNotSelected);
        }
        let new_record = if record_exists {
            None
        } else {
            match protect_password(&protector, &mut self.manager, read_public_key) {
                Ok(ciphertext) => Some(ciphertext),
                Err(e) => {
                    return Err(e);
                },
            }
        };
        match self.manager.get_password(token_decrypt) {
            Ok(password) => Ok(Bootstrap { password, new_record }),
            Err(e) => Err(e),
        }
    }

    /// Says which token operation a bootstrap from this state needs, or why
    /// the bootstrap cannot start.
    pub fn token_step(&self, record_exists: bool) -> (r: Result<TokenStep, ProtectError>)
        ensures
            bootstrap_error(*self) is Some ==> r == Err::<TokenStep, ProtectError>(
                bootstrap_error(*self)->Some_0,
            ),
            bootstrap_error(*self) is None && !record_exists ==> r == Ok::<TokenStep, ProtectError>(
                TokenStep::ReadPublicKey,
            ),
            bootstrap_error(*self) is None && record_exists && self.manager.cached() is None ==> r
                == Ok::<TokenStep, ProtectError>(TokenStep::Decrypt),
            bootstrap_error(*self) is None && record_exists && self.manager.cached() is Some ==> r
                == Ok::<TokenStep, ProtectError>(TokenStep::NoTokenNeeded),
    {
        match self.protector {
            None => Err(ProtectError::ProtectorUnset),
            Some(PasswordProtector::Unset) => Err(ProtectError::ProtectorUnset),
            Some(PasswordProtector::YubiKey) => {
                if self.selected_yubikey.is_none() {
                    Err(ProtectError::TokenNotSelected)
                } else if !record_exists {
                    Ok(TokenStep::ReadPublicKey)
                } else if self.manager.cached_password().is_none() {
                    Ok(TokenStep::Decrypt)
                } else {
                    Ok(TokenStep::NoTokenNeeded)
                }
            },
        }
    }

    /// Stores the handle that the storage engine returned for the recovered
    /// passphrase.
    pub fn finish_bootstrap(&mut self, handle: H)
        ensures
            final(self).pool == Some(handle),
            final(self).selected_yubikey == old(self).selected_yubikey,
            final(self).protector == old(self).protector,
            final(self).manager == old(self).manager,
    {
        self.pool = Some(handle);
    }
}

} // verus!
