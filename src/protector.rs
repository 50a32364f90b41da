use vstd::prelude::*;
use vstd::utf8::{decode_utf8, encode_utf8, valid_utf8};

use crate::codec::{encrypt_with_public_der, encrypts, spki_modulus_len};
use crate::error::ProtectError;
use crate::pkcs1::{block_text, decode_decrypted_block, pkcs1_payload};
use crate::secret::lemma_storage_secret_bytes;
use crate::secret::{generate_password, meets_policy, PasswordPolicy, DEFAULT_SECRET_LEN};
use crate::state::PasswordProtector;

verus! {

/// The hardware-token protection strategy. It holds the secret it last
/// protected or recovered, so that later requests in the same session do not
/// touch the token again.
pub struct YubiKeyManager {
    password: Option<String>,
}

/// What a recovery through the token may end in. `raw` is the call that has
/// the token decrypt the stored ciphertext; `before` and `after` are the cached
/// secret around the recovery.
pub open spec fn recovery_outcome<F: FnOnce() -> Result<Vec<u8>, ProtectError>>(
    raw: F,
    before: Option<Seq<char>>,
    after: Option<Seq<char>>,
    r: Result<String, ProtectError>,
) -> bool {
    match r {
        Ok(s) => {
            &&& after == Some(s@)
            &&& exists|b: Vec<u8>| #[trigger]
                raw.ensures((), Ok::<Vec<u8>, ProtectError>(b)) && block_text(b@) == Some(s@)
                    && exact_text(b@, s@)
        },
        Err(e) => {
            &&& after == before
            &&& raw.ensures((), Err::<Vec<u8>, ProtectError>(e)) || (e == ProtectError::InvalidPadding
                && exists|b: Vec<u8>| #[trigger]
                raw.ensures((), Ok::<Vec<u8>, ProtectError>(b)) && block_text(b@) is None)
        },
    }
}

/// Key material that parses, with room for a message of `msg_len` bytes and
/// the eleven bytes of padding.
pub open spec fn key_fits(der: Seq<u8>, msg_len: nat) -> bool {
    spki_modulus_len(der) is Some && msg_len + 11 <= spki_modulus_len(der)->Some_0
}

/// Every outcome that `read_public_key` may have is key material with room
/// for a message of `msg_len` bytes.
pub open spec fn key_read_fits<F: FnOnce() -> Result<Vec<u8>, ProtectError>>(
    read_public_key: F,
    msg_len: nat,
) -> bool {
    forall|res: Result<Vec<u8>, ProtectError>| #[trigger]
        read_public_key.ensures((), res) ==> res is Ok && key_fits(res->Ok_0@, msg_len)
}

/// A block whose payload is valid UTF-8 yields exactly the payload's characters.
pub open spec fn exact_text(block: Seq<u8>, text: Seq<char>) -> bool {
    pkcs1_payload(block) is Some && valid_utf8(pkcs1_payload(block)->Some_0) ==> text == decode_utf8(
        pkcs1_payload(block)->Some_0,
    )
}

/// What `get_password` may end in: the cached secret when there is one,
/// otherwise whatever a recovery may end in.
pub open spec fn password_outcome<F: FnOnce() -> Result<Vec<u8>, ProtectError>>(
    raw: F,
    before: Option<Seq<char>>,
    after: Option<Seq<char>>,
    r: Result<String, ProtectError>,
) -> bool {
    match before {
        Some(p) => r is Ok && r->Ok_0@ == p && after == before,
        None => recovery_outcome(raw, before, after, r),
    }
}

impl YubiKeyManager {
    /// The secret held for this session, if any.
    pub closed spec fn cached(&self) -> Option<Seq<char>> {
        match self.password {
            Some(p) => Some(p@),
            None => None,
        }
    }

    /// A manager that holds no secret yet.
    pub fn new() -> (m: YubiKeyManager)
        ensures
            m.cached() is None,
    {
        YubiKeyManager { password: None }
    }

    /// The secret held for this session, if any.
    pub fn cached_password(&self) -> (r: Option<String>)
        ensures
            match r {
                Some(s) => self.cached() == Some(s@),
                None => self.cached() is None,
            },
    {
        match &self.password {
            Some(p) => Some(p.clone()),
            None => None,
        }
    }

    /// Encrypts `password` under the public key that `read_public_key` reads
    /// from the token's key-management slot, and keeps it for the session.
    /// Returns the ciphertext to store.
    pub fn encrypt<F: FnOnce() -> Result<Vec<u8>, ProtectError>>(
        &mut self,
        password: String,
        read_public_key: F,
    ) -> (r: Result<Vec<u8>, ProtectError>)
        requires
            read_public_key.requires(()),
        ensures
            match r {
                Ok(c) => {
                    &&& final(self).cached() == Some(password@)
                    &&& exists|der: Vec<u8>| #[trigger]
                        read_public_key.ensures((), Ok::<Vec<u8>, ProtectError>(der)) && key_fits(
                            der@,
                            encode_utf8(password@).len(),
                        ) && c@.len() == spki_modulus_len(der@)->Some_0 && encrypts(
                            der@,
                            encode_utf8(password@),
                            c@,
                        )
                },
                Err(e) => {
                    &&& final(self).cached() == old(self).cached()
                    &&& read_public_key.ensures((), Err::<Vec<u8>, ProtectError>(e)) || exists|
                        der: Vec<u8>,
                    | #[trigger]
                        read_public_key.ensures((), Ok::<Vec<u8>, ProtectError>(der)) && ((e
                            == ProtectError::InvalidKeyMaterial && spki_modulus_len(der@) is None)
                            || (e == ProtectError::EncryptionFailed && spki_modulus_len(der@) is Some
                            && !key_fits(der@, encode_utf8(password@).len())))
                },
            },
            key_read_fits(read_public_key, encode_utf8(password@).len()) ==> r is Ok,
    {
        let der = match read_public_key() {
            Ok(d) => d,
            Err(e) => {
                return Err(e);
            },
        };
        let ciphertext = match encrypt_with_public_der(der.as_slice(), password.as_str().as_bytes()) {
            Ok(c) => c,
            Err(e) => {
                return Err(e);
            },
        };
        self.password = Some(password);
        Ok(ciphertext)
    }

    /// Recovers the secret from a block that the token decrypted: checks and
    /// removes the padding, decodes the text, and keeps it for the session.
    pub fn recover_from_block(&mut self, block: &[u8]) -> (r: Result<String, ProtectError>)
        ensures
            match block_text(block@) {
                Some(t) => r is Ok && r->Ok_0@ == t && final(self).cached() == Some(t) && exact_text(
                    block@,
                    t,
                ),
                None => r == Err::<String, ProtectError>(ProtectError::InvalidPadding)
                    && final(self).cached() == old(self).cached(),
            },
    {
        match decode_decrypted_block(block) {
            Ok(text) => {
                self.password = Some(text.clone());
                Ok(text)
            },
            Err(e) => Err(e),
        }
    }

    /// Recovers the secret through the token: `token_decrypt` has the token
    /// decrypt the stored ciphertext and returns the raw block.
    pub fn decrypt<F: FnOnce() -> Result<Vec<u8>, ProtectError>>(&mut self, token_decrypt: F) -> (r:
        Result<String, ProtectError>)
        requires
            token_decrypt.requires(()),
        ensures
            recovery_outcome(token_decrypt, old(self).cached(), final(self).cached(), r),
    {
        match token_decrypt() {
            Ok(block) => self.recover_from_block(block.as_slice()),
            Err(e) => Err(e),
        }
    }

    /// The session's secret: the one held, without touching the token, or
    /// else the one recovered through `token_decrypt`.
    pub fn get_password<F: FnOnce() -> Result<Vec<u8>, ProtectError>>(
        &mut self,
        token_decrypt: F,
    ) -> (r: Result<String, ProtectError>)
        requires
            old(self).cached() is None ==> token_decrypt.requires(()),
        ensures
            password_outcome(token_decrypt, old(self).cached(), final(self).cached(), r),
    {
        match &self.password {
            Some(p) => Ok(p.clone()),
            None => self.decrypt(token_decrypt),
        }
    }
}

/// Once a recovery has succeeded, the manager holds the recovered secret, and
/// every later `get_password` returns that same secret and keeps it, whatever
/// the token would answer.
pub proof fn lemma_cache_consistency<F, G>(
    raw: F,
    before: Option<Seq<char>>,
    after: Option<Seq<char>>,
    r: Result<String, ProtectError>,
    later_raw: G,
    later: Option<Seq<char>>,
    later_r: Result<String, ProtectError>,
)
    where
        F: FnOnce() -> Result<Vec<u8>, ProtectError>,
        G: FnOnce() -> Result<Vec<u8>, ProtectError>,
    requires
        recovery_outcome(raw, before, after, r),
        r is Ok,
        password_outcome(later_raw, after, later, later_r),
    ensures
        after == Some(r->Ok_0@),
        later_r is Ok,
        later_r->Ok_0@ == r->Ok_0@,
        later == after,
{
}

/// Generates a passphrase under the storage policy and protects it with the
/// selected strategy. Returns the ciphertext to store; on success the manager
/// holds the new passphrase.
pub fn protect_password<F: FnOnce() -> Result<Vec<u8>, ProtectError>>(
    protector: &PasswordProtector,
    manager: &mut YubiKeyManager,
    read_public_key: F,
) -> (r: Result<Vec<u8>, ProtectError>)
    requires
        *protector == PasswordProtector::YubiKey ==> read_public_key.requires(()),
    ensures
        *protector == PasswordProtector::Unset ==> r == Err::<Vec<u8>, ProtectError>(
            ProtectError::NotImplemented),
        r is Ok ==> *protector == PasswordProtector::YubiKey,
        r is Ok ==> exists|p: Seq<char>, der: Vec<u8>|
            final(manager).cached() == Some(p) && #[trigger] meets_policy(
                PasswordPolicy::spec_storage_default(),
                p,
            ) && #[trigger] read_public_key.ensures((), Ok::<Vec<u8>, ProtectError>(der))
                && key_fits(der@, DEFAULT_SECRET_LEN as nat) && r->Ok_0@.len() == spki_modulus_len(
                der@,
            )->Some_0 && encrypts(der@, encode_utf8(p), r->Ok_0@),
        *protector == PasswordProtector::YubiKey && key_read_fits(
            read_public_key,
            DEFAULT_SECRET_LEN as nat,
        ) ==> r is Ok,
        r is Err ==> final(manager).cached() == old(manager).cached(),
        match r {
            Ok(_) => true,
            Err(e) => *protector == PasswordProtector::Unset || read_public_key.ensures(
                (),
                Err::<Vec<u8>, ProtectError>(e),
            ) || e == ProtectError::InvalidKeyMaterial || e == ProtectError::EncryptionFailed,
        },
{
    match protector {
        PasswordProtector::YubiKey => {
            let policy = PasswordPolicy::storage_default();
            let password = match generate_password(&policy) {
                Ok(p) => p,
                Err(e) => {
                    return Err(e);
                },
            };
            proof {
                lemma_storage_secret_bytes(password@);
            }
            manager.encrypt(password, read_public_key)
        },
        PasswordProtector::Unset => Err(ProtectError::NotImplemented),
    }
}

} // verus!
