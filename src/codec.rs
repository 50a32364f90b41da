use vstd::prelude::*;

use crate::error::ProtectError;
use crate::pkcs1::pkcs1_block;
use rsa::pkcs8::DecodePublicKey;
use rsa::traits::RandomizedEncryptor;

verus! {

/// The modulus length in bytes of the RSA public key that `der` holds as a
/// DER SubjectPublicKeyInfo, or `None` if `der` is no such key. Well-formed
/// key material that rsa refuses (a modulus over 4096 bits or an even one, an
/// even exponent or one outside 2..2^33-1) is `None` too.
pub uninterp spec fn spki_modulus_len(der: Seq<u8>) -> Option<nat>;

/// The raw RSA public-key operation of the key that `der` holds, applied to
/// the block `m` read as a big-endian integer, written big-endian and
/// left-padded to the modulus length.
pub uninterp spec fn rsa_public_op(der: Seq<u8>, m: Seq<u8>) -> Seq<u8>;

/// `c` is an encryption of `msg` under the key that `der` holds: the raw
/// public-key operation applied to a type 2 block that wraps `msg` behind
/// nonzero padding filling out the modulus.
pub open spec fn encrypts(der: Seq<u8>, msg: Seq<u8>, c: Seq<u8>) -> bool {
    exists|ps: Seq<u8>|
        ps.len() + msg.len() + 3 == spki_modulus_len(der)->Some_0 && (forall|i: int|
            0 <= i < ps.len() ==> ps[i] != 0) && c == rsa_public_op(der, #[trigger] pkcs1_block(ps, msg))
}

/// Relies on `RsaPublicKey::from_public_key_der` (rsa, via spki's
/// `DecodePublicKey`) to parse the key material, and on
/// `rsa::pkcs1v15::EncryptingKey::encrypt_with_rng`, fed by `rand`'s thread
/// generator, for randomized PKCS#1 v1.5 encryption. A parsed key passes the
/// public-key checks again; encryption then fails only when the message
/// leaves less than eleven bytes of padding, and the ciphertext is padded to
/// the modulus length. The block encrypted is `00 02 PS 00 msg`, with `PS`
/// nonzero random bytes filling out the modulus.
#[verifier::external_body]
fn rsa_pkcs1v15_encrypt(der: &[u8], msg: &[u8]) -> (r: Result<Vec<u8>, ProtectError>)
    ensures
        spki_modulus_len(der@) is None ==> (r is Err && r->Err_0 == ProtectError::InvalidKeyMaterial),
        spki_modulus_len(der@) is Some ==> (r is Ok <==> msg@.len() + 11 <= spki_modulus_len(
            der@,
        )->Some_0),
        spki_modulus_len(der@) is Some ==> (r is Err ==> r->Err_0 == ProtectError::EncryptionFailed),
        r is Ok ==> r->Ok_0@.len() == spki_modulus_len(der@)->Some_0,
        r is Ok ==> exists|ps: Seq<u8>|
            ps.len() + msg@.len() + 3 == spki_modulus_len(der@)->Some_0 && (forall|i: int|
                0 <= i < ps.len() ==> ps[i] != 0) && r->Ok_0@ == rsa_public_op(
                der@,
                #[trigger] pkcs1_block(ps, msg@),
            ),
{
    let key = rsa::RsaPublicKey::from_public_key_der(der).map_err(
        |_| ProtectError::InvalidKeyMaterial,
    )?;
    let enc = rsa::pkcs1v15::EncryptingKey::new(key);
    enc.encrypt_with_rng(&mut rand::thread_rng(), msg).map_err(|_| ProtectError::EncryptionFailed)
}

/// Encrypts `msg` under the RSA public key given as DER key material.
/// Unparsable material is `InvalidKeyMaterial`; a message that leaves less
/// than eleven bytes of the modulus for padding is `EncryptionFailed`. The
/// ciphertext is as long as the modulus and encrypts `msg` behind type 2
/// padding.
pub fn encrypt_with_public_der(der: &[u8], msg: &[u8]) -> (r: Result<Vec<u8>, ProtectError>)
    ensures
        spki_modulus_len(der@) is None ==> (r is Err && r->Err_0 == ProtectError::InvalidKeyMaterial),
        spki_modulus_len(der@) is Some ==> (r is Ok <==> msg@.len() + 11 <= spki_modulus_len(
            der@,
        )->Some_0),
        spki_modulus_len(der@) is Some ==> (r is Err ==> r->Err_0 == ProtectError::EncryptionFailed),
        r is Ok ==> r->Ok_0@.len() == spki_modulus_len(der@)->Some_0,
        r is Ok ==> encrypts(der@, msg@, r->Ok_0@),
{
    rsa_pkcs1v15_encrypt(der, msg)
}

} // verus!
