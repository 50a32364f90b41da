use vstd::prelude::*;
use vstd::utf8::{decode_utf8, encode_utf8, valid_utf8};

use crate::error::ProtectError;

verus! {

/// The shortest block that can carry type 2 padding: two marker bytes, eight
/// padding bytes and the separator.
pub const MIN_PADDED_LEN: usize = 11;

/// Index of the first zero byte of `b` at or after `i`, or `b.len()` if none.
pub open spec fn zero_index_from(b: Seq<u8>, i: int) -> int
    decreases b.len() - i,
{
    if i >= b.len() {
        b.len() as int
    } else if b[i] == 0 {
        i
    } else {
        zero_index_from(b, i + 1)
    }
}

/// The payload carried by a PKCS#1 v1.5 encryption block, or `None` if the
/// block is not of the form `00 02 <nonzero bytes> 00 <payload>` with at
/// least eleven bytes in all.
pub open spec fn pkcs1_payload(b: Seq<u8>) -> Option<Seq<u8>> {
    if b.len() < MIN_PADDED_LEN || b[0] != 0 || b[1] != 2 {
        None
    } else {
        let j = zero_index_from(b, 2);
        if j >= b.len() {
            None
        } else {
            Some(b.subrange(j + 1, b.len() as int))
        }
    }
}

/// The encryption block that wraps `payload` behind the padding string `ps`.
pub open spec fn pkcs1_block(ps: Seq<u8>, payload: Seq<u8>) -> Seq<u8> {
    seq![0u8, 2u8] + ps + seq![0u8] + payload
}

/// Text of `b` decoded as UTF-8, each invalid sequence replaced by U+FFFD.
pub uninterp spec fn utf8_lossy_of(b: Seq<u8>) -> Seq<char>;

/// The text that a decrypted block yields, or `None` if its padding is invalid.
pub open spec fn block_text(b: Seq<u8>) -> Option<Seq<char>> {
    match pkcs1_payload(b) {
        Some(p) => Some(utf8_lossy_of(p)),
        None => None,
    }
}

/// Relies on `String::from_utf8_lossy`: the text depends on the bytes alone,
/// and bytes that are valid UTF-8 decode to exactly their characters.
#[verifier::external_body]
fn utf8_lossy(b: &[u8]) -> (r: String)
    ensures
        r@ == utf8_lossy_of(b@),
        valid_utf8(b@) ==> r@ == decode_utf8(b@),
{
    String::from_utf8_lossy(b).into_owned()
}

/// Checks and removes PKCS#1 v1.5 type 2 padding from a raw decrypted block.
pub fn strip_pkcs1v15_padding(block: &[u8]) -> (r: Result<Vec<u8>, ProtectError>)
    ensures
        match pkcs1_payload(block@) {
            Some(p) => r is Ok && r->Ok_0@ == p,
            None => r == Err::<Vec<u8>, ProtectError>(ProtectError::InvalidPadding),
        },
{
    if block.len() < MIN_PADDED_LEN || block[0] != 0 || block[1] != 2 {
        return Err(ProtectError::InvalidPadding);
    }
    let mut i: usize = 2;
    while i < block.len() && block[i] != 0
        invariant
            2 <= i <= block@.len(),
            zero_index_from(block@, 2) == zero_index_from(block@, i as int),
        decreases block@.len() - i,
    {
        i = i + 1;
    }
    if i >= block.len() {
        return Err(ProtectError::InvalidPadding);
    }
    let mut out: Vec<u8> = Vec::new();
    let mut k: usize = i + 1;
    while k < block.len()
        invariant
            i + 1 <= k <= block@.len(),
            out@ == block@.subrange(i + 1, k as int),
        decreases block@.len() - k,
    {
        out.push(block[k]);
        k = k + 1;
    }
    assert(out@ == block@.subrange(i + 1, block@.len() as int));
    Ok(out)
}

/// Turns a raw decrypted block into the protected text: the padding is
/// checked and removed, and the payload is decoded leniently as UTF-8.
pub fn decode_decrypted_block(block: &[u8]) -> (r: Result<String, ProtectError>)
    ensures
        match pkcs1_payload(block@) {
            Some(p) => r is Ok && r->Ok_0@ == utf8_lossy_of(p) && (valid_utf8(p) ==> r->Ok_0@
                == decode_utf8(p)),
            None => r == Err::<String, ProtectError>(ProtectError::InvalidPadding),
        },
{
    match strip_pkcs1v15_padding(block) {
        Ok(payload) => Ok(utf8_lossy(payload.as_slice())),
        Err(e) => Err(e),
    }
}

/// Every block that is too short, lacks the `00 02` marker, or has no zero
/// separator after the marker is rejected: it carries no payload at all.
pub proof fn lemma_padding_rejection(b: Seq<u8>)
    requires
        b.len() < 11 || b[0] != 0 || b[1] != 2 || (forall|k: int| 2 <= k < b.len() ==> b[k] != 0),
    ensures
        pkcs1_payload(b) is None,
        block_text(b) is None,
{
    if b.len() >= 11 && b[0] == 0 && b[1] == 2 {
        lemma_no_zero_from(b, 2);
    }
}

proof fn lemma_no_zero_from(b: Seq<u8>, i: int)
    requires
        0 <= i,
        forall|k: int| i <= k < b.len() ==> b[k] != 0,
    ensures
        zero_index_from(b, i) == b.len(),
    decreases b.len() - i,
{
    if i < b.len() {
        lemma_no_zero_from(b, i + 1);
    }
}

/// Round trip of the padding: a payload wrapped behind at least eight nonzero
/// padding bytes comes back unchanged, and a secret's UTF-8 bytes decode to
/// the secret itself.
pub proof fn lemma_padding_round_trip(ps: Seq<u8>, secret: Seq<char>)
    requires
        ps.len() >= 8,
        forall|k: int| 0 <= k < ps.len() ==> ps[k] != 0,
    ensures
        pkcs1_payload(pkcs1_block(ps, encode_utf8(secret))) == Some(encode_utf8(secret)),
        valid_utf8(encode_utf8(secret)),
        decode_utf8(encode_utf8(secret)) == secret,
{
    let m = encode_utf8(secret);
    let b = pkcs1_block(ps, m);
    let sep: int = ps.len() as int + 2;
    assert(b[sep] == 0);
    assert forall|k: int| 2 <= k < sep implies b[k] != 0 by {
        assert(b[k] == ps[k - 2]);
    }
    lemma_first_zero(b, 2, sep);
    assert(b.subrange(sep + 1, b.len() as int) =~= m);
    vstd::utf8::encode_utf8_valid_utf8(secret);
    vstd::utf8::encode_utf8_decode_utf8(secret);
}

proof fn lemma_first_zero(b: Seq<u8>, i: int, j: int)
    requires
        0 <= i <= j < b.len(),
        b[j] == 0,
        forall|k: int| i <= k < j ==> b[k] != 0,
    ensures
        zero_index_from(b, i) == j,
    decreases j - i,
{
    if i < j {
        lemma_first_zero(b, i + 1, j);
    }
}

} // verus!
