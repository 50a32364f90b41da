use vstd::prelude::*;
use vstd::utf8::{encode_utf8, is_ascii_chars};

use crate::error::ProtectError;

verus! {

/// Length of the passphrase that the bootstrap flow generates.
pub const DEFAULT_SECRET_LEN: usize = 128;

/// Which characters a generated passphrase may, or with `strict` must, hold.
#[derive(Debug, Clone, Copy, PartialEq, Eq, Structural)]
pub struct PasswordPolicy {
    pub length: usize,
    pub numbers: bool,
    pub lowercase_letters: bool,
    pub uppercase_letters: bool,
    pub symbols: bool,
    pub spaces: bool,
    pub exclude_similar_characters: bool,
    pub strict: bool,
}

pub open spec fn is_digit(c: char) -> bool {
    '0' <= c <= '9'
}

pub open spec fn is_lowercase(c: char) -> bool {
    'a' <= c <= 'z'
}

pub open spec fn is_uppercase(c: char) -> bool {
    'A' <= c <= 'Z'
}

/// The printable ASCII punctuation characters.
pub open spec fn is_symbol(c: char) -> bool {
    ('!' <= c <= '/') || (':' <= c <= '@') || ('[' <= c <= '`') || ('{' <= c <= '~')
}

pub open spec fn is_space(c: char) -> bool {
    c == ' '
}

/// The characters that are easily mistaken for one another.
pub open spec fn is_similar(c: char) -> bool {
    c == '0' || c == '1' || c == 'i' || c == 'l' || c == 'o' || c == 'I' || c == 'O' || c == '"' || c
        == '\'' || c == '`' || c == '|'
}

/// Number of character classes the policy enables.
pub open spec fn class_count(p: PasswordPolicy) -> nat {
    (if p.numbers { 1nat } else { 0nat }) + (if p.lowercase_letters { 1nat } else { 0nat }) + (
    if p.uppercase_letters { 1nat } else { 0nat }) + (if p.symbols { 1nat } else { 0nat }) + (
    if p.spaces { 1nat } else { 0nat })
}

/// A passphrase can be generated: it is not empty, some class is enabled, and a
/// strict policy leaves room for one character of every enabled class.
pub open spec fn policy_feasible(p: PasswordPolicy) -> bool {
    p.length > 0 && class_count(p) > 0 && (p.strict ==> p.length >= class_count(p))
}

/// `c` belongs to a class that the policy enables.
pub open spec fn char_allowed(p: PasswordPolicy, c: char) -> bool {
    (p.numbers && is_digit(c)) || (p.lowercase_letters && is_lowercase(c)) || (p.uppercase_letters
        && is_uppercase(c)) || (p.symbols && is_symbol(c)) || (p.spaces && is_space(c))
}

pub open spec fn has_char(s: Seq<char>, class: spec_fn(char) -> bool) -> bool {
    exists|i: int| 0 <= i < s.len() && #[trigger] class(s[i])
}

/// `s` has the policy's length, only allowed characters (none of the similar
/// ones when the policy excludes them), and under a strict
/// policy at least one character of every enabled class.
pub open spec fn meets_policy(p: PasswordPolicy, s: Seq<char>) -> bool {
    &&& s.len() == p.length
    &&& forall|i: int| 0 <= i < s.len() ==> char_allowed(p, #[trigger] s[i])
    &&& p.exclude_similar_characters ==> forall|i: int| 0 <= i < s.len() ==> !is_similar(#[trigger] s[i])
    &&& p.strict ==> {
        &&& p.numbers ==> has_char(s, |c: char| is_digit(c))
        &&& p.lowercase_letters ==> has_char(s, |c: char| is_lowercase(c))
        &&& p.uppercase_letters ==> has_char(s, |c: char| is_uppercase(c))
        &&& p.symbols ==> has_char(s, |c: char| is_symbol(c))
        &&& p.spaces ==> has_char(s, |c: char| is_space(c))
    }
}

impl PasswordPolicy {
    /// The storage policy as a value.
    pub open spec fn spec_storage_default() -> PasswordPolicy {
        PasswordPolicy {
            length: DEFAULT_SECRET_LEN,
            numbers: true,
            lowercase_letters: true,
            uppercase_letters: true,
            symbols: false,
            spaces: false,
            exclude_similar_characters: false,
            strict: true,
        }
    }

    /// The policy for storage passphrases: 128 letters and digits, with at
    /// least one of each class.
    pub fn storage_default() -> (p: PasswordPolicy)
        ensures
            p == PasswordPolicy::spec_storage_default(),
            policy_feasible(p),
    {
        PasswordPolicy {
            length: DEFAULT_SECRET_LEN,
            numbers: true,
            lowercase_letters: true,
            uppercase_letters: true,
            symbols: false,
            spaces: false,
            exclude_similar_characters: false,
            strict: true,
        }
    }
}

/// Relies on `passwords::PasswordGenerator::generate_one`: it fails exactly
/// when the policy is infeasible, and otherwise draws `length` characters from
/// the enabled classes (without the similar characters when asked to),
/// drawing again under `strict` until every enabled class occurs.
#[verifier::external_body]
pub(crate) fn generate_password(p: &PasswordPolicy) -> (r: Result<String, ProtectError>)
    ensures
        match r {
            Ok(s) => policy_feasible(*p) && meets_policy(*p, s@),
            Err(e) => !policy_feasible(*p) && e == ProtectError::GenerationFailed,
        },
{
    let pg = passwords::PasswordGenerator {
        length: p.length,
        numbers: p.numbers,
        lowercase_letters: p.lowercase_letters,
        uppercase_letters: p.uppercase_letters,
        symbols: p.symbols,
        spaces: p.spaces,
        exclude_similar_characters: p.exclude_similar_characters,
        strict: p.strict,
    };
    pg.generate_one().map_err(|_| ProtectError::GenerationFailed)
}

/// Draws a passphrase that meets the policy, or reports that none can exist.
pub fn generate_secret(p: &PasswordPolicy) -> (r: Result<String, ProtectError>)
    ensures
        r is Ok <==> policy_feasible(*p),
        r is Err ==> r == Err::<String, ProtectError>(ProtectError::GenerationFailed),
        r is Ok ==> meets_policy(*p, r->Ok_0@),
{
    generate_password(p)
}

/// A passphrase under the storage policy is ASCII, so its UTF-8 encoding has
/// one byte per character: 128 bytes.
pub proof fn lemma_storage_secret_bytes(s: Seq<char>)
    requires
        meets_policy(PasswordPolicy::spec_storage_default(), s),
    ensures
        encode_utf8(s).len() == DEFAULT_SECRET_LEN,
{
    assert(is_ascii_chars(s)) by {
        assert forall|i: int| 0 <= i < s.len() implies '\0' <= #[trigger] s[i] <= '\u{7f}' by {
            assert(char_allowed(PasswordPolicy::spec_storage_default(), s[i]));
        }
    }
    vstd::utf8::is_ascii_chars_encode_utf8(s);
}

} // verus!
