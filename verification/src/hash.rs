//! Digests, message authentication codes, and the comparison of secrets.
use base64::Engine;
use hmac::digest::KeyInit;
use hmac::Mac;
use sha2::Digest;
use vstd::prelude::*;
use vstd::utf8::*;

verus! {

/// The SHA-256 digest of some bytes.
pub uninterp spec fn sha256(bytes: Seq<u8>) -> Seq<u8>;

/// `sha2::Sha256::digest`: the digest, thirty-two bytes, that the name `sha256`
/// stands for.
#[verifier::external_body]
pub(crate) fn sha256_digest(bytes: &[u8]) -> (r: [u8; 32])
    ensures
        r@ == sha256(bytes@),
{
    sha2::Sha256::digest(bytes).into()
}

/// The HMAC-SHA-256 of a message under a key.
pub uninterp spec fn hmac_sha256(key: Seq<u8>, message: Seq<u8>) -> Seq<u8>;

/// `hmac::SimpleHmac::<sha2::Sha256>`, keyed, fed the message and finalised: the
/// code, thirty-two bytes, that the name `hmac_sha256` stands for. A key of any
/// length is taken.
#[verifier::external_body]
pub(crate) fn hmac_sha256_code(key: &[u8], message: &[u8]) -> (r: [u8; 32])
    ensures
        r@ == hmac_sha256(key@, message@),
{
    let mut mac = hmac::SimpleHmac::<sha2::Sha256>::new_from_slice(key).unwrap();
    mac.update(message);
    mac.finalize().into_bytes().into()
}

/// The MD5 digest of some bytes.
pub uninterp spec fn md5_digest(bytes: Seq<u8>) -> Seq<u8>;

/// `md5::compute`: the digest, sixteen bytes, that the name `md5_digest` stands for.
#[verifier::external_body]
pub(crate) fn md5_of(bytes: &[u8]) -> (r: [u8; 16])
    ensures
        r@ == md5_digest(bytes@),
{
    md5::compute(bytes).0
}

// ---------------------------------------------------------------------------
// Base64
// ---------------------------------------------------------------------------
/// The most bytes that are ever encoded at once: what one AES-GCM message holds.
pub const MAX_ENCODED_BYTES: u64 = 68719476704;

pub open spec fn is_alphanumeric(c: char) -> bool {
    'A' <= c <= 'Z' || 'a' <= c <= 'z' || '0' <= c <= '9'
}

/// The standard base64 text of some bytes, with padding.
pub uninterp spec fn base64_text(bytes: Seq<u8>) -> Seq<char>;

/// The bytes of a standard base64 text, if it is one.
pub uninterp spec fn base64_bytes(text: Seq<char>) -> Option<Seq<u8>>;

/// `STANDARD.encode` of the crate `base64`: the text that the name `base64_text`
/// stands for. It is made of letters, digits, `+`, `/` and `=`, and
/// `STANDARD.decode` gives the bytes back from it.
#[verifier::external_body]
pub(crate) fn base64_encode(bytes: &[u8]) -> (r: String)
    requires
        bytes@.len() <= MAX_ENCODED_BYTES,
    ensures
        r@ == base64_text(bytes@),
        base64_bytes(r@) == Some(bytes@),
        forall|i: int|
            0 <= i < r@.len() ==> is_alphanumeric(#[trigger] r@[i]) || r@[i] == '+' || r@[i] == '/'
                || r@[i] == '=',
{
    base64::engine::general_purpose::STANDARD.encode(bytes)
}

/// `STANDARD.decode` of the crate `base64`: the bytes, or that there are none, as
/// the name `base64_bytes` stands for.
#[verifier::external_body]
pub(crate) fn base64_decode(text: &str) -> (r: Option<Vec<u8>>)
    ensures
        match r {
            Some(bytes) => base64_bytes(text@) == Some(bytes@),
            None => base64_bytes(text@) is None,
        },
{
    base64::engine::general_purpose::STANDARD.decode(text).ok()
}

/// The base64 text of some bytes in the URL-safe alphabet, without padding.
pub uninterp spec fn url_base64_text(bytes: Seq<u8>) -> Seq<char>;

/// `URL_SAFE_NO_PAD.encode` of the crate `base64`: the text that the name
/// `url_base64_text` stands for. It is made of letters, digits, `-` and `_`.
#[verifier::external_body]
pub(crate) fn url_base64_encode(bytes: &[u8]) -> (r: String)
    requires
        bytes@.len() <= MAX_ENCODED_BYTES,
    ensures
        r@ == url_base64_text(bytes@),
        forall|i: int|
            0 <= i < r@.len() ==> is_alphanumeric(#[trigger] r@[i]) || r@[i] == '-' || r@[i] == '_',
{
    base64::engine::general_purpose::URL_SAFE_NO_PAD.encode(bytes)
}

// ---------------------------------------------------------------------------
// Hexadecimal
// ---------------------------------------------------------------------------
/// The lower-case hexadecimal digit for a number below sixteen.
pub open spec fn hex_digit(d: int) -> char {
    if d < 10 {
        (48 + d) as char
    } else {
        (87 + d) as char
    }
}

/// Two lower-case hexadecimal digits for each byte.
pub open spec fn hex(bytes: Seq<u8>) -> Seq<char>
    decreases bytes.len(),
{
    if bytes.len() == 0 {
        Seq::empty()
    } else {
        hex(bytes.drop_last()).push(hex_digit(bytes.last() as int / 16)).push(
            hex_digit(bytes.last() as int % 16),
        )
    }
}

/// Hexadecimal text is ASCII, two characters for each byte.
pub proof fn lemma_hex_shape(bytes: Seq<u8>)
    ensures
        hex(bytes).len() == 2 * bytes.len(),
        is_ascii_chars(hex(bytes)),
        forall|i: int|
            0 <= i < hex(bytes).len() ==> '0' <= #[trigger] hex(bytes)[i] <= '9' || 'a'
                <= hex(bytes)[i] <= 'f',
    decreases bytes.len(),
{
    if bytes.len() > 0 {
        lemma_hex_shape(bytes.drop_last());
    }
}

fn hex_digit_char(d: u8) -> (r: char)
    requires
        d < 16,
    ensures
        r == hex_digit(d as int),
{
    if d < 10 {
        (48 + d) as char
    } else {
        (87 + d) as char
    }
}

pub fn hex_lower(bytes: &[u8]) -> (r: String)
    ensures
        r@ == hex(bytes@),
{
    let mut out = String::new();
    let mut i: usize = 0;
    while i < bytes.len()
        invariant
            i <= bytes@.len(),
            out@ == hex(bytes@.take(i as int)),
        decreases bytes@.len() - i,
    {
        assert(bytes@.take(i + 1).drop_last() == bytes@.take(i as int));
        let b: u8 = bytes[i];
        out.push(hex_digit_char(b / 16));
        out.push(hex_digit_char(b % 16));
        i += 1;
    }
    assert(bytes@.take(i as int) == bytes@);
    out
}

// ---------------------------------------------------------------------------
// Comparing secrets
// ---------------------------------------------------------------------------
fn byte_at(bytes: &[u8], i: usize) -> (r: u8)
    ensures
        r == (if i < bytes@.len() {
            bytes@[i as int]
        } else {
            0
        }),
{
    if i < bytes.len() {
        bytes[i]
    } else {
        0
    }
}

/// Whether two secrets are the same, looking at every byte of the longer one
/// whatever the outcome.
pub fn secure_equals(expected: &str, received: &str) -> (r: bool)
    ensures
        r == (expected@ == received@),
{
    let left = expected.as_bytes();
    let right = received.as_bytes();
    let max_len: usize = if left.len() > right.len() {
        left.len()
    } else {
        right.len()
    };
    let ll: usize = left.len();
    let rl: usize = right.len();
    let mut diff: usize = ll ^ rl;
    assert(ll ^ rl == 0 <==> ll == rl) by (bit_vector);
    let mut i: usize = 0;
    while i < max_len
        invariant
            i <= max_len,
            ll == left@.len(),
            rl == right@.len(),
            max_len >= ll,
            max_len >= rl,
            max_len == ll || max_len == rl,
            diff == 0 <==> (ll == rl && forall|j: int|
                0 <= j < i ==> #[trigger] left@[j] == right@[j]),
        decreases max_len - i,
    {
        let a: u8 = byte_at(left, i);
        let b: u8 = byte_at(right, i);
        let x: u8 = a ^ b;
        let before: usize = diff;
        diff = diff | (x as usize);
        assert(x == 0 <==> a == b) by (bit_vector)
            requires
                x == a ^ b,
        ;
        let w: usize = x as usize;
        assert(before | w == 0 <==> (before == 0 && w == 0)) by (bit_vector);
        proof {
            if before == 0 && a == b {
                assert forall|j: int| 0 <= j < i + 1 implies #[trigger] left@[j] == right@[j] by {}
            }
        }
        i += 1;
    }
    proof {
        if diff == 0 {
            assert(left@ =~= right@);
            crate::text::lemma_utf8_injective(expected@, received@);
        }
    }
    diff == 0
}

/// The number that a hexadecimal digit stands for.
pub open spec fn hex_value(c: char) -> int {
    if '0' <= c <= '9' {
        c as int - '0' as int
    } else {
        c as int - 'a' as int + 10
    }
}

/// The two digits of a byte tell it, the high one first.
pub proof fn law_hex_tells_its_bytes(bytes: Seq<u8>, i: int)
    requires
        0 <= i < bytes.len(),
    ensures
        hex(bytes).len() == 2 * bytes.len(),
        bytes[i] == 16 * hex_value(hex(bytes)[2 * i]) + hex_value(hex(bytes)[2 * i + 1]),
    decreases bytes.len(),
{
    lemma_hex_shape(bytes);
    lemma_hex_shape(bytes.drop_last());
    if i < bytes.len() - 1 {
        law_hex_tells_its_bytes(bytes.drop_last(), i);
        assert(hex(bytes)[2 * i] == hex(bytes.drop_last())[2 * i]);
        assert(hex(bytes)[2 * i + 1] == hex(bytes.drop_last())[2 * i + 1]);
    }
}

/// Two texts are found equal exactly where they are.
pub proof fn law_only_equal_texts_are_found_equal(expected: &str, received: &str, r: bool)
    requires
        call_ensures(secure_equals, (expected, received), r),
    ensures
        r <==> expected@.len() == received@.len() && forall|i: int|
            0 <= i < expected@.len() ==> #[trigger] expected@[i] == received@[i],
{
    if expected@.len() == received@.len() && forall|i: int|
        0 <= i < expected@.len() ==> #[trigger] expected@[i] == received@[i] {
        assert(expected@ =~= received@);
    }
}

}
