//! Identifiers drawn at random.
use vstd::prelude::*;
use vstd::utf8::*;

use crate::hash;

verus! {

/// `uuid::Uuid::new_v4`, as its sixteen bytes: drawn at random, so nothing is said
/// of them.
#[verifier::external_body]
pub(crate) fn random_uuid() -> (r: [u8; 16]) {
    uuid::Uuid::new_v4().into_bytes()
}

/// Sixteen bytes as lower-case hexadecimal digits in groups of eight, four, four, four
/// and twelve, with hyphens between them.
pub open spec fn hyphenated(bytes: Seq<u8>) -> Seq<char> {
    hash::hex(bytes.subrange(0, 4)) + seq!['-'] + hash::hex(bytes.subrange(4, 6)) + seq!['-']
        + hash::hex(bytes.subrange(6, 8)) + seq!['-'] + hash::hex(bytes.subrange(8, 10)) + seq!['-']
        + hash::hex(bytes.subrange(10, 16))
}

pub fn hyphenate(bytes: &[u8; 16]) -> (r: String)
    ensures
        r@ == hyphenated(bytes@),
{
    let a: [u8; 4] = [bytes[0], bytes[1], bytes[2], bytes[3]];
    let b: [u8; 2] = [bytes[4], bytes[5]];
    let c: [u8; 2] = [bytes[6], bytes[7]];
    let d: [u8; 2] = [bytes[8], bytes[9]];
    let e: [u8; 6] = [bytes[10], bytes[11], bytes[12], bytes[13], bytes[14], bytes[15]];
    assert(a@ =~= bytes@.subrange(0, 4));
    assert(b@ =~= bytes@.subrange(4, 6));
    assert(c@ =~= bytes@.subrange(6, 8));
    assert(d@ =~= bytes@.subrange(8, 10));
    assert(e@ =~= bytes@.subrange(10, 16));
    let mut out = hash::hex_lower(a.as_slice());
    out.push('-');
    out.append(hash::hex_lower(b.as_slice()).as_str());
    out.push('-');
    out.append(hash::hex_lower(c.as_slice()).as_str());
    out.push('-');
    out.append(hash::hex_lower(d.as_slice()).as_str());
    out.push('-');
    out.append(hash::hex_lower(e.as_slice()).as_str());
    assert(out@ =~= hyphenated(bytes@));
    out
}

/// A new identifier: hyphenated random bytes.
pub fn new_id() -> (r: String)
    ensures
        exists|bytes: Seq<u8>| bytes.len() == 16 && r@ == #[trigger] hyphenated(bytes),
{
    let bytes = random_uuid();
    let r = hyphenate(&bytes);
    assert(bytes@.len() == 16 && r@ == hyphenated(bytes@));
    r
}

/// An identifier is thirty-six ASCII characters.
pub proof fn law_identifier_shape(bytes: Seq<u8>)
    requires
        bytes.len() == 16,
    ensures
        hyphenated(bytes).len() == 36,
        is_ascii_chars(hyphenated(bytes)),
{
    hash::lemma_hex_shape(bytes.subrange(0, 4));
    hash::lemma_hex_shape(bytes.subrange(4, 6));
    hash::lemma_hex_shape(bytes.subrange(6, 8));
    hash::lemma_hex_shape(bytes.subrange(8, 10));
    hash::lemma_hex_shape(bytes.subrange(10, 16));
}

/// Different bytes give different identifiers.
pub proof fn law_identifiers_tell_their_bytes(a: Seq<u8>, b: Seq<u8>)
    requires
        a.len() == 16,
        b.len() == 16,
        hyphenated(a) == hyphenated(b),
    ensures
        a == b,
{
    lemma_group(a, b, 0, 4, 0);
    lemma_group(a, b, 4, 6, 9);
    lemma_group(a, b, 6, 8, 14);
    lemma_group(a, b, 8, 10, 19);
    lemma_group(a, b, 10, 16, 24);
    assert(a =~= b);
}

proof fn lemma_group(a: Seq<u8>, b: Seq<u8>, from: int, to: int, at: int)
    requires
        a.len() == 16,
        b.len() == 16,
        hyphenated(a) == hyphenated(b),
        (from, to, at) == (0int, 4int, 0int) || (from, to, at) == (4int, 6int, 9int) || (
            from,
            to,
            at,
        ) == (6int, 8int, 14int) || (from, to, at) == (8int, 10int, 19int) || (from, to, at) == (
            10int,
            16int,
            24int,
        ),
    ensures
        forall|i: int| from <= i < to ==> #[trigger] a[i] == b[i],
{
    lemma_groups(a);
    lemma_groups(b);
    let x = a.subrange(from, to);
    let y = b.subrange(from, to);
    assert(hash::hex(x) =~= hash::hex(y)) by {
        assert(hyphenated(a).subrange(at, at + 2 * (to - from)) == hash::hex(x));
        assert(hyphenated(b).subrange(at, at + 2 * (to - from)) == hash::hex(y));
    }
    assert forall|i: int| from <= i < to implies #[trigger] a[i] == b[i] by {
        hash::law_hex_tells_its_bytes(x, i - from);
        hash::law_hex_tells_its_bytes(y, i - from);
        assert(x[i - from] == a[i] && y[i - from] == b[i]);
    }
}

proof fn lemma_groups(bytes: Seq<u8>)
    requires
        bytes.len() == 16,
    ensures
        hyphenated(bytes).subrange(0, 8) == hash::hex(bytes.subrange(0, 4)),
        hyphenated(bytes).subrange(9, 13) == hash::hex(bytes.subrange(4, 6)),
        hyphenated(bytes).subrange(14, 18) == hash::hex(bytes.subrange(6, 8)),
        hyphenated(bytes).subrange(19, 23) == hash::hex(bytes.subrange(8, 10)),
        hyphenated(bytes).subrange(24, 36) == hash::hex(bytes.subrange(10, 16)),
{
    hash::lemma_hex_shape(bytes.subrange(0, 4));
    hash::lemma_hex_shape(bytes.subrange(4, 6));
    hash::lemma_hex_shape(bytes.subrange(6, 8));
    hash::lemma_hex_shape(bytes.subrange(8, 10));
    hash::lemma_hex_shape(bytes.subrange(10, 16));
    let s = hyphenated(bytes);
    assert(s.subrange(0, 8) =~= hash::hex(bytes.subrange(0, 4)));
    assert(s.subrange(9, 13) =~= hash::hex(bytes.subrange(4, 6)));
    assert(s.subrange(14, 18) =~= hash::hex(bytes.subrange(6, 8)));
    assert(s.subrange(19, 23) =~= hash::hex(bytes.subrange(8, 10)));
    assert(s.subrange(24, 36) =~= hash::hex(bytes.subrange(10, 16)));
}

}
