//! The codes under which orders are credited.
use vstd::prelude::*;
use vstd::utf8::*;

use crate::hash;
use crate::ids;
use crate::text;

verus! {

/// The most bytes of an order's identifier that its code holds.
pub const MAX_ID_BYTES: usize = 20;

/// The bytes of an identifier without its hyphens.
pub open spec fn id_bytes(order_id: Seq<char>) -> Seq<u8> {
    encode_utf8(text::without(order_id, '-'))
}

/// The identifier can be cut to its first bytes without cutting a character.
pub open spec fn id_can_be_cut(order_id: Seq<char>) -> bool {
    id_bytes(order_id).len() <= MAX_ID_BYTES || is_char_boundary(
        id_bytes(order_id),
        MAX_ID_BYTES as int,
    )
}

/// The part of an identifier that a code holds.
pub open spec fn id_part(order_id: Seq<char>) -> Seq<char> {
    if id_bytes(order_id).len() <= MAX_ID_BYTES {
        text::without(order_id, '-')
    } else {
        decode_utf8(id_bytes(order_id).take(MAX_ID_BYTES as int))
    }
}

/// The code for an order: a prefix, the beginning of its identifier, and eight
/// hexadecimal digits of the random bytes.
pub open spec fn recharge_code(order_id: Seq<char>, random: Seq<u8>) -> Seq<char> {
    "s2p_"@ + id_part(order_id) + hash::hex(random.take(4))
}

/// The code for an order, with given random bytes.
pub fn recharge_code_with(order_id: &str, random: &[u8; 16]) -> (r: String)
    requires
        id_can_be_cut(order_id@),
    ensures
        r@ == recharge_code(order_id@, random@),
{
    let id = text::remove_char(order_id, '-');
    let head: String = if id.as_str().as_bytes().len() <= MAX_ID_BYTES {
        id.clone()
    } else {
        let (head, rest) = id.as_str().split_at(MAX_ID_BYTES);
        proof {
            assert(encode_utf8(head@) == id_bytes(order_id@).take(MAX_ID_BYTES as int));
            encode_utf8_decode_utf8(head@);
        }
        head.to_owned()
    };
    let digits: [u8; 4] = [random[0], random[1], random[2], random[3]];
    assert(digits@ =~= random@.take(4));
    let mut out = "s2p_".to_owned();
    out.append(head.as_str());
    out.append(hash::hex_lower(digits.as_slice()).as_str());
    out
}

/// A code for an order, with random digits at its end.
pub fn generate_recharge_code(order_id: &str) -> (r: String)
    requires
        id_can_be_cut(order_id@),
    ensures
        exists|random: Seq<u8>|
            random.len() == 16 && r@ == #[trigger] recharge_code(order_id@, random),
{
    let random = ids::random_uuid();
    let r = recharge_code_with(order_id, &random);
    assert(random@.len() == 16 && r@ == recharge_code(order_id@, random@));
    r
}

proof fn lemma_encode_concat(a: Seq<char>, b: Seq<char>)
    ensures
        encode_utf8(a + b) == encode_utf8(a) + encode_utf8(b),
    decreases a.len(),
{
    if a.len() == 0 {
        assert(a + b == b);
        assert(encode_utf8(a) + encode_utf8(b) == encode_utf8(b));
    } else {
        lemma_encode_concat(a.drop_first(), b);
        assert((a + b).drop_first() == a.drop_first() + b);
        assert((a + b)[0] == a[0]);
        assert(encode_utf8(a + b) == encode_utf8(a) + encode_utf8(b));
    }
}

proof fn lemma_without_ascii(s: Seq<char>, c: char)
    requires
        is_ascii_chars(s),
    ensures
        is_ascii_chars(text::without(s, c)),
    decreases s.len(),
{
    if s.len() > 0 {
        assert(is_ascii_chars(s.drop_last()));
        lemma_without_ascii(s.drop_last(), c);
        assert(s.last() == s[s.len() - 1]);
    }
}

/// An identifier made of random bytes can be cut anywhere: it is ASCII.
pub proof fn lemma_uuid_can_be_cut(bytes: Seq<u8>)
    requires
        bytes.len() == 16,
    ensures
        id_can_be_cut(ids::hyphenated(bytes)),
{
    let id = ids::hyphenated(bytes);
    ids::law_identifier_shape(bytes);
    lemma_without_ascii(id, '-');
    lemma_ascii_can_be_cut(id);
}

/// An identifier of ASCII characters can be cut anywhere.
pub proof fn lemma_ascii_can_be_cut(id: Seq<char>)
    requires
        is_ascii_chars(text::without(id, '-')),
    ensures
        id_can_be_cut(id),
{
    let w = text::without(id, '-');
    let b = encode_utf8(w);
    is_ascii_chars_encode_utf8(w);
    encode_utf8_valid_utf8(w);
    if b.len() > MAX_ID_BYTES {
        assert(b[MAX_ID_BYTES as int] == w[MAX_ID_BYTES as int] as u8);
        assert(b[MAX_ID_BYTES as int] < 128);
        is_char_boundary_iff_not_is_continuation_byte(b, MAX_ID_BYTES as int);
        let x: u8 = b[MAX_ID_BYTES as int];
        assert(x < 128 ==> !is_continuation_byte(x)) by {
            utf8_byte_ranges_bitwise(x);
        }
    }
}

/// Every code fits in thirty-two bytes and begins with the prefix.
pub proof fn law_recharge_code_fits(order_id: Seq<char>, random: Seq<u8>)
    requires
        id_can_be_cut(order_id),
        random.len() == 16,
    ensures
        encode_utf8(recharge_code(order_id, random)).len() <= 32,
        "s2p_"@.is_prefix_of(recharge_code(order_id, random)),
{
    let digits = hash::hex(random.take(4));
    reveal_strlit("s2p_");
    hash::lemma_hex_shape(random.take(4));
    is_ascii_chars_encode_utf8(digits);
    is_ascii_chars_encode_utf8("s2p_"@);
    lemma_encode_concat("s2p_"@, id_part(order_id));
    lemma_encode_concat("s2p_"@ + id_part(order_id), digits);
    if id_bytes(order_id).len() > MAX_ID_BYTES {
        let bytes = id_bytes(order_id);
        encode_utf8_valid_utf8(text::without(order_id, '-'));
        valid_utf8_split(bytes, MAX_ID_BYTES as int);
        assert(bytes.subrange(0, MAX_ID_BYTES as int) == bytes.take(MAX_ID_BYTES as int));
        decode_utf8_encode_utf8(bytes.take(MAX_ID_BYTES as int));
    }
    assert("s2p_"@.is_prefix_of("s2p_"@ + (id_part(order_id) + digits)));
    assert(recharge_code(order_id, random) =~= "s2p_"@ + (id_part(order_id) + digits));
}

/// A code holds the beginning of its order's identifier, without hyphens, and eight
/// hexadecimal digits of what was drawn at random.
pub proof fn law_codes_hold_their_order(order_id: Seq<char>, random: Seq<u8>)
    requires
        random.len() == 16,
        encode_utf8(text::without(order_id, '-')).len() <= 20,
    ensures
        recharge_code(order_id, random) == "s2p_"@ + text::without(order_id, '-') + hash::hex(
            seq![random[0], random[1], random[2], random[3]],
        ),
{
    assert(random.take(4) =~= seq![random[0], random[1], random[2], random[3]]);
}

}
