//! Secrets that are shown without being told.
use vstd::prelude::*;
use vstd::utf8::*;

use crate::crypto;
use crate::text;

verus! {

pub open spec fn stars(n: nat) -> Seq<char> {
    Seq::new(n, |i: int| '*')
}

/// The last four bytes of a longer text.
pub open spec fn last_bytes(s: Seq<char>) -> Seq<u8> {
    encode_utf8(s).skip(encode_utf8(s).len() - 4)
}

/// A text can be masked where its last four bytes are characters, if it has more.
pub open spec fn maskable(s: Seq<char>) -> bool {
    encode_utf8(s).len() > 4 ==> valid_utf8(last_bytes(s))
}

/// A secret as it is shown: a star for every byte but the last four, and only stars where
/// it has no more than four.
pub open spec fn masked(s: Seq<char>) -> Seq<char> {
    let length = encode_utf8(s).len();
    if length > 4 {
        stars((length - 4) as nat) + decode_utf8(last_bytes(s))
    } else {
        "****"@
    }
}

fn last_text(value: &str) -> (r: Option<String>)
    requires
        encode_utf8(value@).len() > 4,
    ensures
        r is Some <==> valid_utf8(last_bytes(value@)),
        r matches Some(s) ==> s@ == decode_utf8(last_bytes(value@)),
{
    let bytes = value.as_bytes();
    let n: usize = bytes.len();
    let tail: Vec<u8> = vec![bytes[n - 4], bytes[n - 3], bytes[n - 2], bytes[n - 1]];
    assert(tail@ =~= last_bytes(value@));
    let r = crypto::utf8_text(tail);
    proof {
        if r is Some {
            encode_utf8_valid_utf8(r->0@);
            encode_utf8_decode_utf8(r->0@);
        }
    }
    r
}

pub fn can_mask(value: &str) -> (r: bool)
    ensures
        r == maskable(value@),
{
    if value.as_bytes().len() > 4 {
        last_text(value).is_some()
    } else {
        true
    }
}

pub fn mask_value(value: &str) -> (r: String)
    requires
        maskable(value@),
    ensures
        r@ == masked(value@),
{
    let n: usize = value.as_bytes().len();
    if n <= 4 {
        return "****".to_owned();
    }
    let tail = match last_text(value) {
        Some(t) => t,
        None => "".to_owned(),
    };
    let mut out = String::new();
    let mut i: usize = 0;
    while i < n - 4
        invariant
            4 < n,
            i <= n - 4,
            out@ == stars(i as nat),
        decreases n - i,
    {
        out.push('*');
        assert(out@ =~= stars((i + 1) as nat));
        i += 1;
    }
    out.append(tail.as_str());
    out
}

/// Whether a value is taken for one that was masked.
pub open spec fn looks_masked(s: Seq<char>) -> bool {
    text::occurrences(s, '*') >= 4
}

pub fn is_masked_value(value: &str) -> (r: bool)
    ensures
        r == looks_masked(value@),
{
    text::count(value, '*') >= 4
}

proof fn lemma_stars(n: nat, t: Seq<char>)
    ensures
        text::occurrences(stars(n) + t, '*') >= n,
    decreases t.len(), n,
{
    if t.len() > 0 {
        lemma_stars(n, t.drop_last());
        assert((stars(n) + t).drop_last() =~= stars(n) + t.drop_last());
    } else if n > 0 {
        lemma_stars((n - 1) as nat, t);
        assert((stars(n) + t).drop_last() =~= stars((n - 1) as nat) + t);
        assert((stars(n) + t).last() == '*');
    }
}

/// A secret that is shown is known for a mask when it comes back, unless it has five, six or
/// seven bytes.
pub proof fn law_masks_are_known(s: Seq<char>)
    requires
        encode_utf8(s).len() <= 4 || encode_utf8(s).len() >= 8,
    ensures
        looks_masked(masked(s)),
{
    let length = encode_utf8(s).len();
    if length > 4 {
        lemma_stars((length - 4) as nat, decode_utf8(last_bytes(s)));
    } else {
        reveal_strlit("****");
        assert("****"@ =~= stars(4) + Seq::<char>::empty());
        lemma_stars(4, Seq::empty());
    }
}

/// A mask tells no more of a secret than how long it is and its last four bytes, and nothing
/// of one with no more than four: secrets that agree in that have one mask. All but its end is
/// stars.
pub proof fn law_masks_tell_only_the_end(s: Seq<char>, t: Seq<char>, i: int)
    ensures
        encode_utf8(s).len() <= 4 && encode_utf8(t).len() <= 4 ==> masked(s) == masked(t),
        encode_utf8(s).len() <= 4 ==> masked(s) == seq!['*', '*', '*', '*'],
        encode_utf8(s).len() > 4 && encode_utf8(s).len() == encode_utf8(t).len() && encode_utf8(
            s,
        ).skip(encode_utf8(s).len() - 4) == encode_utf8(t).skip(encode_utf8(t).len() - 4)
            ==> masked(s) == masked(t),
        0 <= i < encode_utf8(s).len() - 4 ==> masked(s).len() > i && masked(s)[i] == '*',
        encode_utf8(s).len() > 4 && maskable(s) ==> encode_utf8(
            masked(s).skip(encode_utf8(s).len() - 4),
        ) == encode_utf8(s).skip(encode_utf8(s).len() - 4),
{
    reveal_strlit("****");
    assert("****"@ =~= seq!['*', '*', '*', '*']);
    if encode_utf8(s).len() > 4 {
        let n = (encode_utf8(s).len() - 4) as int;
        assert(masked(s).skip(n) =~= decode_utf8(last_bytes(s)));
        if maskable(s) {
            decode_utf8_encode_utf8(last_bytes(s));
        }
    }
}

}
