//! Signatures: those of EasyPay requests and notices, of Stripe webhooks, and of the
//! tokens that give access to the status of an order.
use vstd::prelude::*;
use vstd::utf8::*;

use crate::db;
use crate::hash;
use crate::maps;
use crate::maps::TextMap;
use crate::text;

verus! {

// ---------------------------------------------------------------------------
// The order of texts
// ---------------------------------------------------------------------------
/// Texts in the order of their characters.
pub open spec fn text_le(a: Seq<char>, b: Seq<char>) -> bool
    decreases a.len(),
{
    if a.len() == 0 {
        true
    } else if b.len() == 0 {
        false
    } else if a[0] == b[0] {
        text_le(a.skip(1), b.skip(1))
    } else {
        a[0] < b[0]
    }
}

proof fn lemma_le_total(a: Seq<char>, b: Seq<char>)
    ensures
        text_le(a, b) || text_le(b, a),
        text_le(a, b) && text_le(b, a) ==> a == b,
    decreases a.len(),
{
    if a.len() > 0 && b.len() > 0 && a[0] == b[0] {
        lemma_le_total(a.skip(1), b.skip(1));
        if a.skip(1) == b.skip(1) {
            assert(a =~= seq![a[0]] + a.skip(1));
            assert(b =~= seq![b[0]] + b.skip(1));
        }
    } else if a.len() == 0 && b.len() == 0 {
        assert(a =~= b);
    }
}

proof fn lemma_le_trans(a: Seq<char>, b: Seq<char>, c: Seq<char>)
    requires
        text_le(a, b),
        text_le(b, c),
    ensures
        text_le(a, c),
    decreases a.len(),
{
    if a.len() > 0 && b.len() > 0 && c.len() > 0 {
        if a[0] == b[0] && b[0] == c[0] {
            lemma_le_trans(a.skip(1), b.skip(1), c.skip(1));
        }
    }
}

fn le(a: &str, b: &str) -> (r: bool)
    ensures
        r == text_le(a@, b@),
{
    let x = text::chars_of(a);
    let y = text::chars_of(b);
    let mut i: usize = 0;
    assert(a@.skip(0) =~= a@ && b@.skip(0) =~= b@);
    while i < x.len()
        invariant
            i <= x@.len(),
            i <= y@.len(),
            x@ == a@,
            y@ == b@,
            text_le(a@, b@) == text_le(a@.skip(i as int), b@.skip(i as int)),
        decreases x@.len() - i,
    {
        if i == y.len() {
            return false;
        }
        if x[i] != y[i] {
            return x[i] < y[i];
        }
        assert(a@.skip(i as int).skip(1) =~= a@.skip(i + 1));
        assert(b@.skip(i as int).skip(1) =~= b@.skip(i + 1));
        i += 1;
    }
    true
}

// ---------------------------------------------------------------------------
// Parameters in the order of their keys
// ---------------------------------------------------------------------------
/// A parameter put behind those whose keys are not greater.
pub open spec fn placed(s: Seq<(Seq<char>, Seq<char>)>, x: (Seq<char>, Seq<char>)) -> Seq<
    (Seq<char>, Seq<char>),
>
    decreases s.len(),
{
    if s.len() == 0 {
        seq![x]
    } else if text_le(s.last().0, x.0) {
        s.push(x)
    } else {
        placed(s.drop_last(), x).push(s.last())
    }
}

/// Parameters in the order of their keys; those with the same key stay in their order.
pub open spec fn arranged(s: Seq<(Seq<char>, Seq<char>)>) -> Seq<(Seq<char>, Seq<char>)>
    decreases s.len(),
{
    if s.len() == 0 {
        s
    } else {
        placed(arranged(s.drop_last()), s.last())
    }
}

proof fn lemma_placed_at(s: Seq<(Seq<char>, Seq<char>)>, x: (Seq<char>, Seq<char>), i: int)
    requires
        0 <= i <= s.len(),
        forall|j: int| i <= j < s.len() ==> !text_le((#[trigger] s[j]).0, x.0),
        i > 0 ==> text_le(s[i - 1].0, x.0),
    ensures
        placed(s, x) == s.insert(i, x),
    decreases s.len(),
{
    if s.len() == 0 {
        assert(s.insert(i, x) =~= seq![x]);
    } else if i == s.len() {
        assert(s.insert(i, x) =~= s.push(x));
    } else {
        let t = s.drop_last();
        assert(!text_le(s[s.len() - 1].0, x.0));
        assert forall|j: int| i <= j < t.len() implies !text_le((#[trigger] t[j]).0, x.0) by {
            assert(!text_le(s[j].0, x.0));
        }
        lemma_placed_at(t, x, i);
        assert(s.insert(i, x) =~= t.insert(i, x).push(s.last()));
    }
}

/// The keys are in order.
pub open spec fn in_order(s: Seq<(Seq<char>, Seq<char>)>) -> bool {
    forall|i: int, j: int|
        #![trigger s[i], s[j]]
        0 <= i < j < s.len() ==> text_le(s[i].0, s[j].0)
}

proof fn lemma_placed(s: Seq<(Seq<char>, Seq<char>)>, x: (Seq<char>, Seq<char>))
    requires
        in_order(s),
    ensures
        in_order(placed(s, x)),
        placed(s, x).to_multiset() == s.to_multiset().insert(x),
        placed(s, x).len() == s.len() + 1,
        forall|y: (Seq<char>, Seq<char>)| #[trigger]
            placed(s, x).contains(y) ==> s.contains(y) || y == x,
    decreases s.len(),
{
    broadcast use vstd::seq_lib::group_to_multiset_ensures;

    if s.len() == 0 {
        assert(s =~= Seq::empty());
        assert(placed(s, x) =~= Seq::empty().push(x));
    } else if text_le(s.last().0, x.0) {
        let p = s.push(x);
        assert forall|i: int, j: int|
            #![trigger p[i], p[j]]
            0 <= i < j < p.len() implies text_le(p[i].0, p[j].0) by {
            if j == s.len() {
                if i < s.len() - 1 {
                    assert(text_le(s[i].0, s[s.len() - 1].0));
                    lemma_le_trans(s[i].0, s[s.len() - 1].0, x.0);
                }
            } else {
                assert(text_le(s[i].0, s[j].0));
            }
        }
        assert forall|y: (Seq<char>, Seq<char>)| #[trigger] p.contains(y) implies s.contains(y)
            || y == x by {
            let k = choose|k: int| 0 <= k < p.len() && p[k] == y;
            if k < s.len() {
                assert(s[k] == y);
            }
        }
    } else {
        let t = s.drop_last();
        let q = placed(t, x);
        let p = q.push(s.last());
        assert(in_order(t)) by {
            assert forall|i: int, j: int|
                #![trigger t[i], t[j]]
                0 <= i < j < t.len() implies text_le(t[i].0, t[j].0) by {
                assert(text_le(s[i].0, s[j].0));
            }
        }
        lemma_placed(t, x);
        assert(s =~= t.push(s.last()));
        lemma_le_total(s.last().0, x.0);
        assert forall|i: int, j: int|
            #![trigger p[i], p[j]]
            0 <= i < j < p.len() implies text_le(p[i].0, p[j].0) by {
            if j == q.len() {
                assert(q.contains(q[i]));
                if q[i] != x {
                    let k = choose|k: int| 0 <= k < t.len() && t[k] == q[i];
                    assert(text_le(s[k].0, s[s.len() - 1].0));
                }
            } else {
                assert(text_le(q[i].0, q[j].0));
            }
        }
        assert(q.to_multiset().insert(s.last()) =~= s.to_multiset().insert(x));
        assert forall|y: (Seq<char>, Seq<char>)| #[trigger] p.contains(y) implies s.contains(y)
            || y == x by {
            let k = choose|k: int| 0 <= k < p.len() && p[k] == y;
            if k < q.len() {
                assert(q.contains(y));
                if y != x {
                    let m = choose|m: int| 0 <= m < t.len() && t[m] == y;
                    assert(s[m] == y);
                }
            } else {
                assert(s[s.len() - 1] == y);
            }
        }
    }
}

/// Arranging parameters puts their keys in order and loses and adds none.
pub proof fn law_arranged_is_a_sorted_rearrangement(s: Seq<(Seq<char>, Seq<char>)>)
    ensures
        in_order(arranged(s)),
        arranged(s).to_multiset() == s.to_multiset(),
        arranged(s).len() == s.len(),
    decreases s.len(),
{
    broadcast use vstd::seq_lib::group_to_multiset_ensures;

    if s.len() > 0 {
        law_arranged_is_a_sorted_rearrangement(s.drop_last());
        lemma_placed(arranged(s.drop_last()), s.last());
        assert(s =~= s.drop_last().push(s.last()));
    }
}

/// No two parameters have the same key.
pub open spec fn distinct(s: Seq<(Seq<char>, Seq<char>)>) -> bool {
    forall|i: int, j: int|
        #![trigger s[i], s[j]]
        0 <= i < s.len() && 0 <= j < s.len() && s[i].0 == s[j].0 ==> i == j
}

proof fn lemma_sorted_once(x: Seq<(Seq<char>, Seq<char>)>, y: Seq<(Seq<char>, Seq<char>)>)
    requires
        in_order(x),
        in_order(y),
        distinct(x),
        distinct(y),
        x.to_multiset() == y.to_multiset(),
    ensures
        x == y,
    decreases x.len(),
{
    broadcast use vstd::seq_lib::group_to_multiset_ensures;

    assert(x.len() == x.to_multiset().len());
    assert(y.len() == y.to_multiset().len());
    if x.len() == 0 {
        assert(x =~= y);
    } else {
        let a = x.last();
        let b = y.last();
        assert(x.contains(a)) by {
            assert(x[x.len() - 1] == a);
        }
        assert(y.contains(b)) by {
            assert(y[y.len() - 1] == b);
        }
        assert(y.to_multiset().count(a) > 0);
        assert(x.to_multiset().count(b) > 0);
        assert(y.contains(a) && x.contains(b));
        let j = choose|j: int| 0 <= j < y.len() && y[j] == a;
        let i = choose|i: int| 0 <= i < x.len() && x[i] == b;
        if j < y.len() - 1 {
            assert(text_le(y[j].0, y[y.len() - 1].0));
        }
        if i < x.len() - 1 {
            assert(text_le(x[i].0, x[x.len() - 1].0));
        }
        lemma_le_total(a.0, b.0);
        lemma_le_reflexive(a.0);
        assert(a.0 == b.0);
        assert(y[j].0 == y[y.len() - 1].0);
        assert(a == b);
        let p = x.drop_last();
        let q = y.drop_last();
        assert(x =~= p.push(a));
        assert(y =~= q.push(b));
        assert(p.to_multiset() =~= x.to_multiset().remove(a));
        assert(q.to_multiset() =~= y.to_multiset().remove(b));
        assert(in_order(p)) by {
            assert forall|i: int, j: int|
                #![trigger p[i], p[j]]
                0 <= i < j < p.len() implies text_le(p[i].0, p[j].0) by {
                assert(text_le(x[i].0, x[j].0));
            }
        }
        assert(in_order(q)) by {
            assert forall|i: int, j: int|
                #![trigger q[i], q[j]]
                0 <= i < j < q.len() implies text_le(q[i].0, q[j].0) by {
                assert(text_le(y[i].0, y[j].0));
            }
        }
        assert(distinct(p)) by {
            assert forall|i: int, j: int|
                #![trigger p[i], p[j]]
                0 <= i < p.len() && 0 <= j < p.len() && p[i].0 == p[j].0 implies i == j by {
                assert(x[i].0 == x[j].0);
            }
        }
        assert(distinct(q)) by {
            assert forall|i: int, j: int|
                #![trigger q[i], q[j]]
                0 <= i < q.len() && 0 <= j < q.len() && q[i].0 == q[j].0 implies i == j by {
                assert(y[i].0 == y[j].0);
            }
        }
        lemma_sorted_once(p, q);
    }
}

proof fn lemma_le_reflexive(a: Seq<char>)
    ensures
        text_le(a, a),
{
    lemma_le_total(a, a);
}

proof fn lemma_distinct_of_multiset(
    s: Seq<(Seq<char>, Seq<char>)>,
    t: Seq<(Seq<char>, Seq<char>)>,
)
    requires
        distinct(s),
        s.to_multiset() == t.to_multiset(),
    ensures
        distinct(t),
{
    broadcast use vstd::seq_lib::group_to_multiset_ensures;

    assert(s.no_duplicates()) by {
        assert forall|i: int, j: int|
            0 <= i < s.len() && 0 <= j < s.len() && i != j implies s[i] != s[j] by {
            if s[i] == s[j] {
                assert(s[i].0 == s[j].0);
            }
        }
    }
    s.lemma_multiset_has_no_duplicates();
    t.lemma_multiset_has_no_duplicates_conv();
    assert forall|i: int, j: int|
        #![trigger t[i], t[j]]
        0 <= i < t.len() && 0 <= j < t.len() && t[i].0 == t[j].0 implies i == j by {
        assert(t.contains(t[i]) && t.contains(t[j]));
        assert(s.to_multiset().count(t[i]) > 0 && s.to_multiset().count(t[j]) > 0);
        assert(s.contains(t[i]) && s.contains(t[j]));
        let a = choose|a: int| 0 <= a < s.len() && s[a] == t[i];
        let b = choose|b: int| 0 <= b < s.len() && s[b] == t[j];
        assert(s[a].0 == s[b].0);
        assert(a == b);
        assert(t[i] == t[j]);
    }
}

/// The order in which parameters came does not matter, where no key occurs twice.
pub proof fn law_arranged_ignores_order(
    s: Seq<(Seq<char>, Seq<char>)>,
    t: Seq<(Seq<char>, Seq<char>)>,
)
    requires
        distinct(s),
        s.to_multiset() == t.to_multiset(),
    ensures
        arranged(s) == arranged(t),
{
    law_arranged_is_a_sorted_rearrangement(s);
    law_arranged_is_a_sorted_rearrangement(t);
    lemma_distinct_of_multiset(s, arranged(s));
    lemma_distinct_of_multiset(s, t);
    lemma_distinct_of_multiset(t, arranged(t));
    lemma_sorted_once(arranged(s), arranged(t));
}

// ---------------------------------------------------------------------------
// EasyPay
// ---------------------------------------------------------------------------
/// A parameter that is signed: any with a value but the signature itself and its kind.
pub open spec fn is_signed(p: (Seq<char>, Seq<char>)) -> bool {
    p.0 != "sign"@ && p.0 != "sign_type"@ && p.1.len() > 0
}

pub open spec fn signed_pairs(s: Seq<(Seq<char>, Seq<char>)>) -> Seq<(Seq<char>, Seq<char>)> {
    s.filter(|p: (Seq<char>, Seq<char>)| is_signed(p))
}

/// Each parameter as `key=value`.
pub open spec fn assignments(s: Seq<(Seq<char>, Seq<char>)>) -> Seq<Seq<char>> {
    s.map_values(|p: (Seq<char>, Seq<char>)| p.0 + "="@ + p.1)
}

/// The text that is signed: the parameters in the order of their keys, and the key of
/// the merchant.
pub open spec fn easypay_input(params: Seq<(Seq<char>, Seq<char>)>, pkey: Seq<char>) -> Seq<char> {
    text::joined(assignments(arranged(signed_pairs(params))), "&"@) + pkey
}

pub open spec fn easypay_sign(params: Seq<(Seq<char>, Seq<char>)>, pkey: Seq<char>) -> Seq<char> {
    hash::hex(hash::md5_digest(encode_utf8(easypay_input(params, pkey))))
}

fn place(v: &mut Vec<(String, String)>, x: (String, String))
    ensures
        maps::pairs(final(v)@) == placed(maps::pairs(old(v)@), (x.0@, x.1@)),
{
    let mut i: usize = v.len();
    while i > 0 && !le(v[i - 1].0.as_str(), x.0.as_str())
        invariant
            i <= v@.len(),
            forall|j: int|
                i <= j < v@.len() ==> !text_le((#[trigger] maps::pairs(v@)[j]).0, x.0@),
        decreases i,
    {
        assert(maps::pairs(v@)[i - 1].0 == v@[i - 1].0@);
        i -= 1;
    }
    proof {
        if i > 0 {
            assert(maps::pairs(v@)[i - 1].0 == v@[i - 1].0@);
        }
        lemma_placed_at(maps::pairs(v@), (x.0@, x.1@), i as int);
    }
    let ghost before = maps::pairs(v@);
    let ghost item = (x.0@, x.1@);
    v.insert(i, x);
    assert(maps::pairs(v@) =~= before.insert(i as int, item));
}

/// The parameters that are signed, in the order of their keys.
fn arrange_signed(params: &Vec<(String, String)>) -> (r: Vec<(String, String)>)
    ensures
        maps::pairs(r@) == arranged(signed_pairs(maps::pairs(params@))),
{
    let ghost all = maps::pairs(params@);
    let ghost p = |q: (Seq<char>, Seq<char>)| is_signed(q);
    let mut out: Vec<(String, String)> = Vec::new();
    let mut i: usize = 0;
    proof {
        reveal(Seq::filter);
        assert(maps::pairs(out@) =~= arranged(all.take(0).filter(p)));
    }
    while i < params.len()
        invariant
            i <= params@.len(),
            all == maps::pairs(params@),
            p == (|q: (Seq<char>, Seq<char>)| is_signed(q)),
            maps::pairs(out@) == arranged(all.take(i as int).filter(p)),
        decreases params@.len() - i,
    {
        let key = params[i].0.as_str();
        let value = params[i].1.as_str();
        proof {
            reveal(Seq::filter);
            assert(all.take(i + 1).drop_last() =~= all.take(i as int));
            assert(all.take(i + 1).last() == (key@, value@));
            let f = all.take(i as int).filter(p);
            assert(f.push((key@, value@)).drop_last() =~= f);
        }
        if !text::same(key, "sign") && !text::same(key, "sign_type") && !value.is_empty() {
            place(&mut out, (key.to_owned(), value.to_owned()));
        }
        i += 1;
    }
    assert(all.take(i as int) =~= all);
    out
}

pub fn generate_easy_pay_sign(params: &Vec<(String, String)>, pkey: &str) -> (r: String)
    ensures
        r@ == easypay_sign(maps::pairs(params@), pkey@),
{
    let sorted = arrange_signed(params);
    let mut parts: Vec<String> = Vec::new();
    let mut i: usize = 0;
    while i < sorted.len()
        invariant
            i <= sorted@.len(),
            text::texts(parts@) == assignments(maps::pairs(sorted@)).take(i as int),
        decreases sorted@.len() - i,
    {
        let mut part = sorted[i].0.clone();
        part.append("=");
        part.append(sorted[i].1.as_str());
        let ghost before = text::texts(parts@);
        parts.push(part);
        assert(text::texts(parts@) =~= before.push(part@));
        assert(assignments(maps::pairs(sorted@))[i as int] == part@);
        assert(assignments(maps::pairs(sorted@)).take(i + 1) =~= before.push(part@));
        i += 1;
    }
    assert(assignments(maps::pairs(sorted@)).take(i as int) =~= assignments(maps::pairs(sorted@)));
    let mut input = text::join(&parts, "&");
    input.append(pkey);
    let digest = hash::md5_of(input.as_str().as_bytes());
    hash::hex_lower(digest.as_slice())
}

/// The signature depends on the parameters and not on the order in which they came,
/// where no key occurs twice.
pub proof fn law_easypay_sign_ignores_order(
    s: Seq<(Seq<char>, Seq<char>)>,
    t: Seq<(Seq<char>, Seq<char>)>,
    pkey: Seq<char>,
)
    requires
        distinct(signed_pairs(s)),
        signed_pairs(s).to_multiset() == signed_pairs(t).to_multiset(),
    ensures
        easypay_sign(s, pkey) == easypay_sign(t, pkey),
{
    law_arranged_ignores_order(signed_pairs(s), signed_pairs(t));
}

/// A signature and its kind are no part of what is signed.
pub proof fn law_signatures_are_not_signed(
    s: Seq<(Seq<char>, Seq<char>)>,
    pkey: Seq<char>,
    sign: Seq<char>,
    kind: Seq<char>,
)
    ensures
        easypay_sign(s.push(("sign"@, sign)).push(("sign_type"@, kind)), pkey) == easypay_sign(
            s,
            pkey,
        ),
{
    reveal(Seq::filter);
    let p = |q: (Seq<char>, Seq<char>)| is_signed(q);
    let a = s.push(("sign"@, sign));
    let b = a.push(("sign_type"@, kind));
    assert(b.drop_last() =~= a);
    assert(a.drop_last() =~= s);
    assert(a.last() == ("sign"@, sign) && !p(a.last()));
    assert(a.filter(p) == s.filter(p));
    assert(b.last() == ("sign_type"@, kind) && !p(b.last()));
    assert(b.filter(p) == s.filter(p));
}

/// A list of the entries of a map, each once.
pub open spec fn lists(v: Seq<(Seq<char>, Seq<char>)>, m: Map<Seq<char>, Seq<char>>) -> bool {
    distinct(v) && maps::pairs_map(v) == m
}

/// The signature of parameters under distinct keys.
pub open spec fn easypay_map_sign(m: Map<Seq<char>, Seq<char>>, pkey: Seq<char>) -> Seq<char> {
    easypay_sign(choose|v: Seq<(Seq<char>, Seq<char>)>| lists(v, m), pkey)
}

proof fn lemma_listed(v: Seq<(Seq<char>, Seq<char>)>, x: (Seq<char>, Seq<char>))
    requires
        distinct(v),
    ensures
        v.contains(x) <==> maps::pairs_map(v).dom().contains(x.0) && maps::pairs_map(v)[x.0] == x.1,
    decreases v.len(),
{
    if v.len() > 0 {
        let before = v.drop_last();
        assert(distinct(before)) by {
            assert forall|i: int, j: int|
                #![trigger before[i], before[j]]
                0 <= i < j < before.len() implies before[i].0 != before[j].0 by {
                assert(v[i].0 != v[j].0);
            }
        }
        lemma_listed(before, x);
        lemma_listed(before, (v.last().0, v.last().1));
        if v.contains(x) {
            let i = choose|i: int| 0 <= i < v.len() && v[i] == x;
            if i < before.len() {
                assert(before[i] == x);
                assert(v[i].0 != v[v.len() - 1].0);
            }
        }
        if maps::pairs_map(v).dom().contains(x.0) && maps::pairs_map(v)[x.0] == x.1 {
            if x.0 == v.last().0 {
                assert(v[v.len() - 1] == x);
            } else {
                let i = choose|i: int| 0 <= i < before.len() && before[i] == x;
                assert(v[i] == x);
            }
        }
    }
}

proof fn lemma_signed_distinct(v: Seq<(Seq<char>, Seq<char>)>)
    requires
        distinct(v),
    ensures
        distinct(signed_pairs(v)),
        forall|x: (Seq<char>, Seq<char>)|
            #![auto]
            signed_pairs(v).contains(x) <==> v.contains(x) && is_signed(x),
    decreases v.len(),
{
    let p = |q: (Seq<char>, Seq<char>)| is_signed(q);
    reveal(Seq::filter);
    if v.len() > 0 {
        let before = v.drop_last();
        assert(distinct(before)) by {
            assert forall|i: int, j: int|
                #![trigger before[i], before[j]]
                0 <= i < j < before.len() implies before[i].0 != before[j].0 by {
                assert(v[i].0 != v[j].0);
            }
        }
        lemma_signed_distinct(before);
        let f = signed_pairs(before);
        let g = signed_pairs(v);
        assert(g == if is_signed(v.last()) {
            f.push(v.last())
        } else {
            f
        });
        assert forall|i: int, j: int|
            #![trigger g[i], g[j]]
            0 <= i < j < g.len() implies g[i].0 != g[j].0 by {
            if j == f.len() {
                assert(f.contains(f[i]));
                let k = choose|k: int| 0 <= k < before.len() && before[k] == f[i];
                assert(v[k].0 != v[v.len() - 1].0);
            } else {
                assert(f[i].0 != f[j].0);
            }
        }
        assert forall|x: (Seq<char>, Seq<char>)|
            #![auto]
            signed_pairs(v).contains(x) <==> v.contains(x) && is_signed(x) by {
            if g.contains(x) {
                let i = choose|i: int| 0 <= i < g.len() && g[i] == x;
                if i < f.len() {
                    assert(f[i] == x);
                    assert(f.contains(x));
                    let k = choose|k: int| 0 <= k < before.len() && before[k] == x;
                    assert(v[k] == x);
                } else {
                    assert(v[v.len() - 1] == x);
                }
            }
            if v.contains(x) && is_signed(x) {
                let k = choose|k: int| 0 <= k < v.len() && v[k] == x;
                if k < before.len() {
                    assert(before[k] == x);
                    assert(f.contains(x));
                    let i = choose|i: int| 0 <= i < f.len() && f[i] == x;
                    assert(g[i] == x);
                } else {
                    assert(g[f.len() as int] == x);
                }
            }
        }
    }
}

proof fn lemma_same_elements(
    a: Seq<(Seq<char>, Seq<char>)>,
    b: Seq<(Seq<char>, Seq<char>)>,
)
    requires
        distinct(a),
        distinct(b),
        forall|x: (Seq<char>, Seq<char>)| a.contains(x) <==> b.contains(x),
    ensures
        a.to_multiset() == b.to_multiset(),
{
    assert(a.no_duplicates());
    assert(b.no_duplicates());
    a.lemma_multiset_has_no_duplicates();
    b.lemma_multiset_has_no_duplicates();
    a.to_multiset_ensures();
    b.to_multiset_ensures();
    assert forall|x: (Seq<char>, Seq<char>)|
        #![auto]
        a.to_multiset().count(x) == b.to_multiset().count(x) by {
        assert(a.contains(x) <==> a.to_multiset().count(x) > 0);
        assert(b.contains(x) <==> b.to_multiset().count(x) > 0);
        if a.contains(x) {
            assert(a.to_multiset().contains(x));
            assert(b.to_multiset().contains(x));
        }
    }
    assert(a.to_multiset() =~= b.to_multiset());
}

/// The signature of a map is that of every list of its entries.
pub proof fn law_every_list_signs_the_map(
    v: Seq<(Seq<char>, Seq<char>)>,
    m: Map<Seq<char>, Seq<char>>,
    pkey: Seq<char>,
)
    requires
        lists(v, m),
    ensures
        easypay_sign(v, pkey) == easypay_map_sign(m, pkey),
{
    let w = choose|w: Seq<(Seq<char>, Seq<char>)>| lists(w, m);
    lemma_signed_distinct(v);
    lemma_signed_distinct(w);
    assert forall|x: (Seq<char>, Seq<char>)| signed_pairs(v).contains(x) <==> signed_pairs(
        w,
    ).contains(x) by {
        lemma_listed(v, x);
        lemma_listed(w, x);
    }
    lemma_same_elements(signed_pairs(v), signed_pairs(w));
    law_easypay_sign_ignores_order(v, w, pkey);
}

/// Signs parameters.
pub fn sign_params(params: &TextMap<String>, pkey: &str) -> (r: String)
    requires
        params.wf(),
    ensures
        r@ == easypay_map_sign(maps::text_map(params@), pkey@),
{
    let list = params.to_pairs();
    proof {
        law_every_list_signs_the_map(maps::pairs(list@), maps::text_map(params@), pkey@);
    }
    generate_easy_pay_sign(&list, pkey)
}

// ---------------------------------------------------------------------------
// Stripe
// ---------------------------------------------------------------------------
/// How far the time of a signature may be from now, in seconds.
pub const STRIPE_TOLERANCE_SECONDS: i64 = 300;

/// What a signature header says: its time, and the signatures of the first scheme.
pub struct StripeHeader {
    pub timestamp: Option<i64>,
    pub signatures: Vec<String>,
}

/// A part of a header, `key=value`, without white space round the two.
pub open spec fn header_part(part: Seq<char>) -> (Seq<char>, Seq<char>) {
    match part.index_of_first('=') {
        Some(i) => (text::trimmed(part.take(i)), text::trimmed(part.skip(i + 1))),
        None => (text::trimmed(part), Seq::empty()),
    }
}

/// The time of a header: that of its last part `t`, if it is a number.
pub open spec fn header_time(parts: Seq<Seq<char>>) -> Option<int>
    decreases parts.len(),
{
    if parts.len() == 0 {
        None
    } else if header_part(parts.last()).0 == "t"@ {
        text::i64_in(header_part(parts.last()).1)
    } else {
        header_time(parts.drop_last())
    }
}

/// The signatures of a header: those of its parts `v1` that are not empty.
pub open spec fn header_signatures(parts: Seq<Seq<char>>) -> Seq<Seq<char>>
    decreases parts.len(),
{
    if parts.len() == 0 {
        Seq::empty()
    } else {
        let before = header_signatures(parts.drop_last());
        let (key, value) = header_part(parts.last());
        if key == "v1"@ && value.len() > 0 {
            before.push(value)
        } else {
            before
        }
    }
}

fn split_part(part: &str) -> (r: (String, String))
    ensures
        (r.0@, r.1@) == header_part(part@),
{
    let chars = text::chars_of(part);
    let mut i: usize = 0;
    while i < chars.len() && chars[i] != '='
        invariant
            i <= chars@.len(),
            chars@ == part@,
            forall|j: int| 0 <= j < i ==> #[trigger] part@[j] != '=',
        decreases chars@.len() - i,
    {
        i += 1;
    }
    proof {
        part@.index_of_first_ensures('=');
    }
    if i < chars.len() {
        assert(part@[i as int] == '=');
        assert(part@.contains('='));
        let key = part.substring_char(0, i);
        let value = part.substring_char(i + 1, chars.len());
        assert(part@.subrange(0, i as int) =~= part@.take(i as int));
        assert(part@.subrange(i + 1, part@.len() as int) =~= part@.skip(i + 1));
        (text::trim(key).to_owned(), text::trim(value).to_owned())
    } else {
        assert(!part@.contains('=')) by {
            if part@.contains('=') {
                let j = choose|j: int| 0 <= j < part@.len() && part@[j] == '=';
                assert(part@[j] != '=');
            }
        }
        (text::trim(part).to_owned(), String::new())
    }
}

pub fn parse_stripe_header(header: &str) -> (r: StripeHeader)
    ensures
        match r.timestamp {
            Some(t) => header_time(text::pieces(header@, ',')) == Some(t as int),
            None => header_time(text::pieces(header@, ',')) is None,
        },
        text::texts(r.signatures@) == header_signatures(text::pieces(header@, ',')),
{
    let parts = text::split(header, ',');
    let ghost all = text::pieces(header@, ',');
    assert(text::texts(parts@).len() == parts@.len());
    let mut timestamp: Option<i64> = None;
    let mut signatures: Vec<String> = Vec::new();
    let mut i: usize = 0;
    assert(text::texts(signatures@) =~= header_signatures(all.take(0)));
    while i < parts.len()
        invariant
            i <= parts@.len() == all.len(),
            text::texts(parts@) == all,
            match timestamp {
                Some(t) => header_time(all.take(i as int)) == Some(t as int),
                None => header_time(all.take(i as int)) is None,
            },
            text::texts(signatures@) == header_signatures(all.take(i as int)),
        decreases parts@.len() - i,
    {
        proof {
            assert(text::texts(parts@)[i as int] == parts@[i as int]@);
            assert(all.take(i + 1).drop_last() =~= all.take(i as int));
            assert(all.take(i + 1).last() == parts@[i as int]@);
            reveal_strlit("t");
            reveal_strlit("v1");
            assert("t"@.len() == 1 && "v1"@.len() == 2);
        }
        let (key, value) = split_part(parts[i].as_str());
        if text::same(key.as_str(), "t") {
            timestamp = text::parse_i64(value.as_str());
        } else if text::same(key.as_str(), "v1") {
            if !value.as_str().is_empty() {
                let ghost before = text::texts(signatures@);
                signatures.push(value);
                assert(text::texts(signatures@) =~= before.push(value@));
            }
        }
        i += 1;
    }
    assert(all.take(i as int) =~= all);
    StripeHeader { timestamp, signatures }
}

/// The signature of a payload sent at a time.
pub open spec fn stripe_signature(secret: Seq<char>, timestamp: int, payload: Seq<char>) -> Seq<
    char,
> {
    hash::hex(
        hash::hmac_sha256(
            encode_utf8(secret),
            encode_utf8(text::decimal(timestamp) + "."@ + payload),
        ),
    )
}

/// The signature of a payload sent at a time.
pub fn sign_stripe_payload(secret: &str, timestamp: i64, payload: &str) -> (r: String)
    ensures
        r@ == stripe_signature(secret@, timestamp as int, payload@),
{
    let mut signed = text::i64_text(timestamp);
    signed.append(".");
    signed.append(payload);
    let code = hash::hmac_sha256_code(secret.as_bytes(), signed.as_str().as_bytes());
    hash::hex_lower(code.as_slice())
}

/// The time of a signature is close enough to now.
pub open spec fn is_recent(timestamp: int, now: int) -> bool {
    -STRIPE_TOLERANCE_SECONDS <= now - timestamp <= STRIPE_TOLERANCE_SECONDS
}

/// Whether a header signs a payload, or that it has no time.
pub open spec fn stripe_verdict(
    secret: Seq<char>,
    payload: Seq<char>,
    header: Seq<char>,
    now: int,
) -> Result<bool, Seq<char>> {
    let parts = text::pieces(header, ',');
    match header_time(parts) {
        None => Err("Stripe signature header missing timestamp"@),
        Some(t) => Ok(
            is_recent(t, now) && header_signatures(parts).contains(
                stripe_signature(secret, t, payload),
            ),
        ),
    }
}

pub fn verify_stripe_signature(secret: &str, payload: &str, signature_header: &str, now: i64) -> (r:
    Result<bool, String>)
    ensures
        match r {
            Ok(b) => stripe_verdict(secret@, payload@, signature_header@, now as int) == Ok::<
                bool,
                Seq<char>,
            >(b),
            Err(e) => stripe_verdict(secret@, payload@, signature_header@, now as int) == Err::<
                bool,
                Seq<char>,
            >(e@),
        },
{
    let header = parse_stripe_header(signature_header);
    let timestamp: i64 = match header.timestamp {
        Some(t) => t,
        None => {
            return Err("Stripe signature header missing timestamp".to_owned());
        },
    };
    let distance: i128 = (now as i128) - (timestamp as i128);
    if distance > 300 || distance < -300 {
        return Ok(false);
    }
    let expected = sign_stripe_payload(secret, timestamp, payload);
    let ghost all = text::texts(header.signatures@);
    let mut i: usize = 0;
    while i < header.signatures.len()
        invariant
            i <= header.signatures@.len(),
            all == text::texts(header.signatures@),
            all == header_signatures(text::pieces(signature_header@, ',')),
            header_time(text::pieces(signature_header@, ',')) == Some(timestamp as int),
            is_recent(timestamp as int, now as int),
            expected@ == stripe_signature(secret@, timestamp as int, payload@),
            forall|j: int| 0 <= j < i ==> #[trigger] all[j] != expected@,
        decreases header.signatures@.len() - i,
    {
        if hash::secure_equals(header.signatures[i].as_str(), expected.as_str()) {
            assert(all[i as int] == expected@);
            return Ok(true);
        }
        i += 1;
    }
    assert(!all.contains(expected@)) by {
        if all.contains(expected@) {
            let j = choose|j: int| 0 <= j < all.len() && all[j] == expected@;
            assert(all[j] != expected@);
        }
    }
    Ok(false)
}

/// Whether any of the secrets signs a payload, or why it cannot be told.
pub open spec fn any_secret_signs(
    secrets: Seq<Seq<char>>,
    payload: Seq<char>,
    header: Seq<char>,
    now: int,
) -> bool {
    exists|i: int|
        0 <= i < secrets.len() && stripe_verdict(#[trigger] secrets[i], payload, header, now)
            == Ok::<bool, Seq<char>>(true)
}

/// What is said of a webhook that none of the secrets signs.
pub open spec fn webhook_refusal(secrets: Seq<Seq<char>>, header: Seq<char>) -> Seq<char> {
    if secrets.len() > 0 && header_time(text::pieces(header, ',')) is None {
        "Stripe signature header missing timestamp"@
    } else {
        "Stripe webhook signature verification failed"@
    }
}

/// Verifies a webhook against the secrets that may have signed it.
pub fn verify_stripe_payload(
    secrets: &Vec<String>,
    payload: &str,
    signature_header: &str,
    now: i64,
) -> (r: Result<(), String>)
    ensures
        r is Ok <==> any_secret_signs(
            text::texts(secrets@),
            payload@,
            signature_header@,
            now as int,
        ),
        r matches Err(e) ==> e@ == webhook_refusal(text::texts(secrets@), signature_header@),
{
    let ghost all = text::texts(secrets@);
    let mut i: usize = 0;
    while i < secrets.len()
        invariant
            i <= secrets@.len(),
            all == text::texts(secrets@),
            i > 0 ==> header_time(text::pieces(signature_header@, ',')) is Some,
            forall|j: int|
                0 <= j < i ==> stripe_verdict(
                    #[trigger] all[j],
                    payload@,
                    signature_header@,
                    now as int,
                ) == Ok::<bool, Seq<char>>(false),
        decreases secrets@.len() - i,
    {
        match verify_stripe_signature(secrets[i].as_str(), payload, signature_header, now) {
            Err(e) => {
                return Err(e);
            },
            Ok(true) => {
                assert(all[i as int] == secrets@[i as int]@);
                return Ok(());
            },
            Ok(false) => {},
        }
        assert(all[i as int] == secrets@[i as int]@);
        i += 1;
    }
    Err("Stripe webhook signature verification failed".to_owned())
}

/// A header that carries the signature of a payload verifies while it is recent.
pub proof fn law_signed_stripe_payload_verifies(
    secret: Seq<char>,
    payload: Seq<char>,
    timestamp: i64,
    now: int,
)
    requires
        is_recent(timestamp as int, now),
        stripe_signature(secret, timestamp as int, payload).len() > 0,
    ensures
        stripe_verdict(
            secret,
            payload,
            "t="@ + text::decimal(timestamp as int) + ",v1="@ + stripe_signature(
                secret,
                timestamp as int,
                payload,
            ),
            now,
        ) == Ok::<bool, Seq<char>>(true),
{
    let d = text::decimal(timestamp as int);
    let sig = stripe_signature(secret, timestamp as int, payload);
    let header = "t="@ + d + ",v1="@ + sig;
    reveal_strlit("t=");
    reveal_strlit(",v1=");
    reveal_strlit("t");
    reveal_strlit("v1");
    text::lemma_decimal_chars(timestamp as int);
    hash::lemma_hex_shape(
        hash::hmac_sha256(
            encode_utf8(secret),
            encode_utf8(text::decimal(timestamp as int) + "."@ + payload),
        ),
    );
    let first = "t="@ + d;
    let second = "v1="@ + sig;
    reveal_strlit("v1=");
    assert(!first.contains(',')) by {
        if first.contains(',') {
            let i = choose|i: int| 0 <= i < first.len() && first[i] == ',';
            if i >= 2 {
                assert(first[i] == d[i - 2]);
            }
        }
    }
    assert(!second.contains(',')) by {
        if second.contains(',') {
            let i = choose|i: int| 0 <= i < second.len() && second[i] == ',';
            if i >= 3 {
                assert(second[i] == sig[i - 3]);
            }
        }
    }
    assert(header =~= first.push(',') + second);
    text::lemma_one_piece(first, ',');
    text::lemma_last_piece(first, second, ',');
    let parts = text::pieces(header, ',');
    assert(parts =~= seq![first, second]);
    lemma_header_part("t"@, d);
    lemma_header_part("v1"@, sig);
    assert(first =~= "t"@ + "="@ + d) by {
        reveal_strlit("=");
    }
    assert(second =~= "v1"@ + "="@ + sig) by {
        reveal_strlit("=");
    }
    assert("t"@ != "v1"@) by {
        assert("t"@.len() == 1 && "v1"@.len() == 2);
    }
    text::law_decimal_read_back(timestamp);
    assert(parts.last() == second && parts.drop_last() =~= seq![first]);
    assert(parts.drop_last().last() == first);
    assert(header_time(parts.drop_last()) == text::i64_in(d));
    assert(header_time(parts) == Some(timestamp as int));
    assert(header_signatures(parts.drop_last().drop_last()) =~= Seq::empty());
    assert(header_signatures(parts.drop_last()) =~= Seq::empty());
    assert(header_signatures(parts) =~= seq![sig]);
    assert(header_signatures(parts)[0] == sig);
}

/// A part whose key and value hold neither `=` nor white space is read as the two.
proof fn lemma_header_part(key: Seq<char>, value: Seq<char>)
    requires
        forall|i: int|
            0 <= i < key.len() ==> #[trigger] key[i] != '=' && !text::is_space(key[i]),
        forall|i: int| 0 <= i < value.len() ==> !text::is_space(#[trigger] value[i]),
    ensures
        header_part(key + "="@ + value) == (key, value),
{
    reveal_strlit("=");
    let part = key + "="@ + value;
    let n = key.len() as int;
    part.index_of_first_ensures('=');
    assert(part[n] == '=');
    assert(part.contains('='));
    let i = part.index_of_first('=')->0;
    if i < n {
        assert(part[i] == key[i]);
    }
    assert(i == n);
    assert(part.take(n) =~= key);
    assert(part.skip(n + 1) =~= value);
    text::lemma_trimmed_already(key);
    text::lemma_trimmed_already(value);
}

// ---------------------------------------------------------------------------
// Access to the status of an order
// ---------------------------------------------------------------------------
/// The text that a token of access signs.
pub open spec fn access_text(order_id: Seq<char>, user_id: int, expires_at_ms: int) -> Seq<char> {
    "order-status-access:v2"@ + ":"@ + order_id + ":"@ + text::decimal(user_id) + ":"@
        + text::decimal(expires_at_ms)
}

/// The signature of access: under a key derived from the administrator's token.
pub open spec fn access_signature(
    admin_token: Seq<char>,
    order_id: Seq<char>,
    user_id: int,
    expires_at_ms: int,
) -> Seq<char> {
    hash::url_base64_text(
        hash::hmac_sha256(
            hash::hmac_sha256(encode_utf8(admin_token), encode_utf8("order-status-access-key"@)),
            encode_utf8(access_text(order_id, user_id, expires_at_ms)),
        ),
    )
}

/// A token gives access to the status of an order: it is not yet expired, and its
/// signature is that of the order, the user and the time it names.
pub open spec fn token_opens(
    admin_token: Option<Seq<char>>,
    order_id: Seq<char>,
    token: Option<Seq<char>>,
    now_ms: int,
) -> bool {
    &&& admin_token is Some
    &&& token is Some
    &&& {
        let parts = text::pieces(text::trimmed(token->0), '.');
        &&& parts.len() == 3
        &&& text::i64_in(parts[0]) matches Some(expires_at_ms)
        &&& text::i64_in(parts[1]) matches Some(user_id)
        &&& expires_at_ms > 0
        &&& user_id >= 0
        &&& now_ms <= expires_at_ms
        &&& parts[2] == access_signature(admin_token->0, order_id, user_id, expires_at_ms)
    }
}

/// The signature of access for an order, a user and a time. With it, a token opens the
/// status of the order until that time.
pub fn build_order_status_signature(
    admin_token: &str,
    order_id: &str,
    user_id: i64,
    expires_at_ms: i64,
) -> (r: String)
    ensures
        r@ == access_signature(admin_token@, order_id@, user_id as int, expires_at_ms as int),
        expires_at_ms > 0 && user_id >= 0 ==> forall|now_ms: int|
            now_ms <= expires_at_ms ==> #[trigger] token_opens(
                Some(admin_token@),
                order_id@,
                Some(
                    text::decimal(expires_at_ms as int) + seq!['.'] + text::decimal(user_id as int)
                        + seq!['.'] + r@,
                ),
                now_ms,
            ),
{
    let derived = hash::hmac_sha256_code(
        admin_token.as_bytes(),
        "order-status-access-key".as_bytes(),
    );
    let mut signed = "order-status-access:v2".to_owned();
    signed.append(":");
    signed.append(order_id);
    signed.append(":");
    signed.append(text::i64_text(user_id).as_str());
    signed.append(":");
    signed.append(text::i64_text(expires_at_ms).as_str());
    let code = hash::hmac_sha256_code(derived.as_slice(), signed.as_str().as_bytes());
    let r = hash::url_base64_encode(code.as_slice());
    proof {
        let e = text::decimal(expires_at_ms as int);
        let u = text::decimal(user_id as int);
        let token = e + seq!['.'] + u + seq!['.'] + r@;
        text::lemma_decimal_chars(expires_at_ms as int);
        text::lemma_decimal_chars(user_id as int);
        text::law_decimal_read_back(expires_at_ms);
        text::law_decimal_read_back(user_id);
        assert(!e.contains('.'));
        assert(!u.contains('.'));
        assert(!r@.contains('.'));
        assert(token =~= (e.push('.') + u).push('.') + r@);
        text::lemma_one_piece(e, '.');
        text::lemma_last_piece(e, u, '.');
        text::lemma_last_piece(e.push('.') + u, r@, '.');
        assert(text::pieces(token, '.') =~= seq![e, u, r@]);
        assert(token[0] == e[0]);
        assert(!text::is_space(token[0]));
        assert(token.last() == if r@.len() > 0 {
            r@.last()
        } else {
            '.'
        });
        if r@.len() > 0 {
            assert(r@.last() == r@[r@.len() - 1]);
        }
        text::lemma_trimmed_already(token);
    }
    r
}

pub fn verify_order_status_access_token(
    admin_token: Option<&str>,
    order_id: &str,
    token: Option<&str>,
    now_ms: i64,
) -> (r: bool)
    ensures
        r == token_opens(
            db::opt_str(admin_token),
            order_id@,
            db::opt_str(token),
            now_ms as int,
        ),
{
    let token = match token {
        Some(t) => text::trim(t),
        None => {
            return false;
        },
    };
    if token.is_empty() {
        assert(text::pieces(token@, '.').len() == 1);
        return false;
    }
    let admin_token = match admin_token {
        Some(t) => t,
        None => {
            return false;
        },
    };
    let parts = text::split(token, '.');
    let ghost all = text::pieces(token@, '.');
    assert(text::texts(parts@).len() == parts@.len());
    if parts.len() != 3 {
        return false;
    }
    assert(all[0] == parts@[0]@ && all[1] == parts@[1]@ && all[2] == parts@[2]@);
    let expires_at_ms: i64 = match text::parse_i64(parts[0].as_str()) {
        Some(v) => v,
        None => {
            return false;
        },
    };
    let user_id: i64 = match text::parse_i64(parts[1].as_str()) {
        Some(v) => v,
        None => {
            return false;
        },
    };
    if expires_at_ms <= 0 || user_id < 0 || now_ms > expires_at_ms {
        return false;
    }
    let expected = build_order_status_signature(admin_token, order_id, user_id, expires_at_ms);
    hash::secure_equals(expected.as_str(), parts[2].as_str())
}

/// What signs parameters is the digest of all of them that have a value, but for a signature
/// and its kind: each as `key=value`, in the order of their keys and with `&` between them,
/// and the merchant's key after the last.
pub proof fn law_all_parameters_are_signed_in_order(
    s: Seq<(Seq<char>, Seq<char>)>,
    pkey: Seq<char>,
)
    requires
        in_order(s),
        forall|i: int|
            0 <= i < s.len() ==> (#[trigger] s[i]).0 != "sign"@ && s[i].0 != "sign_type"@
                && s[i].1.len() > 0,
    ensures
        easypay_sign(s, pkey) == hash::hex(
            hash::md5_digest(
                encode_utf8(
                    text::joined(Seq::new(s.len(), |i: int| s[i].0 + "="@ + s[i].1), "&"@) + pkey,
                ),
            ),
        ),
{
    let p = |q: (Seq<char>, Seq<char>)| is_signed(q);
    lemma_all_kept(s, p);
    lemma_arranged_already(s);
    assert(assignments(s) =~= Seq::new(s.len(), |i: int| s[i].0 + "="@ + s[i].1));
}

proof fn lemma_all_kept(s: Seq<(Seq<char>, Seq<char>)>, p: spec_fn((Seq<char>, Seq<char>)) -> bool)
    requires
        forall|i: int| 0 <= i < s.len() ==> p(#[trigger] s[i]),
    ensures
        s.filter(p) == s,
    decreases s.len(),
{
    reveal(Seq::filter);
    if s.len() > 0 {
        let before = s.drop_last();
        assert forall|i: int| 0 <= i < before.len() implies p(#[trigger] before[i]) by {
            assert(p(s[i]));
        }
        lemma_all_kept(before, p);
        assert(p(s[s.len() - 1]));
        assert(before.push(s.last()) =~= s);
    } else {
        assert(s.filter(p) =~= s);
    }
}

proof fn lemma_arranged_already(s: Seq<(Seq<char>, Seq<char>)>)
    requires
        in_order(s),
    ensures
        arranged(s) == s,
    decreases s.len(),
{
    if s.len() > 0 {
        let before = s.drop_last();
        assert(in_order(before)) by {
            assert forall|i: int, j: int|
                #![trigger before[i], before[j]]
                0 <= i < j < before.len() implies text_le(before[i].0, before[j].0) by {
                assert(s[i] == before[i] && s[j] == before[j]);
            }
        }
        lemma_arranged_already(before);
        let n = before.len() as int;
        if n > 0 {
            assert(text_le(s[n - 1].0, s[n].0));
            assert(before.last() == s[n - 1]);
        }
        assert(before.push(s.last()) =~= s);
    }
}

/// A parameter without a value, and a signature or its kind, change nothing of the signature.
pub proof fn law_empty_parameters_are_not_signed(
    s: Seq<(Seq<char>, Seq<char>)>,
    x: (Seq<char>, Seq<char>),
    pkey: Seq<char>,
)
    requires
        x.1.len() == 0 || x.0 == "sign"@ || x.0 == "sign_type"@,
    ensures
        easypay_sign(s.push(x), pkey) == easypay_sign(s, pkey),
{
    reveal(Seq::filter);
    let p = |q: (Seq<char>, Seq<char>)| is_signed(q);
    assert(s.push(x).drop_last() =~= s);
    assert(!p(s.push(x).last()));
}

/// The keys of parameters are put in the order of their first different character; of two keys
/// of which one begins the other, the shorter comes first.
pub proof fn law_keys_are_ordered_by_their_characters(a: Seq<char>, b: Seq<char>, n: int)
    requires
        0 <= n <= a.len(),
        n <= b.len(),
        a.take(n) == b.take(n),
        n == a.len() || n == b.len() || a[n] != b[n],
    ensures
        n == a.len() ==> text_le(a, b),
        n < a.len() && n == b.len() ==> !text_le(a, b),
        n < a.len() && n < b.len() ==> (text_le(a, b) <==> a[n] < b[n]),
    decreases n,
{
    if n > 0 {
        assert(a[0] == a.take(n)[0] && b[0] == b.take(n)[0]);
        let x = a.skip(1);
        let y = b.skip(1);
        assert(x.take(n - 1) =~= y.take(n - 1)) by {
            assert forall|i: int| 0 <= i < n - 1 implies x[i] == y[i] by {
                assert(a.take(n)[i + 1] == a[i + 1] && b.take(n)[i + 1] == b[i + 1]);
                assert(x[i] == a[i + 1] && y[i] == b[i + 1]);
            }
        }
        law_keys_are_ordered_by_their_characters(x, y, n - 1);
    }
}

/// A webhook is believed only where its header tells a time, no more than five minutes from
/// now, and carries the code of that time and the payload under the secret.
pub proof fn law_only_fresh_signatures_are_believed(
    secret: Seq<char>,
    payload: Seq<char>,
    header: Seq<char>,
    now: int,
)
    ensures
        ({
            let parts = text::pieces(header, ',');
            let time = header_time(parts);
            let code = |t: int|
                hash::hex(
                    hash::hmac_sha256(
                        encode_utf8(secret),
                        encode_utf8(text::decimal(t) + "."@ + payload),
                    ),
                );
            &&& stripe_verdict(secret, payload, header, now) == Ok::<bool, Seq<char>>(true)
                <==> time is Some && -300 <= now - time->0 <= 300 && header_signatures(
                parts,
            ).contains(code(time->0))
            &&& stripe_verdict(secret, payload, header, now) is Err <==> time is None
        }),
{
}

/// The signatures of a header are the values, not empty, of its parts `v1`; its time is the
/// number in its last part `t`.
pub proof fn law_headers_tell_their_signatures(
    parts: Seq<Seq<char>>,
    signature: Seq<char>,
    i: int,
)
    ensures
        header_signatures(parts).contains(signature) <==> signature.len() > 0 && exists|j: int|
            0 <= j < parts.len() && header_part(#[trigger] parts[j]) == ("v1"@, signature),
        0 <= i < parts.len() && header_part(parts[i]).0 == "t"@ && (forall|j: int|
            i < j < parts.len() ==> header_part(#[trigger] parts[j]).0 != "t"@) ==> header_time(
            parts,
        ) == text::i64_in(header_part(parts[i]).1),
        (forall|j: int| 0 <= j < parts.len() ==> header_part(#[trigger] parts[j]).0 != "t"@)
            ==> header_time(parts) is None,
    decreases parts.len(),
{
    if parts.len() > 0 {
        let before = parts.drop_last();
        let n = before.len() as int;
        assert(parts[n] == parts.last());
        law_headers_tell_their_signatures(before, signature, i);
        assert forall|j: int| 0 <= j < n implies #[trigger] before[j] == parts[j] by {}
        let a = header_signatures(before);
        let all = header_signatures(parts);
        if a.contains(signature) {
            let k = choose|k: int| 0 <= k < a.len() && a[k] == signature;
            assert(all[k] == signature);
            let j = choose|j: int|
                0 <= j < before.len() && header_part(#[trigger] before[j]) == ("v1"@, signature);
            assert(header_part(parts[j]) == ("v1"@, signature));
        }
        if all.contains(signature) && !a.contains(signature) {
            let k = choose|k: int| 0 <= k < all.len() && all[k] == signature;
            if k < a.len() {
                assert(a[k] == signature);
            }
            assert(header_part(parts[n]) == ("v1"@, signature));
        }
        if signature.len() > 0 && exists|j: int|
            0 <= j < parts.len() && header_part(#[trigger] parts[j]) == ("v1"@, signature) {
            let j = choose|j: int|
                0 <= j < parts.len() && header_part(#[trigger] parts[j]) == ("v1"@, signature);
            if j < n {
                assert(header_part(before[j]) == ("v1"@, signature));
            } else {
                assert(all[a.len() as int] == signature);
            }
        }
        if forall|j: int| 0 <= j < parts.len() ==> header_part(#[trigger] parts[j]).0 != "t"@ {
            assert(header_part(parts[n]).0 != "t"@);
            assert forall|j: int| 0 <= j < before.len() implies header_part(
                #[trigger] before[j],
            ).0 != "t"@ by {
                assert(header_part(parts[j]).0 != "t"@);
            }
        }
        if 0 <= i < n && header_part(parts[i]).0 == "t"@ && (forall|j: int|
            i < j < parts.len() ==> header_part(#[trigger] parts[j]).0 != "t"@) {
            assert(header_part(parts[n]).0 != "t"@);
            assert forall|j: int| i < j < before.len() implies header_part(
                #[trigger] before[j],
            ).0 != "t"@ by {
                assert(header_part(parts[j]).0 != "t"@);
            }
        }
    } else {
        assert(!header_signatures(parts).contains(signature));
    }
}

/// A token opens the status of an order only until the time that it names, and only where it
/// is signed, under a key derived from the administrator's token, for that order, the user and
/// the time that it names.
pub proof fn law_tokens_open_only_their_order(
    admin_token: Option<Seq<char>>,
    order_id: Seq<char>,
    token: Option<Seq<char>>,
    now_ms: int,
)
    requires
        token_opens(admin_token, order_id, token, now_ms),
    ensures
        ({
            let parts = text::pieces(text::trimmed(token->0), '.');
            let expires = text::i64_in(parts[0])->0;
            let user = text::i64_in(parts[1])->0;
            &&& admin_token is Some && token is Some
            &&& parts.len() == 3
            &&& text::i64_in(parts[0]) is Some && text::i64_in(parts[1]) is Some
            &&& now_ms <= expires && expires > 0 && user >= 0
            &&& parts[2] == hash::url_base64_text(
                hash::hmac_sha256(
                    hash::hmac_sha256(
                        encode_utf8(admin_token->0),
                        encode_utf8("order-status-access-key"@),
                    ),
                    encode_utf8(
                        "order-status-access:v2"@ + ":"@ + order_id + ":"@ + text::decimal(user)
                            + ":"@ + text::decimal(expires),
                    ),
                ),
            )
        }),
{
}

/// A webhook is believed exactly where its header tells a time within five minutes of now and a
/// signature of that time and the payload under one of the secrets.
pub proof fn law_webhooks_are_believed_by_their_signature(
    secrets: Vec<String>,
    payload: &str,
    header: &str,
    now: i64,
    r: Result<(), String>,
)
    requires
        call_ensures(verify_stripe_payload, (&secrets, payload, header, now), r),
    ensures
        ({
            let parts = text::pieces(header@, ',');
            let time = header_time(parts);
            r is Ok <==> exists|i: int|
                0 <= i < secrets@.len() && time is Some && -300 <= now - time->0 <= 300
                    && header_signatures(parts).contains(
                    hash::hex(
                        hash::hmac_sha256(
                            encode_utf8((#[trigger] secrets@[i])@),
                            encode_utf8(text::decimal(time->0) + "."@ + payload@),
                        ),
                    ),
                )
        }),
{
    let parts = text::pieces(header@, ',');
    let time = header_time(parts);
    let all = text::texts(secrets@);
    assert(all.len() == secrets@.len());
    assert forall|i: int| 0 <= i < secrets@.len() implies #[trigger] all[i] == secrets@[i]@ by {}
    assert forall|i: int| 0 <= i < secrets@.len() implies (stripe_verdict(
        #[trigger] all[i],
        payload@,
        header@,
        now as int,
    ) == Ok::<bool, Seq<char>>(true) <==> time is Some && -300 <= now - time->0 <= 300
        && header_signatures(parts).contains(
        hash::hex(
            hash::hmac_sha256(
                encode_utf8(secrets@[i]@),
                encode_utf8(text::decimal(time->0) + "."@ + payload@),
            ),
        ),
    )) by {
        law_only_fresh_signatures_are_believed(all[i], payload@, header@, now as int);
    }
    if any_secret_signs(all, payload@, header@, now as int) {
        let i = choose|i: int|
            0 <= i < all.len() && stripe_verdict(#[trigger] all[i], payload@, header@, now as int)
                == Ok::<bool, Seq<char>>(true);
        assert(secrets@[i]@ == all[i]);
    }
    assert forall|i: int|
        0 <= i < secrets@.len() && time is Some && -300 <= now - time->0 <= 300
            && header_signatures(parts).contains(
            hash::hex(
                hash::hmac_sha256(
                    encode_utf8((#[trigger] secrets@[i])@),
                    encode_utf8(text::decimal(time->0) + "."@ + payload@),
                ),
            ),
        ) implies any_secret_signs(all, payload@, header@, now as int) by {
        assert(all[i] == secrets@[i]@);
    }
}

/// A token that is made for an order opens that order until it expires.
pub proof fn law_made_tokens_open_their_order(
    admin_token: &str,
    order_id: &str,
    user_id: i64,
    expires_at_ms: i64,
    r: String,
    token: &str,
    now_ms: i64,
    opens: bool,
)
    requires
        call_ensures(
            build_order_status_signature,
            (admin_token, order_id, user_id, expires_at_ms),
            r,
        ),
        token@ == text::decimal(expires_at_ms as int) + seq!['.'] + text::decimal(user_id as int)
            + seq!['.'] + r@,
        call_ensures(
            verify_order_status_access_token,
            (Some(admin_token), order_id, Some(token), now_ms),
            opens,
        ),
        expires_at_ms > 0,
        user_id >= 0,
        now_ms <= expires_at_ms,
    ensures
        opens,
{
}


/// A webhook that is not believed is told of its missing time where it has none and there was a
/// secret to hold it against, and else of its signature.
pub proof fn law_refused_webhooks_are_told_why(
    secrets: Vec<String>,
    payload: &str,
    header: &str,
    now: i64,
    e: String,
)
    requires
        call_ensures(
            verify_stripe_payload,
            (&secrets, payload, header, now),
            Err::<(), String>(e),
        ),
    ensures
        secrets@.len() > 0 && header_time(text::pieces(header@, ',')) is None ==> e@
            == "Stripe signature header missing timestamp"@,
        secrets@.len() == 0 || header_time(text::pieces(header@, ',')) is Some ==> e@
            == "Stripe webhook signature verification failed"@,
{
    assert(text::texts(secrets@).len() == secrets@.len());
}

}
