//! Payment methods: which are on offer, within which limits, at what fee, and which
//! instance of a provider takes a payment.
use vstd::prelude::*;

use crate::clock;
use crate::crypto;
use crate::db;
use crate::db::SqlValue;
use crate::json;
use crate::json::{JsonData, JsonValue};
use crate::maps;
use crate::maps::TextMap;
use crate::order::status::OrderStatus;
use crate::provider_instances::ProviderInstanceRecord;
use crate::sub2api::Float64;
use crate::text;

verus! {

// ---------------------------------------------------------------------------
// Providers and payment types
// ---------------------------------------------------------------------------
/// The providers that can be used.
pub open spec fn enabled_provider(key: Seq<char>) -> bool {
    key == "easypay"@ || key == "stripe"@
}

pub fn provider_enabled_in_rust_mvp(provider_key: &str) -> (r: bool)
    ensures
        r == enabled_provider(provider_key@),
{
    text::same(provider_key, "easypay") || text::same(provider_key, "stripe")
}

/// The contents of a list of borrowed strings.
pub open spec fn str_texts(v: Seq<&'static str>) -> Seq<Seq<char>> {
    v.map_values(|s: &'static str| s@)
}

/// The payment types that a provider offers.
pub open spec fn types_of_provider(key: Seq<char>) -> Seq<Seq<char>> {
    if key == "easypay"@ {
        seq!["alipay"@, "wxpay"@]
    } else if key == "alipay"@ {
        seq!["alipay_direct"@]
    } else if key == "wxpay"@ {
        seq!["wxpay_direct"@]
    } else if key == "stripe"@ {
        seq!["stripe"@]
    } else {
        seq![]
    }
}

pub fn provider_supported_types(provider_key: &str) -> (r: Vec<&'static str>)
    ensures
        str_texts(r@) == types_of_provider(provider_key@),
{
    let r: Vec<&'static str> = if text::same(provider_key, "easypay") {
        vec!["alipay", "wxpay"]
    } else if text::same(provider_key, "alipay") {
        vec!["alipay_direct"]
    } else if text::same(provider_key, "wxpay") {
        vec!["wxpay_direct"]
    } else if text::same(provider_key, "stripe") {
        vec!["stripe"]
    } else {
        vec![]
    };
    assert(str_texts(r@) =~= types_of_provider(provider_key@));
    r
}

/// The texts in order, each only where it stands first.
pub open spec fn firsts(s: Seq<Seq<char>>) -> Seq<Seq<char>>
    decreases s.len(),
{
    if s.len() == 0 {
        s
    } else {
        let before = firsts(s.drop_last());
        if before.contains(s.last()) {
            before
        } else {
            before.push(s.last())
        }
    }
}

pub fn contains_text(v: &Vec<String>, s: &str) -> (r: bool)
    ensures
        r == text::texts(v@).contains(s@),
{
    let mut i: usize = 0;
    while i < v.len()
        invariant
            i <= v@.len(),
            forall|j: int| 0 <= j < i ==> #[trigger] text::texts(v@)[j] != s@,
        decreases v@.len() - i,
    {
        if text::same(v[i].as_str(), s) {
            assert(text::texts(v@)[i as int] == s@);
            return true;
        }
        i += 1;
    }
    assert(!text::texts(v@).contains(s@)) by {
        if text::texts(v@).contains(s@) {
            let j = choose|j: int| 0 <= j < text::texts(v@).len() && text::texts(v@)[j] == s@;
            assert(text::texts(v@)[j] != s@);
        }
    }
    false
}

fn push_new(v: &mut Vec<String>, s: &str)
    ensures
        text::texts(final(v)@) == if text::texts(old(v)@).contains(s@) {
            text::texts(old(v)@)
        } else {
            text::texts(old(v)@).push(s@)
        },
{
    if !contains_text(v, s) {
        let ghost before = text::texts(v@);
        v.push(s.to_owned());
        assert(text::texts(v@) =~= before.push(s@));
    }
}

/// The providers of a list that can be used, each once.
pub open spec fn usable_keys(keys: Seq<Seq<char>>) -> Seq<Seq<char>> {
    firsts(keys.filter(|k: Seq<char>| enabled_provider(k)))
}

/// The providers of a list that cannot be used, each once.
pub open spec fn unusable_keys(keys: Seq<Seq<char>>) -> Seq<Seq<char>> {
    firsts(keys.filter(|k: Seq<char>| !enabled_provider(k)))
}

pub fn filter_provider_keys_for_rust_mvp(provider_keys: &Vec<String>) -> (r: Vec<String>)
    ensures
        text::texts(r@) == usable_keys(text::texts(provider_keys@)),
{
    let ghost all = text::texts(provider_keys@);
    let ghost p = |k: Seq<char>| enabled_provider(k);
    let mut out: Vec<String> = Vec::new();
    let mut i: usize = 0;
    proof {
        reveal(Seq::filter);
        assert(text::texts(out@) =~= firsts(all.take(0).filter(p)));
    }
    while i < provider_keys.len()
        invariant
            i <= provider_keys@.len(),
            all == text::texts(provider_keys@),
            p == (|k: Seq<char>| enabled_provider(k)),
            text::texts(out@) == firsts(all.take(i as int).filter(p)),
        decreases provider_keys@.len() - i,
    {
        let key = provider_keys[i].as_str();
        proof {
            reveal(Seq::filter);
            assert(all.take(i + 1).drop_last() == all.take(i as int));
            assert(all.take(i + 1).last() == key@);
            let f = all.take(i as int).filter(p);
            assert(f.push(key@).drop_last() == f);
        }
        if provider_enabled_in_rust_mvp(key) {
            push_new(&mut out, key);
        }
        i += 1;
    }
    assert(all.take(i as int) == all);
    out
}

pub fn ignored_provider_keys_for_rust_mvp(provider_keys: &Vec<String>) -> (r: Vec<String>)
    ensures
        text::texts(r@) == unusable_keys(text::texts(provider_keys@)),
{
    let ghost all = text::texts(provider_keys@);
    let ghost p = |k: Seq<char>| !enabled_provider(k);
    let mut out: Vec<String> = Vec::new();
    let mut i: usize = 0;
    proof {
        reveal(Seq::filter);
        assert(text::texts(out@) =~= firsts(all.take(0).filter(p)));
    }
    while i < provider_keys.len()
        invariant
            i <= provider_keys@.len(),
            all == text::texts(provider_keys@),
            p == (|k: Seq<char>| !enabled_provider(k)),
            text::texts(out@) == firsts(all.take(i as int).filter(p)),
        decreases provider_keys@.len() - i,
    {
        let key = provider_keys[i].as_str();
        proof {
            reveal(Seq::filter);
            assert(all.take(i + 1).drop_last() == all.take(i as int));
            assert(all.take(i + 1).last() == key@);
            let f = all.take(i as int).filter(p);
            assert(f.push(key@).drop_last() == f);
        }
        if !provider_enabled_in_rust_mvp(key) {
            push_new(&mut out, key);
        }
        i += 1;
    }
    assert(all.take(i as int) == all);
    out
}

proof fn lemma_firsts(s: Seq<Seq<char>>)
    ensures
        forall|x: Seq<char>| #[trigger] firsts(s).contains(x) <==> s.contains(x),
        firsts(s).no_duplicates(),
        firsts(s).len() <= s.len(),
    decreases s.len(),
{
    if s.len() > 0 {
        let before = firsts(s.drop_last());
        lemma_firsts(s.drop_last());
        assert forall|x: Seq<char>| #[trigger] firsts(s).contains(x) <==> s.contains(x) by {
            if s.contains(x) {
                let i = choose|i: int| 0 <= i < s.len() && s[i] == x;
                if i < s.len() - 1 {
                    assert(s.drop_last()[i] == x);
                    assert(before.contains(x));
                    let j = choose|j: int| 0 <= j < before.len() && before[j] == x;
                    assert(firsts(s)[j] == x);
                } else {
                    assert(x == s.last());
                    if !before.contains(x) {
                        assert(firsts(s)[before.len() as int] == x);
                    }
                }
            }
            if firsts(s).contains(x) {
                let j = choose|j: int| 0 <= j < firsts(s).len() && firsts(s)[j] == x;
                if j < before.len() {
                    assert(before[j] == x);
                    assert(before.contains(x));
                    let i = choose|i: int|
                        0 <= i < s.drop_last().len() && s.drop_last()[i] == x;
                    assert(s[i] == x);
                } else {
                    assert(s[s.len() - 1] == x);
                }
            }
        }
    }
}

/// Each provider of a list can be used or not: it stands in exactly one of the two
/// lists, once.
pub proof fn law_provider_keys_are_split(keys: Seq<Seq<char>>, key: Seq<char>)
    ensures
        usable_keys(keys).contains(key) <==> keys.contains(key) && enabled_provider(key),
        unusable_keys(keys).contains(key) <==> keys.contains(key) && !enabled_provider(key),
        usable_keys(keys).no_duplicates(),
        unusable_keys(keys).no_duplicates(),
{
    let p = |k: Seq<char>| enabled_provider(k);
    let q = |k: Seq<char>| !enabled_provider(k);
    lemma_firsts(keys.filter(p));
    lemma_firsts(keys.filter(q));
    lemma_filter_contains(keys, p, key);
    lemma_filter_contains(keys, q, key);
    assert(firsts(keys.filter(p)).contains(key) <==> keys.filter(p).contains(key));
    assert(firsts(keys.filter(q)).contains(key) <==> keys.filter(q).contains(key));
}

proof fn lemma_filter_contains(s: Seq<Seq<char>>, p: spec_fn(Seq<char>) -> bool, x: Seq<char>)
    ensures
        s.filter(p).contains(x) <==> s.contains(x) && p(x),
    decreases s.len(),
{
    reveal(Seq::filter);
    if s.len() > 0 {
        let before = s.drop_last().filter(p);
        lemma_filter_contains(s.drop_last(), p, x);
        if s.contains(x) && p(x) {
            let i = choose|i: int| 0 <= i < s.len() && s[i] == x;
            if i < s.len() - 1 {
                assert(s.drop_last()[i] == x);
                let j = choose|j: int| 0 <= j < before.len() && before[j] == x;
                assert(s.filter(p)[j] == x);
            } else {
                assert(s.filter(p)[before.len() as int] == x);
            }
        }
        if s.filter(p).contains(x) {
            let j = choose|j: int| 0 <= j < s.filter(p).len() && s.filter(p)[j] == x;
            if j < before.len() {
                assert(before[j] == x);
                let i = choose|i: int| 0 <= i < s.drop_last().len() && s.drop_last()[i] == x;
                assert(s[i] == x);
            } else {
                assert(s[s.len() - 1] == x);
            }
        }
    }
}

/// Leaving unusable providers out of a list a second time changes nothing.
pub proof fn law_filtering_twice_is_filtering_once(keys: Seq<Seq<char>>)
    ensures
        usable_keys(usable_keys(keys)) == usable_keys(keys),
        unusable_keys(usable_keys(keys)).len() == 0,
{
    let usable = usable_keys(keys);
    let p = |k: Seq<char>| enabled_provider(k);
    let q = |k: Seq<char>| !enabled_provider(k);
    assert forall|i: int| 0 <= i < usable.len() implies enabled_provider(#[trigger] usable[i]) by {
        law_provider_keys_are_split(keys, usable[i]);
        assert(usable.contains(usable[i]));
    }
    law_provider_keys_are_split(keys, Seq::empty());
    lemma_filter_all_or_none(usable, p, q);
    lemma_firsts_of_distinct(usable);
}

proof fn lemma_filter_all_or_none(
    s: Seq<Seq<char>>,
    p: spec_fn(Seq<char>) -> bool,
    q: spec_fn(Seq<char>) -> bool,
)
    requires
        forall|i: int| 0 <= i < s.len() ==> p(#[trigger] s[i]) && !q(s[i]),
    ensures
        s.filter(p) == s,
        s.filter(q) == Seq::<Seq<char>>::empty(),
    decreases s.len(),
{
    reveal(Seq::filter);
    if s.len() > 0 {
        assert forall|i: int| 0 <= i < s.drop_last().len() implies p(#[trigger] s.drop_last()[i])
            && !q(s.drop_last()[i]) by {
            assert(p(s[i]));
        }
        lemma_filter_all_or_none(s.drop_last(), p, q);
        assert(p(s[s.len() - 1]));
        assert(s.drop_last().push(s.last()) =~= s);
    } else {
        assert(s =~= Seq::empty());
    }
}

proof fn lemma_firsts_of_distinct(s: Seq<Seq<char>>)
    requires
        s.no_duplicates(),
    ensures
        firsts(s) == s,
    decreases s.len(),
{
    if s.len() > 0 {
        let before = s.drop_last();
        assert(before.no_duplicates());
        lemma_firsts_of_distinct(before);
        if before.contains(s.last()) {
            let i = choose|i: int| 0 <= i < before.len() && before[i] == s.last();
            assert(s[i] == s[s.len() - 1]);
        }
        assert(before.push(s.last()) =~= s);
    }
}

/// The payment types of a list of providers, one provider after the other.
pub open spec fn types_of_providers(keys: Seq<Seq<char>>) -> Seq<Seq<char>>
    decreases keys.len(),
{
    if keys.len() == 0 {
        Seq::empty()
    } else {
        types_of_providers(keys.drop_last()) + types_of_provider(keys.last())
    }
}

/// The payment types that the usable providers of a list offer, each once.
pub open spec fn offered_types(keys: Seq<Seq<char>>) -> Seq<Seq<char>> {
    firsts(types_of_providers(usable_keys(keys)))
}

pub fn supported_types_for_provider_keys(provider_keys: &Vec<String>) -> (r: Vec<String>)
    ensures
        text::texts(r@) == offered_types(text::texts(provider_keys@)),
{
    let keys = filter_provider_keys_for_rust_mvp(provider_keys);
    let ghost all = text::texts(keys@);
    let mut out: Vec<String> = Vec::new();
    let mut i: usize = 0;
    assert(text::texts(out@) =~= firsts(types_of_providers(all.take(0))));
    while i < keys.len()
        invariant
            i <= keys@.len(),
            all == text::texts(keys@),
            text::texts(out@) == firsts(types_of_providers(all.take(i as int))),
        decreases keys@.len() - i,
    {
        let types = provider_supported_types(keys[i].as_str());
        let ghost done = types_of_providers(all.take(i as int));
        let ghost more = str_texts(types@);
        let mut j: usize = 0;
        assert(done + more.take(0) =~= done);
        while j < types.len()
            invariant
                j <= types@.len(),
                more == str_texts(types@),
                text::texts(out@) == firsts(done + more.take(j as int)),
            decreases types@.len() - j,
        {
            proof {
                let next = done + more.take(j + 1);
                assert(next.drop_last() =~= done + more.take(j as int));
                assert(next.last() == types@[j as int]@);
            }
            push_new(&mut out, types[j]);
            j += 1;
        }
        proof {
            assert(more.take(j as int) =~= more);
            assert(all.take(i + 1).drop_last() =~= all.take(i as int));
            assert(all.take(i + 1).last() == keys@[i as int]@);
        }
        i += 1;
    }
    assert(all.take(i as int) =~= all);
    out
}

/// Whatever providers are listed, the types on offer are among those of EasyPay and
/// Stripe: the direct types of the other providers are never offered.
pub proof fn law_direct_types_are_never_offered(keys: Seq<Seq<char>>, t: Seq<char>)
    requires
        offered_types(keys).contains(t),
    ensures
        t == "alipay"@ || t == "wxpay"@ || t == "stripe"@,
        offered_types(keys).no_duplicates(),
{
    let usable = usable_keys(keys);
    lemma_firsts(types_of_providers(usable));
    assert(types_of_providers(usable).contains(t));
    assert forall|i: int| 0 <= i < usable.len() implies enabled_provider(#[trigger] usable[i]) by {
        law_provider_keys_are_split(keys, usable[i]);
        assert(usable.contains(usable[i]));
    }
    lemma_types_of_enabled(usable, t);
}

proof fn lemma_types_of_enabled(keys: Seq<Seq<char>>, t: Seq<char>)
    requires
        forall|i: int| 0 <= i < keys.len() ==> enabled_provider(#[trigger] keys[i]),
        types_of_providers(keys).contains(t),
    ensures
        t == "alipay"@ || t == "wxpay"@ || t == "stripe"@,
    decreases keys.len(),
{
    if keys.len() > 0 {
        let before = types_of_providers(keys.drop_last());
        let last = types_of_provider(keys.last());
        reveal_strlit("easypay");
        reveal_strlit("stripe");
        reveal_strlit("alipay");
        reveal_strlit("wxpay");
        assert(enabled_provider(keys[keys.len() - 1]));
        let i = choose|i: int| 0 <= i < (before + last).len() && (before + last)[i] == t;
        if i < before.len() {
            assert(before[i] == t);
            assert(before.contains(t));
            assert forall|j: int| 0 <= j < keys.drop_last().len() implies enabled_provider(
                #[trigger] keys.drop_last()[j],
            ) by {
                assert(enabled_provider(keys[j]));
            }
            lemma_types_of_enabled(keys.drop_last(), t);
        } else {
            assert(last[i - before.len()] == t);
            assert("easypay"@.len() == 7 && "alipay"@.len() == 6 && "wxpay"@.len() == 5
                && "stripe"@.len() == 6);
            assert("alipay"@[0] == 'a' && "stripe"@[0] == 's');
            assert(keys.last() == "easypay"@ || keys.last() == "stripe"@);
        }
    }
}

/// The provider whose instances take payments of a type.
pub open spec fn key_for_type(t: Seq<char>) -> Option<Seq<char>> {
    if "alipay_direct"@.is_prefix_of(t) {
        Some("alipay"@)
    } else if t == "alipay"@ {
        Some("easypay"@)
    } else if "wxpay_direct"@.is_prefix_of(t) {
        Some("wxpay"@)
    } else if t == "wxpay"@ {
        Some("easypay"@)
    } else if "stripe"@.is_prefix_of(t) {
        Some("stripe"@)
    } else {
        None
    }
}

pub fn provider_key_for_type(payment_type: &str) -> (r: Option<&'static str>)
    ensures
        db::opt_str(r) == key_for_type(payment_type@),
{
    if text::starts_with(payment_type, "alipay_direct") {
        Some("alipay")
    } else if text::same(payment_type, "alipay") {
        Some("easypay")
    } else if text::starts_with(payment_type, "wxpay_direct") {
        Some("wxpay")
    } else if text::same(payment_type, "wxpay") {
        Some("easypay")
    } else if text::starts_with(payment_type, "stripe") {
        Some("stripe")
    } else {
        None
    }
}

/// The items of a comma-separated list, without white space and without empty ones.
pub open spec fn csv_items(s: Seq<char>) -> Seq<Seq<char>> {
    text::pieces(s, ',').map_values(|p: Seq<char>| text::trimmed(p)).filter(
        |p: Seq<char>| p.len() > 0,
    )
}

pub fn split_csv(value: &str) -> (r: Vec<String>)
    ensures
        text::texts(r@) == csv_items(value@),
{
    let parts = text::split(value, ',');
    let ghost all = text::pieces(value@, ',').map_values(|p: Seq<char>| text::trimmed(p));
    let ghost filled = |p: Seq<char>| p.len() > 0;
    let mut out: Vec<String> = Vec::new();
    let mut i: usize = 0;
    assert(text::texts(parts@).len() == parts@.len());
    proof {
        reveal(Seq::filter);
        assert(text::texts(out@) =~= all.take(0).filter(filled));
    }
    while i < parts.len()
        invariant
            i <= parts@.len() == all.len(),
            text::texts(parts@) == text::pieces(value@, ','),
            all == text::pieces(value@, ',').map_values(|p: Seq<char>| text::trimmed(p)),
            filled == (|p: Seq<char>| p.len() > 0),
            text::texts(out@) == all.take(i as int).filter(filled),
        decreases parts@.len() - i,
    {
        let part = text::trim(parts[i].as_str());
        proof {
            assert(text::texts(parts@)[i as int] == parts@[i as int]@);
            assert(all[i as int] == part@);
            reveal(Seq::filter);
            assert(all.take(i + 1).drop_last() =~= all.take(i as int));
            assert(all.take(i + 1).last() == part@);
        }
        if !part.is_empty() {
            let ghost before = text::texts(out@);
            out.push(part.to_owned());
            assert(text::texts(out@) =~= before.push(part@));
        }
        i += 1;
    }
    assert(all.take(i as int) =~= all);
    out
}

/// The types on offer that the setting names, or all where it names none.
pub open spec fn chosen_types(supported: Seq<Seq<char>>, configured: Option<Seq<char>>) -> Seq<
    Seq<char>,
> {
    match configured {
        None => supported,
        Some(c) => if csv_items(c).len() == 0 {
            supported
        } else {
            supported.filter(|t: Seq<char>| csv_items(c).contains(t))
        },
    }
}

pub fn copy_texts(v: &Vec<String>) -> (r: Vec<String>)
    ensures
        text::texts(r@) == text::texts(v@),
{
    let mut out: Vec<String> = Vec::new();
    let mut i: usize = 0;
    while i < v.len()
        invariant
            i <= v@.len(),
            text::texts(out@) == text::texts(v@).take(i as int),
        decreases v@.len() - i,
    {
        let ghost before = text::texts(out@);
        out.push(v[i].clone());
        assert(text::texts(out@) =~= before.push(v@[i as int]@));
        assert(text::texts(v@).take(i + 1) =~= before.push(v@[i as int]@));
        i += 1;
    }
    assert(text::texts(v@).take(i as int) =~= text::texts(v@));
    out
}

pub fn resolve_enabled_payment_types(
    supported_types: &Vec<String>,
    configured_types: Option<&str>,
) -> (r: Vec<String>)
    ensures
        text::texts(r@) == chosen_types(
            text::texts(supported_types@),
            db::opt_str(configured_types),
        ),
{
    let configured = match configured_types {
        None => {
            return copy_texts(supported_types);
        },
        Some(c) => split_csv(c),
    };
    let ghost named = text::texts(configured@);
    assert(named.len() == configured@.len());
    if configured.len() == 0 {
        return copy_texts(supported_types);
    }
    let ghost all = text::texts(supported_types@);
    let ghost p = |t: Seq<char>| named.contains(t);
    let mut out: Vec<String> = Vec::new();
    let mut i: usize = 0;
    proof {
        reveal(Seq::filter);
        assert(text::texts(out@) =~= all.take(0).filter(p));
    }
    while i < supported_types.len()
        invariant
            i <= supported_types@.len(),
            all == text::texts(supported_types@),
            named == text::texts(configured@),
            p == (|t: Seq<char>| named.contains(t)),
            text::texts(out@) == all.take(i as int).filter(p),
        decreases supported_types@.len() - i,
    {
        proof {
            reveal(Seq::filter);
            assert(all.take(i + 1).drop_last() =~= all.take(i as int));
            assert(all.take(i + 1).last() == supported_types@[i as int]@);
        }
        if contains_text(&configured, supported_types[i].as_str()) {
            let ghost before = text::texts(out@);
            out.push(supported_types[i].clone());
            assert(text::texts(out@) =~= before.push(supported_types@[i as int]@));
        }
        i += 1;
    }
    assert(all.take(i as int) =~= all);
    out
}

// ---------------------------------------------------------------------------
// Fees
// ---------------------------------------------------------------------------
/// Division towards zero.
pub open spec fn trunc_div(a: int, b: int) -> int {
    if a >= 0 {
        a / b
    } else {
        -((-a) / b)
    }
}

/// The fee on an amount at a rate in hundredths of a percent, rounded up.
pub open spec fn fee_cents(amount: int, bps: int) -> int {
    trunc_div(amount * bps + 9_999, 10_000)
}

/// What is to be paid for an amount: the amount and the fee on it.
pub open spec fn pay_amount(amount: int, bps: int) -> int {
    if bps <= 0 {
        amount
    } else {
        amount + fee_cents(amount, bps)
    }
}

/// What is to be paid can be counted, and so can every number on the way to it.
pub open spec fn pay_amount_fits(amount: int, bps: int) -> bool {
    bps > 0 ==> i64::MIN <= amount * bps && amount * bps + 9_999 <= i64::MAX && i64::MIN
        <= pay_amount(amount, bps) <= i64::MAX
}

pub fn calculate_pay_amount_cents(amount_cents: i64, fee_rate_bps: i64) -> (r: i64)
    requires
        pay_amount_fits(amount_cents as int, fee_rate_bps as int),
    ensures
        r == pay_amount(amount_cents as int, fee_rate_bps as int),
{
    if fee_rate_bps <= 0 {
        return amount_cents;
    }
    let product: i64 = amount_cents * fee_rate_bps + 9_999;
    let fee: i64 = if product >= 0 {
        product / 10_000
    } else {
        let magnitude: i128 = -(product as i128);
        (-(magnitude / 10_000)) as i64
    };
    amount_cents + fee
}

/// Whether what is to be paid can be counted.
pub fn check_pay_amount(amount_cents: i64, fee_rate_bps: i64) -> (r: bool)
    ensures
        r == pay_amount_fits(amount_cents as int, fee_rate_bps as int),
{
    if fee_rate_bps <= 0 {
        return true;
    }
    assert(-0x8000_0000_0000_0000 * 0x8000_0000_0000_0000 <= amount_cents * fee_rate_bps
        <= 0x8000_0000_0000_0000 * 0x8000_0000_0000_0000) by (nonlinear_arith)
        requires
            -0x8000_0000_0000_0000 <= amount_cents <= 0x7fff_ffff_ffff_ffff,
            0 <= fee_rate_bps <= 0x7fff_ffff_ffff_ffff,
    ;
    let product: i128 = (amount_cents as i128) * (fee_rate_bps as i128);
    if product < -9223372036854775808 || product + 9_999 > 9223372036854775807 {
        return false;
    }
    let numerator: i128 = product + 9_999;
    let fee: i128 = if numerator >= 0 {
        numerator / 10_000
    } else {
        -((-numerator) / 10_000)
    };
    let total: i128 = (amount_cents as i128) + fee;
    -9223372036854775808 <= total && total <= 9223372036854775807
}

/// The fee is the least whole number of cents that covers the rate; nothing is ever
/// paid below the amount, and a larger amount never costs less.
pub proof fn law_fee_is_rounded_up(amount: int, more: int, bps: int)
    requires
        0 <= amount <= more,
    ensures
        bps > 0 ==> fee_cents(amount, bps) * 10_000 >= amount * bps,
        bps > 0 ==> fee_cents(amount, bps) * 10_000 < amount * bps + 10_000,
        pay_amount(amount, bps) >= amount,
        pay_amount(amount, bps) <= pay_amount(more, bps),
        bps <= 0 ==> pay_amount(amount, bps) == amount,
{
    if bps > 0 {
        assert(0 <= amount * bps <= more * bps) by (nonlinear_arith)
            requires
                0 <= amount <= more,
                bps > 0,
        ;
    }
}

// ---------------------------------------------------------------------------
// Instances and their limits
// ---------------------------------------------------------------------------
/// The limits of an instance for one payment type, in cents; zero is no limit.
#[derive(Debug, Clone, Copy, PartialEq, Eq, Structural)]
pub struct ChannelLimits {
    pub single_min_cents: Option<i64>,
    pub single_max_cents: Option<i64>,
    pub daily_limit_cents: Option<i64>,
}

/// An instance of a provider that is switched on.
#[derive(Debug)]
pub struct ActiveInstance {
    pub id: String,
    pub provider_key: String,
    pub sort_order: i64,
    pub supported_types: Vec<String>,
    pub limits: TextMap<ChannelLimits>,
    pub encrypted_config: String,
}

/// The amount under a key, where it is a number of at least zero.
pub open spec fn amount_at(o: Map<Seq<char>, JsonValue>, key: Seq<char>) -> Option<i64> {
    if o.dom().contains(key) {
        match o[key].data {
            JsonData::Number { number } => number.cents,
            _ => None,
        }
    } else {
        None
    }
}

/// The limits that an object sets.
pub open spec fn limits_of_type(o: Map<Seq<char>, JsonValue>) -> ChannelLimits {
    ChannelLimits {
        single_min_cents: amount_at(o, "singleMin"@),
        single_max_cents: amount_at(o, "singleMax"@),
        daily_limit_cents: amount_at(o, "dailyLimit"@),
    }
}

/// The members of a value that are objects.
pub open spec fn objects_in(v: JsonValue) -> Map<Seq<char>, Map<Seq<char>, JsonValue>> {
    match v.data {
        JsonData::Object { members } => members@.map_values(
            |m: JsonValue| m.data->members@,
        ).restrict(Set::new(|k: Seq<char>| members@.dom().contains(k) && members@[k].data is Object)),
        _ => Map::empty(),
    }
}

/// The limits in the document of an instance: those of each payment type under which
/// stands an object.
pub open spec fn limits_in(v: JsonValue) -> Map<Seq<char>, ChannelLimits> {
    objects_in(v).map_values(|o: Map<Seq<char>, JsonValue>| limits_of_type(o))
}

/// The objects in a value have distinct keys.
pub open spec fn wf_within(v: JsonValue) -> bool {
    &&& v.wf()
    &&& v.data matches JsonData::Object { members } ==> forall|k: Seq<char>|
        #![trigger members@[k]]
        members@.dom().contains(k) ==> members@[k].wf()
}

fn find_amount(o: &TextMap<JsonValue>, key: &str) -> (r: Option<i64>)
    requires
        o.wf(),
    ensures
        r == amount_at(o@, key@),
{
    match o.get(key) {
        Some(v) => match &v.data {
            JsonData::Number { number } => number.cents,
            _ => None,
        },
        None => None,
    }
}

/// Reads the limits of an instance.
pub fn read_limits(v: &JsonValue) -> (r: TextMap<ChannelLimits>)
    requires
        wf_within(*v),
    ensures
        r.wf(),
        r@ == limits_in(*v),
{
    let mut out: TextMap<ChannelLimits> = TextMap::new();
    match &v.data {
        JsonData::Object { members } => {
            let ghost all = members.entries();
            let ghost limits = limits_in(*v);
            let mut i: usize = 0;
            while i < members.len()
                invariant
                    members.wf(),
                    wf_within(*v),
                    v.data == (JsonData::Object { members: *members }),
                    all == members.entries(),
                    limits == limits_in(*v),
                    i <= all.len(),
                    out.wf(),
                    forall|k: Seq<char>| #[trigger]
                        out@.dom().contains(k) ==> limits.dom().contains(k) && out@[k] == limits[k],
                    forall|j: int|
                        0 <= j < i && limits.dom().contains(#[trigger] all[j].0@)
                            ==> out@.dom().contains(all[j].0@),
                decreases all.len() - i,
            {
                let (child, value) = members.entry(i);
                assert(members@[child@].wf());
                match &value.data {
                    JsonData::Object { members: o } => {
                        let limit = ChannelLimits {
                            single_min_cents: find_amount(o, "singleMin"),
                            single_max_cents: find_amount(o, "singleMax"),
                            daily_limit_cents: find_amount(o, "dailyLimit"),
                        };
                        out.insert(child.to_owned(), limit);
                    },
                    _ => {},
                }
                i += 1;
            }
            assert forall|k: Seq<char>| limits.dom().contains(k) implies out@.dom().contains(k) by {
                members.lemma_keys(k);
            }
            assert(out@ =~= limits);
        },
        _ => {
            assert(out@ =~= limits_in(*v));
        },
    }
    out
}

/// A stored instance, with its limits as far as they are a JSON document.
#[derive(Debug)]
pub struct FoundInstance {
    pub record: ProviderInstanceRecord,
    pub limits: Option<JsonValue>,
}

impl FoundInstance {
    /// The objects in its limits have distinct keys.
    pub open spec fn wf(self) -> bool {
        self.limits matches Some(v) ==> wf_within(v)
    }
}

/// The limits of a stored instance.
pub open spec fn found_limits(limits: Option<JsonValue>) -> Map<Seq<char>, ChannelLimits> {
    match limits {
        Some(v) => limits_in(v),
        None => Map::empty(),
    }
}

/// An instance takes part in payments as it is stored.
pub open spec fn stands_for(r: ActiveInstance, found: FoundInstance) -> bool {
    &&& r.id@ == found.record.id@
    &&& r.provider_key@ == found.record.provider_key@
    &&& r.sort_order == found.record.sort_order
    &&& text::texts(r.supported_types@) == csv_items(found.record.supported_types@)
    &&& r.limits.wf()
    &&& r.limits@ == found_limits(found.limits)
    &&& r.encrypted_config@ == found.record.config@
}

/// An instance, as it takes part in payments.
pub fn active_instance(found: &FoundInstance) -> (r: ActiveInstance)
    requires
        found.wf(),
    ensures
        stands_for(r, *found),
{
    let limits = match &found.limits {
        Some(v) => read_limits(v),
        None => TextMap::new(),
    };
    ActiveInstance {
        id: found.record.id.clone(),
        provider_key: found.record.provider_key.clone(),
        sort_order: found.record.sort_order,
        supported_types: split_csv(found.record.supported_types.as_str()),
        limits,
        encrypted_config: found.record.config.clone(),
    }
}

pub open spec fn is_enabled() -> spec_fn(FoundInstance) -> bool {
    |f: FoundInstance| f.record.enabled
}

/// The instances that are switched on, in the order in which they are stored.
pub fn active_instances(found: &Vec<FoundInstance>) -> (r: Vec<ActiveInstance>)
    requires
        forall|i: int| 0 <= i < found@.len() ==> (#[trigger] found@[i]).wf(),
    ensures
        r@.len() == found@.filter(is_enabled()).len(),
        forall|i: int|
            0 <= i < r@.len() ==> stands_for(#[trigger] r@[i], found@.filter(is_enabled())[i]),
        all_wf(r@),
{
    let mut out: Vec<ActiveInstance> = Vec::new();
    let mut i: usize = 0;
    assert(found@.take(0).filter(is_enabled()) =~= Seq::<FoundInstance>::empty()) by {
        reveal(Seq::filter);
    }
    while i < found.len()
        invariant
            i <= found@.len(),
            forall|i: int| 0 <= i < found@.len() ==> (#[trigger] found@[i]).wf(),
            out@.len() == found@.take(i as int).filter(is_enabled()).len(),
            forall|j: int|
                0 <= j < out@.len() ==> stands_for(
                    #[trigger] out@[j],
                    found@.take(i as int).filter(is_enabled())[j],
                ),
        decreases found@.len() - i,
    {
        let ghost before = found@.take(i as int);
        let ghost after = found@.take(i + 1);
        proof {
            assert(after.drop_last() =~= before);
            assert(after.last() == found@[i as int]);
            reveal(Seq::filter);
        }
        if found[i].record.enabled {
            out.push(active_instance(&found[i]));
        }
        i += 1;
    }
    assert(found@.take(i as int) =~= found@);
    out
}

/// The limits in numbers: the least and the greatest single payment, and what can be
/// paid in a day.
#[derive(Debug, Clone, Copy, PartialEq, Eq, Structural)]
pub struct Limits {
    pub single_min: i64,
    pub single_max: i64,
    pub daily: i64,
}

pub open spec fn or_zero(n: Option<i64>) -> i64 {
    match n {
        Some(v) => v,
        None => 0,
    }
}

pub fn value_or_zero(n: Option<i64>) -> (r: i64)
    ensures
        r == or_zero(n),
{
    match n {
        Some(v) => v,
        None => 0,
    }
}

pub open spec fn limits_for(instance: ActiveInstance, t: Seq<char>) -> Limits {
    if instance.limits@.dom().contains(t) {
        let c = instance.limits@[t];
        Limits {
            single_min: or_zero(c.single_min_cents),
            single_max: or_zero(c.single_max_cents),
            daily: or_zero(c.daily_limit_cents),
        }
    } else {
        Limits { single_min: 0, single_max: 0, daily: 0 }
    }
}

fn find_limits(instance: &ActiveInstance, payment_type: &str) -> (r: Limits)
    requires
        instance.limits.wf(),
    ensures
        r == limits_for(*instance, payment_type@),
{
    match instance.limits.get(payment_type) {
        Some(c) => Limits {
            single_min: value_or_zero(c.single_min_cents),
            single_max: value_or_zero(c.single_max_cents),
            daily: value_or_zero(c.daily_limit_cents),
        },
        None => Limits { single_min: 0, single_max: 0, daily: 0 },
    }
}

/// An instance takes a payment type that it names, or any where it names none.
pub open spec fn supports_type(instance: ActiveInstance, t: Seq<char>) -> bool {
    instance.supported_types@.len() == 0 || text::texts(instance.supported_types@).contains(t)
}

pub fn instance_supports_type(instance: &ActiveInstance, payment_type: &str) -> (r: bool)
    ensures
        r == supports_type(*instance, payment_type@),
{
    instance.supported_types.len() == 0 || contains_text(&instance.supported_types, payment_type)
}

/// The instance is one of the provider for the payment type, and takes it.
pub open spec fn serves(instance: ActiveInstance, t: Seq<char>) -> bool {
    key_for_type(t) == Some(instance.provider_key@) && supports_type(instance, t)
}

pub fn instance_serves(instance: &ActiveInstance, payment_type: &str) -> (r: bool)
    ensures
        r == serves(*instance, payment_type@),
{
    match provider_key_for_type(payment_type) {
        Some(key) => text::same(instance.provider_key.as_str(), key) && instance_supports_type(
            instance,
            payment_type,
        ),
        None => false,
    }
}

/// What was paid through an instance, by its identifier.
pub open spec fn used_by(usage: Map<Seq<char>, i64>, id: Seq<char>) -> i64 {
    if usage.dom().contains(id) {
        usage[id]
    } else {
        0
    }
}

pub fn usage_of(usage: &TextMap<i64>, id: &str) -> (r: i64)
    requires
        usage.wf(),
    ensures
        r == used_by(usage@, id@),
{
    match usage.get(id) {
        Some(n) => *n,
        None => 0,
    }
}

/// A payment is within the limits, given what was paid that day.
pub open spec fn within_limits(l: Limits, pay: int, used: int) -> bool {
    &&& l.single_min > 0 ==> pay >= l.single_min
    &&& l.single_max > 0 ==> pay <= l.single_max
    &&& l.daily > 0 ==> used + pay <= l.daily
}

pub fn instance_accepts_amount(
    instance: &ActiveInstance,
    payment_type: &str,
    pay_amount_cents: i64,
    usage_by_instance: &TextMap<i64>,
) -> (r: bool)
    requires
        instance.limits.wf(),
        usage_by_instance.wf(),
    ensures
        r == within_limits(
            limits_for(*instance, payment_type@),
            pay_amount_cents as int,
            used_by(usage_by_instance@, instance.id@) as int,
        ),
{
    let l = find_limits(instance, payment_type);
    if l.single_min > 0 && pay_amount_cents < l.single_min {
        return false;
    }
    if l.single_max > 0 && pay_amount_cents > l.single_max {
        return false;
    }
    if l.daily > 0 {
        let used: i64 = usage_of(usage_by_instance, instance.id.as_str());
        if (used as i128) + (pay_amount_cents as i128) > (l.daily as i128) {
            return false;
        }
    }
    true
}

// ---------------------------------------------------------------------------
// Which instance takes a payment
// ---------------------------------------------------------------------------
/// The rate of a fee, and the same in basis points.
#[derive(Debug, Clone, Copy, PartialEq, Eq, Structural)]
pub struct FeeRate {
    pub rate: Float64,
    pub bps: i64,
}

#[derive(Debug)]
pub struct PaymentSelection {
    pub fee_rate: Float64,
    pub fee_rate_bps: i64,
    pub pay_amount_cents: i64,
    pub provider_instance_id: Option<String>,
}

impl PaymentSelection {
    pub open spec fn rate(&self) -> FeeRate {
        FeeRate { rate: self.fee_rate, bps: self.fee_rate_bps }
    }
}

pub open spec fn all_wf(instances: Seq<ActiveInstance>) -> bool {
    forall|i: int| 0 <= i < instances.len() ==> (#[trigger] instances[i]).limits.wf()
}

/// The instance at `i` serves the payment type and takes the payment.
pub open spec fn takes(
    instances: Seq<ActiveInstance>,
    i: int,
    t: Seq<char>,
    pay: int,
    usage: Map<Seq<char>, i64>,
) -> bool {
    &&& 0 <= i < instances.len()
    &&& serves(instances[i], t)
    &&& within_limits(limits_for(instances[i], t), pay, used_by(usage, instances[i].id@) as int)
}

/// The instance at `i` is the first in line of those that take the payment: it has the
/// least sort order, and among equals it stands first.
pub open spec fn first_in_line(
    instances: Seq<ActiveInstance>,
    i: int,
    t: Seq<char>,
    pay: int,
    usage: Map<Seq<char>, i64>,
) -> bool {
    &&& takes(instances, i, t, pay, usage)
    &&& forall|j: int| #[trigger]
        takes(instances, j, t, pay, usage) ==> instances[i].sort_order < instances[j].sort_order
            || (instances[i].sort_order == instances[j].sort_order && i <= j)
}

fn find_first_in_line(
    instances: &Vec<ActiveInstance>,
    payment_type: &str,
    pay_amount_cents: i64,
    usage: &TextMap<i64>,
) -> (r: Option<usize>)
    requires
        all_wf(instances@),
        usage.wf(),
    ensures
        match r {
            Some(i) => first_in_line(
                instances@,
                i as int,
                payment_type@,
                pay_amount_cents as int,
                usage@,
            ),
            None => forall|j: int|
                !#[trigger] takes(
                    instances@,
                    j,
                    payment_type@,
                    pay_amount_cents as int,
                    usage@,
                ),
        },
{
    let mut best: Option<usize> = None;
    let mut i: usize = 0;
    while i < instances.len()
        invariant
            i <= instances@.len(),
            all_wf(instances@),
            usage.wf(),
            match best {
                Some(b) => b < i && takes(
                    instances@,
                    b as int,
                    payment_type@,
                    pay_amount_cents as int,
                    usage@,
                ) && forall|j: int|
                    j < i && #[trigger] takes(
                        instances@,
                        j,
                        payment_type@,
                        pay_amount_cents as int,
                        usage@,
                    ) ==> instances@[b as int].sort_order < instances@[j].sort_order || (
                    instances@[b as int].sort_order == instances@[j].sort_order && b <= j),
                None => forall|j: int|
                    j < i ==> !#[trigger] takes(
                        instances@,
                        j,
                        payment_type@,
                        pay_amount_cents as int,
                        usage@,
                    ),
            },
        decreases instances@.len() - i,
    {
        let taken = instance_serves(&instances[i], payment_type) && instance_accepts_amount(
            &instances[i],
            payment_type,
            pay_amount_cents,
            usage,
        );
        assert(taken == takes(
            instances@,
            i as int,
            payment_type@,
            pay_amount_cents as int,
            usage@,
        ));
        if taken {
            let better = match best {
                Some(b) => instances[i].sort_order < instances[b].sort_order,
                None => true,
            };
            if better {
                best = Some(i);
            }
        }
        i += 1;
    }
    best
}

fn any_serves(instances: &Vec<ActiveInstance>, payment_type: &str) -> (r: bool)
    ensures
        r == exists|j: int| 0 <= j < instances@.len() && serves(
            #[trigger] instances@[j],
            payment_type@,
        ),
{
    let mut i: usize = 0;
    while i < instances.len()
        invariant
            i <= instances@.len(),
            forall|j: int| 0 <= j < i ==> !serves(#[trigger] instances@[j], payment_type@),
        decreases instances@.len() - i,
    {
        if instance_serves(&instances[i], payment_type) {
            return true;
        }
        i += 1;
    }
    false
}

/// What is selected for a payment: the instance that is first in line, or none where no
/// instance serves the type.
pub open spec fn selected(
    r: Result<PaymentSelection, String>,
    t: Seq<char>,
    amount_cents: i64,
    rate: FeeRate,
    instances: Seq<ActiveInstance>,
    usage: Map<Seq<char>, i64>,
) -> bool {
    let pay = pay_amount(amount_cents as int, rate.bps as int);
    let served = exists|j: int|
        0 <= j < instances.len() && serves(#[trigger] instances[j], t);
    match r {
        Ok(s) => {
            &&& amount_cents > 0
            &&& s.fee_rate_bps == rate.bps
            &&& s.pay_amount_cents == pay
            &&& s.provider_instance_id is None ==> !served
            &&& s.provider_instance_id matches Some(id) ==> exists|i: int| #[trigger]
                first_in_line(instances, i, t, pay, usage) && id@ == instances[i].id@
        },
        Err(_) => amount_cents > 0 ==> served && forall|j: int|
            !#[trigger] takes(instances, j, t, pay, usage),
    }
}

/// Settles a payment: what is to be paid, and through which instance. Where no instance
/// serves the payment type none is named; where those that do all refuse the amount, the
/// payment cannot be made.
pub fn select_payment(
    payment_type: &str,
    amount_cents: i64,
    rate: FeeRate,
    instances: &Vec<ActiveInstance>,
    usage_by_instance: &TextMap<i64>,
) -> (r: Result<PaymentSelection, String>)
    requires
        all_wf(instances@),
        usage_by_instance.wf(),
        amount_cents > 0 ==> pay_amount_fits(amount_cents as int, rate.bps as int),
    ensures
        amount_cents <= 0 ==> (r matches Err(e) && e@ == "amount must be positive"@),
        amount_cents > 0 ==> ({
            let pay = pay_amount(amount_cents as int, rate.bps as int);
            let served = exists|j: int|
                0 <= j < instances@.len() && serves(#[trigger] instances@[j], payment_type@);
            match r {
                Ok(s) => {
                    &&& s.rate() == rate
                    &&& s.pay_amount_cents == pay
                    &&& match s.provider_instance_id {
                        None => !served,
                        Some(id) => exists|i: int|
                            #[trigger] first_in_line(
                                instances@,
                                i,
                                payment_type@,
                                pay,
                                usage_by_instance@,
                            ) && id@ == instances@[i].id@,
                    }
                },
                Err(e) => {
                    &&& served
                    &&& forall|j: int|
                        !#[trigger] takes(instances@, j, payment_type@, pay, usage_by_instance@)
                    &&& e@ == "no available payment instance for "@ + payment_type@
                },
            }
        }),
        selected(r, payment_type@, amount_cents, rate, instances@, usage_by_instance@),
{
    if amount_cents <= 0 {
        return Err("amount must be positive".to_owned());
    }
    let pay_amount_cents: i64 = calculate_pay_amount_cents(amount_cents, rate.bps);
    if !any_serves(instances, payment_type) {
        return Ok(
            PaymentSelection {
                fee_rate: rate.rate,
                fee_rate_bps: rate.bps,
                pay_amount_cents,
                provider_instance_id: None,
            },
        );
    }
    match find_first_in_line(instances, payment_type, pay_amount_cents, usage_by_instance) {
        Some(i) => Ok(
            PaymentSelection {
                fee_rate: rate.rate,
                fee_rate_bps: rate.bps,
                pay_amount_cents,
                provider_instance_id: Some(instances[i].id.clone()),
            },
        ),
        None => {
            let mut e = "no available payment instance for ".to_owned();
            e.append(payment_type);
            Err(e)
        },
    }
}

/// There is at most one instance first in line.
pub proof fn law_selection_is_unique(
    instances: Seq<ActiveInstance>,
    i: int,
    j: int,
    t: Seq<char>,
    pay: int,
    usage: Map<Seq<char>, i64>,
)
    requires
        first_in_line(instances, i, t, pay, usage),
        first_in_line(instances, j, t, pay, usage),
    ensures
        i == j,
{
}

// ---------------------------------------------------------------------------
// The limits of a payment type over all its instances
// ---------------------------------------------------------------------------
/// What the instances of a payment type allow together.
#[derive(Debug, Clone, Copy, PartialEq, Eq, Structural)]
pub struct InstanceAggregate {
    pub single_min_cents: i64,
    pub single_max_cents: i64,
    pub all_instances_daily_blocked: bool,
    pub max_remaining_capacity_cents: Option<i64>,
    pub has_instances: bool,
}

/// What is left of a daily limit, as far as it can be counted.
pub open spec fn left_of(daily: int, used: int) -> int {
    if daily - used < 0 {
        0
    } else if daily - used > i64::MAX {
        i64::MAX as int
    } else {
        daily - used
    }
}

fn find_left(daily: i64, used: i64) -> (r: i64)
    ensures
        r == left_of(daily as int, used as int),
{
    let left: i128 = (daily as i128) - (used as i128);
    if left < 0 {
        0
    } else if left > 9223372036854775807 {
        9223372036854775807
    } else {
        left as i64
    }
}

pub open spec fn at_least_zero(n: int) -> int {
    if n < 0 {
        0
    } else {
        n
    }
}

/// The instance can take no payment any more that day.
pub open spec fn day_is_spent(l: Limits, used: int) -> bool {
    l.daily > 0 && left_of(l.daily as int, used) <= at_least_zero(l.single_min as int)
}

/// What is known before any instance is looked at.
pub open spec fn nothing_seen() -> InstanceAggregate {
    InstanceAggregate {
        single_min_cents: i64::MAX,
        single_max_cents: 0,
        all_instances_daily_blocked: true,
        max_remaining_capacity_cents: None,
        has_instances: false,
    }
}

/// What is known after one more instance: the least of the minimums; the greatest of the
/// maximums since the last instance without one; whether every instance is spent; and
/// the most that is left of a daily limit since the last instance without one.
pub open spec fn after_instance(a: InstanceAggregate, l: Limits, used: int) -> InstanceAggregate {
    InstanceAggregate {
        single_min_cents: if l.single_min == 0 {
            0
        } else if l.single_min < a.single_min_cents {
            l.single_min
        } else {
            a.single_min_cents
        },
        single_max_cents: if l.single_max == 0 {
            0
        } else if a.single_max_cents != 0 && a.single_max_cents > l.single_max {
            a.single_max_cents
        } else {
            l.single_max
        },
        all_instances_daily_blocked: a.all_instances_daily_blocked && day_is_spent(l, used),
        max_remaining_capacity_cents: if l.daily <= 0 {
            None
        } else if day_is_spent(l, used) {
            a.max_remaining_capacity_cents
        } else {
            let left = left_of(l.daily as int, used) as i64;
            match a.max_remaining_capacity_cents {
                Some(current) => if current > left {
                    Some(current)
                } else {
                    Some(left)
                },
                None => Some(left),
            }
        },
        has_instances: true,
    }
}

/// What the instances that serve a payment type allow together, one after the other.
pub open spec fn seen(
    instances: Seq<ActiveInstance>,
    t: Seq<char>,
    usage: Map<Seq<char>, i64>,
) -> InstanceAggregate
    decreases instances.len(),
{
    if instances.len() == 0 {
        nothing_seen()
    } else {
        let before = seen(instances.drop_last(), t, usage);
        let last = instances.last();
        if serves(last, t) {
            after_instance(before, limits_for(last, t), used_by(usage, last.id@) as int)
        } else {
            before
        }
    }
}

/// What the instances of a payment type allow together; without any, there is no limit.
pub open spec fn aggregate(
    instances: Seq<ActiveInstance>,
    t: Seq<char>,
    usage: Map<Seq<char>, i64>,
) -> InstanceAggregate {
    let a = seen(instances, t, usage);
    if !a.has_instances {
        InstanceAggregate {
            single_min_cents: 0,
            single_max_cents: 0,
            all_instances_daily_blocked: false,
            max_remaining_capacity_cents: None,
            has_instances: false,
        }
    } else if a.single_min_cents == i64::MAX {
        InstanceAggregate { single_min_cents: 0, ..a }
    } else {
        a
    }
}

pub fn aggregate_instance_limits(
    payment_type: &str,
    active_instances: &Vec<ActiveInstance>,
    usage_by_instance: &TextMap<i64>,
) -> (r: InstanceAggregate)
    requires
        all_wf(active_instances@),
        usage_by_instance.wf(),
    ensures
        r == aggregate(active_instances@, payment_type@, usage_by_instance@),
{
    let mut single_min: i64 = i64::MAX;
    let mut single_max: i64 = 0;
    let mut all_blocked: bool = true;
    let mut max_remaining: Option<i64> = None;
    let mut has_instances: bool = false;
    let mut i: usize = 0;
    while i < active_instances.len()
        invariant
            i <= active_instances@.len(),
            all_wf(active_instances@),
            usage_by_instance.wf(),
            seen(active_instances@.take(i as int), payment_type@, usage_by_instance@) == (
            InstanceAggregate {
                single_min_cents: single_min,
                single_max_cents: single_max,
                all_instances_daily_blocked: all_blocked,
                max_remaining_capacity_cents: max_remaining,
                has_instances,
            }),
        decreases active_instances@.len() - i,
    {
        proof {
            assert(active_instances@.take(i + 1).drop_last() =~= active_instances@.take(i as int));
            assert(active_instances@.take(i + 1).last() == active_instances@[i as int]);
        }
        let instance = &active_instances[i];
        if instance_serves(instance, payment_type) {
            let l = find_limits(instance, payment_type);
            has_instances = true;
            if l.single_min == 0 {
                single_min = 0;
            } else if l.single_min < single_min {
                single_min = l.single_min;
            }
            if l.single_max == 0 {
                single_max = 0;
            } else if single_max == 0 || single_max < l.single_max {
                single_max = l.single_max;
            }
            if l.daily <= 0 {
                all_blocked = false;
                max_remaining = None;
            } else {
                let used: i64 = usage_of(usage_by_instance, instance.id.as_str());
                let left: i64 = find_left(l.daily, used);
                let floor: i64 = if l.single_min > 0 {
                    l.single_min
                } else {
                    0
                };
                if left > floor {
                    all_blocked = false;
                    max_remaining = match max_remaining {
                        Some(current) => {
                            if current > left {
                                Some(current)
                            } else {
                                Some(left)
                            }
                        },
                        None => Some(left),
                    };
                }
            }
        }
        i += 1;
    }
    assert(active_instances@.take(i as int) =~= active_instances@);
    if !has_instances {
        return InstanceAggregate {
            single_min_cents: 0,
            single_max_cents: 0,
            all_instances_daily_blocked: false,
            max_remaining_capacity_cents: None,
            has_instances: false,
        };
    }
    InstanceAggregate {
        single_min_cents: if single_min == i64::MAX {
            0
        } else {
            single_min
        },
        single_max_cents: single_max,
        all_instances_daily_blocked: all_blocked,
        max_remaining_capacity_cents: max_remaining,
        has_instances: true,
    }
}

/// The instances of a payment type are blocked together exactly where there are some
/// and each of them is spent; and no instance asks for less than the least payment that
/// they ask for together.
pub proof fn law_aggregate_covers_all_instances(
    instances: Seq<ActiveInstance>,
    t: Seq<char>,
    usage: Map<Seq<char>, i64>,
)
    ensures
        aggregate(instances, t, usage).has_instances <==> exists|i: int|
            0 <= i < instances.len() && serves(#[trigger] instances[i], t),
        aggregate(instances, t, usage).all_instances_daily_blocked <==> (aggregate(
            instances,
            t,
            usage,
        ).has_instances && forall|i: int|
            0 <= i < instances.len() && serves(#[trigger] instances[i], t) ==> day_is_spent(
                limits_for(instances[i], t),
                used_by(usage, instances[i].id@) as int,
            )),
        (forall|i: int|
            0 <= i < instances.len() ==> limits_for(#[trigger] instances[i], t).single_min >= 0)
            ==> forall|i: int|
            0 <= i < instances.len() && serves(#[trigger] instances[i], t) ==> 0 <= aggregate(
                instances,
                t,
                usage,
            ).single_min_cents <= limits_for(instances[i], t).single_min,
{
    lemma_seen(instances, t, usage);
}

proof fn lemma_seen(instances: Seq<ActiveInstance>, t: Seq<char>, usage: Map<Seq<char>, i64>)
    ensures
        seen(instances, t, usage).has_instances <==> exists|i: int|
            0 <= i < instances.len() && serves(#[trigger] instances[i], t),
        seen(instances, t, usage).all_instances_daily_blocked <==> forall|i: int|
            0 <= i < instances.len() && serves(#[trigger] instances[i], t) ==> day_is_spent(
                limits_for(instances[i], t),
                used_by(usage, instances[i].id@) as int,
            ),
        (forall|i: int|
            0 <= i < instances.len() ==> limits_for(#[trigger] instances[i], t).single_min >= 0)
            ==> 0 <= seen(instances, t, usage).single_min_cents && forall|i: int|
            0 <= i < instances.len() && serves(#[trigger] instances[i], t) ==> seen(
                instances,
                t,
                usage,
            ).single_min_cents <= limits_for(instances[i], t).single_min,
    decreases instances.len(),
{
    if instances.len() > 0 {
        let before = instances.drop_last();
        let last = instances.last();
        lemma_seen(before, t, usage);
        assert(instances[instances.len() - 1] == last);
        assert forall|i: int| 0 <= i < before.len() implies #[trigger] before[i]
            == instances[i] by {}
        if seen(before, t, usage).has_instances {
            let i = choose|i: int| 0 <= i < before.len() && serves(#[trigger] before[i], t);
            assert(serves(instances[i], t));
        }
        if exists|i: int| 0 <= i < instances.len() && serves(#[trigger] instances[i], t) {
            let i = choose|i: int| 0 <= i < instances.len() && serves(#[trigger] instances[i], t);
            if i < before.len() {
                assert(serves(before[i], t));
            }
        }
        if seen(instances, t, usage).all_instances_daily_blocked {
            assert forall|i: int|
                0 <= i < instances.len() && serves(#[trigger] instances[i], t) implies day_is_spent(
                limits_for(instances[i], t),
                used_by(usage, instances[i].id@) as int,
            ) by {
                if i < before.len() {
                    assert(serves(before[i], t));
                }
            }
        }
        if forall|i: int|
            0 <= i < instances.len() && serves(#[trigger] instances[i], t) ==> day_is_spent(
                limits_for(instances[i], t),
                used_by(usage, instances[i].id@) as int,
            ) {
            assert forall|i: int|
                0 <= i < before.len() && serves(#[trigger] before[i], t) implies day_is_spent(
                limits_for(before[i], t),
                used_by(usage, before[i].id@) as int,
            ) by {
                assert(serves(instances[i], t));
            }
        }
        if forall|i: int|
            0 <= i < instances.len() ==> limits_for(#[trigger] instances[i], t).single_min >= 0 {
            assert forall|i: int| 0 <= i < before.len() implies limits_for(
                #[trigger] before[i],
                t,
            ).single_min >= 0 by {
                assert(limits_for(instances[i], t).single_min >= 0);
            }
            assert(limits_for(instances[instances.len() - 1], t).single_min >= 0);
            assert forall|i: int|
                0 <= i < instances.len() && serves(#[trigger] instances[i], t) implies seen(
                instances,
                t,
                usage,
            ).single_min_cents <= limits_for(instances[i], t).single_min by {
                if i < before.len() {
                    assert(serves(before[i], t));
                }
            }
        }
    }
}

// ---------------------------------------------------------------------------
// The limits of a payment type
// ---------------------------------------------------------------------------
/// The limits that hold where the settings have none.
#[derive(Debug, Clone, Copy, PartialEq, Eq, Structural)]
pub struct MethodDefaultLimits {
    pub single_max_cents: i64,
    pub daily_max_cents: i64,
}

pub open spec fn default_limits(t: Seq<char>) -> MethodDefaultLimits {
    if t == "alipay"@ || t == "wxpay"@ || t == "alipay_direct"@ || t == "wxpay_direct"@ {
        MethodDefaultLimits { single_max_cents: 100_000, daily_max_cents: 1_000_000 }
    } else {
        MethodDefaultLimits { single_max_cents: 0, daily_max_cents: 0 }
    }
}

pub fn provider_default_limit(payment_type: &str) -> (r: MethodDefaultLimits)
    ensures
        r == default_limits(payment_type@),
{
    if text::same(payment_type, "alipay") || text::same(payment_type, "wxpay") || text::same(
        payment_type,
        "alipay_direct",
    ) || text::same(payment_type, "wxpay_direct") {
        MethodDefaultLimits { single_max_cents: 100_000, daily_max_cents: 1_000_000 }
    } else {
        MethodDefaultLimits { single_max_cents: 0, daily_max_cents: 0 }
    }
}

/// The setting's own limit counts first; where the settings override the environment
/// there is none besides; else the default counts.
pub open spec fn limit_in_force(setting: Option<i64>, override_enabled: bool, default: i64) -> i64 {
    match setting {
        Some(c) => c,
        None => if override_enabled {
            0
        } else {
            default
        },
    }
}

pub fn method_daily_limit(payment_type: &str, setting: Option<i64>, override_enabled: bool) -> (r:
    i64)
    ensures
        r == limit_in_force(
            setting,
            override_enabled,
            default_limits(payment_type@).daily_max_cents,
        ),
{
    match setting {
        Some(c) => c,
        None => {
            if override_enabled {
                0
            } else {
                provider_default_limit(payment_type).daily_max_cents
            }
        },
    }
}

pub fn method_single_limit(
    payment_type: &str,
    setting: Option<i64>,
    override_enabled: bool,
) -> (r: i64)
    ensures
        r == limit_in_force(
            setting,
            override_enabled,
            default_limits(payment_type@).single_max_cents,
        ),
{
    match setting {
        Some(c) => c,
        None => {
            if override_enabled {
                0
            } else {
                provider_default_limit(payment_type).single_max_cents
            }
        },
    }
}

fn key_of_type(prefix: &str, payment_type: &str) -> (r: String)
    ensures
        r@ == prefix@ + text::uppered(payment_type@),
{
    let mut key = prefix.to_owned();
    key.append(text::to_ascii_uppercase(payment_type).as_str());
    key
}

/// The setting that holds the daily limit of a payment type.
pub fn daily_limit_key(payment_type: &str) -> (r: String)
    ensures
        r@ == "MAX_DAILY_AMOUNT_"@ + text::uppered(payment_type@),
{
    key_of_type("MAX_DAILY_AMOUNT_", payment_type)
}

/// The setting that holds the greatest single payment of a payment type.
pub fn single_limit_key(payment_type: &str) -> (r: String)
    ensures
        r@ == "MAX_SINGLE_AMOUNT_"@ + text::uppered(payment_type@),
{
    key_of_type("MAX_SINGLE_AMOUNT_", payment_type)
}

/// The variables that hold the fee rate of a payment type, in the order in which they
/// count: its own, and that of its provider.
pub fn fee_rate_keys(payment_type: &str) -> (r: (String, Option<String>))
    ensures
        r.0@ == "FEE_RATE_"@ + text::uppered(payment_type@),
        db::opt_text(r.1) == match key_for_type(payment_type@) {
            Some(k) => Some("FEE_RATE_PROVIDER_"@ + text::uppered(k)),
            None => None,
        },
{
    let provider = match provider_key_for_type(payment_type) {
        Some(key) => Some(key_of_type("FEE_RATE_PROVIDER_", key)),
        None => None,
    };
    (key_of_type("FEE_RATE_", payment_type), provider)
}

/// The limits of a payment type as they stand, in cents.
#[derive(Debug, Clone, Copy, PartialEq, Eq, Structural)]
pub struct MethodLimit {
    pub daily_limit_cents: i64,
    pub used_cents: i64,
    pub remaining_cents: Option<i64>,
    pub available: bool,
    pub single_min_cents: i64,
    pub single_max_cents: i64,
}

/// A limit narrowed by another, where zero is none.
pub open spec fn narrowed(limit: i64, by: i64) -> i64 {
    if limit > 0 && limit < by {
        limit
    } else {
        by
    }
}

fn narrow(limit: i64, by: i64) -> (r: i64)
    ensures
        r == narrowed(limit, by),
{
    if limit > 0 && limit < by {
        limit
    } else {
        by
    }
}

pub open spec fn remaining_of(daily: i64, used: i64) -> Option<i64> {
    if daily > 0 {
        Some(left_of(daily as int, used as int) as i64)
    } else {
        None
    }
}

/// The greatest single payment: what the settings, the instances, and what is left of
/// the day allow.
pub open spec fn effective_single_max(
    global: i64,
    a: InstanceAggregate,
    remaining: Option<i64>,
) -> i64 {
    let by_instances = if a.has_instances && a.single_max_cents > 0 {
        narrowed(global, a.single_max_cents)
    } else {
        global
    };
    let by_capacity = match a.max_remaining_capacity_cents {
        Some(c) => narrowed(by_instances, c),
        None => by_instances,
    };
    match remaining {
        Some(c) => narrowed(by_capacity, c),
        None => by_capacity,
    }
}

pub open spec fn limit_status(
    daily: i64,
    single: i64,
    used: i64,
    a: InstanceAggregate,
) -> MethodLimit {
    let remaining = remaining_of(daily, used);
    let single_max = effective_single_max(single, a, remaining);
    MethodLimit {
        daily_limit_cents: daily,
        used_cents: used,
        remaining_cents: remaining,
        available: (daily == 0 || used < daily) && (!a.has_instances
            || !a.all_instances_daily_blocked) && (a.single_min_cents == 0 || single_max
            >= a.single_min_cents),
        single_min_cents: a.single_min_cents,
        single_max_cents: single_max,
    }
}

pub fn method_limit_status(daily: i64, single: i64, used: i64, a: InstanceAggregate) -> (r:
    MethodLimit)
    ensures
        r == limit_status(daily, single, used, a),
{
    let remaining: Option<i64> = if daily > 0 {
        Some(find_left(daily, used))
    } else {
        None
    };
    let mut single_max: i64 = single;
    if a.has_instances && a.single_max_cents > 0 {
        single_max = narrow(single_max, a.single_max_cents);
    }
    if let Some(c) = a.max_remaining_capacity_cents {
        single_max = narrow(single_max, c);
    }
    if let Some(c) = remaining {
        single_max = narrow(single_max, c);
    }
    MethodLimit {
        daily_limit_cents: daily,
        used_cents: used,
        remaining_cents: remaining,
        available: (daily == 0 || used < daily) && (!a.has_instances
            || !a.all_instances_daily_blocked) && (a.single_min_cents == 0 || single_max
            >= a.single_min_cents),
        single_min_cents: a.single_min_cents,
        single_max_cents: single_max,
    }
}

/// Under a daily limit, no single payment is offered that exceeds what is left of it,
/// and a payment type on which nothing is left is not on offer.
pub proof fn law_daily_limit_is_kept(daily: i64, single: i64, used: i64, a: InstanceAggregate)
    requires
        daily > 0,
    ensures
        limit_status(daily, single, used, a).remaining_cents is Some,
        limit_status(daily, single, used, a).single_max_cents <= limit_status(
            daily,
            single,
            used,
            a,
        ).remaining_cents->0,
        used >= daily ==> !limit_status(daily, single, used, a).available,
        limit_status(daily, single, used, a).available ==> limit_status(
            daily,
            single,
            used,
            a,
        ).remaining_cents->0 > 0,
{
}

/// What the settings and the day's payments say of a payment type.
pub struct MethodFacts {
    pub payment_type: String,
    pub daily_setting_cents: Option<i64>,
    pub single_setting_cents: Option<i64>,
    pub used_cents: i64,
}

pub open spec fn limit_for_method(
    m: MethodFacts,
    instances: Seq<ActiveInstance>,
    usage: Map<Seq<char>, i64>,
    override_enabled: bool,
) -> MethodLimit {
    let default = default_limits(m.payment_type@);
    limit_status(
        limit_in_force(m.daily_setting_cents, override_enabled, default.daily_max_cents),
        limit_in_force(m.single_setting_cents, override_enabled, default.single_max_cents),
        m.used_cents,
        aggregate(instances, m.payment_type@, usage),
    )
}

/// The limits of each payment type on offer.
pub fn query_method_limits(
    methods: &Vec<MethodFacts>,
    active_instances: &Vec<ActiveInstance>,
    usage_by_instance: &TextMap<i64>,
    override_enabled: bool,
) -> (r: Vec<MethodLimit>)
    requires
        all_wf(active_instances@),
        usage_by_instance.wf(),
    ensures
        r@.len() == methods@.len(),
        forall|i: int|
            0 <= i < methods@.len() ==> #[trigger] r@[i] == limit_for_method(
                methods@[i],
                active_instances@,
                usage_by_instance@,
                override_enabled,
            ),
{
    let mut out: Vec<MethodLimit> = Vec::new();
    let mut i: usize = 0;
    while i < methods.len()
        invariant
            i <= methods@.len(),
            all_wf(active_instances@),
            usage_by_instance.wf(),
            out@.len() == i,
            forall|j: int|
                0 <= j < i ==> #[trigger] out@[j] == limit_for_method(
                    methods@[j],
                    active_instances@,
                    usage_by_instance@,
                    override_enabled,
                ),
        decreases methods@.len() - i,
    {
        let m = &methods[i];
        let t = m.payment_type.as_str();
        let daily: i64 = method_daily_limit(t, m.daily_setting_cents, override_enabled);
        let single: i64 = method_single_limit(t, m.single_setting_cents, override_enabled);
        let a = aggregate_instance_limits(t, active_instances, usage_by_instance);
        out.push(method_limit_status(daily, single, m.used_cents, a));
        i += 1;
    }
    out
}

// ---------------------------------------------------------------------------
// What was paid today
// ---------------------------------------------------------------------------
pub const USAGE_BY_TYPE: &'static str =
    "SELECT payment_type, COALESCE(SUM(amount_cents), 0) FROM orders WHERE status IN (?1, ?2, ?3) AND paid_at >= ?4 GROUP BY payment_type";

pub const USAGE_BY_INSTANCE: &'static str =
    "SELECT provider_instance_id, COALESCE(SUM(pay_amount_cents), 0) FROM orders WHERE provider_instance_id IS NOT NULL AND status IN (?1, ?2, ?3) AND paid_at >= ?4 GROUP BY provider_instance_id";

/// The parameters of both: the statuses of orders that count, and the start of the day.
pub fn usage_params(now: i64) -> (r: Vec<SqlValue>)
    requires
        now <= i64::MAX - clock::BIZ_OFFSET_SECONDS,
    ensures
        r@.len() == 4,
        db::is_text(r@[0], OrderStatus::Paid.name()),
        db::is_text(r@[1], OrderStatus::Recharging.name()),
        db::is_text(r@[2], OrderStatus::Completed.name()),
        r@[3] == SqlValue::Integer(clock::biz_day_start(now as int) as i64),
{
    let start: i64 = clock::get_biz_day_start_utc_timestamp(now);
    vec![
        db::text_value(OrderStatus::Paid.as_str()),
        db::text_value(OrderStatus::Recharging.as_str()),
        db::text_value(OrderStatus::Completed.as_str()),
        SqlValue::Integer(start),
    ]
}

/// One line of the answer: for what, and how much.
#[derive(Debug)]
pub struct UsageRow {
    pub key: SqlValue,
    pub cents: SqlValue,
}

/// How much was paid under each key, of those that count where they are listed; or which
/// value cannot be read.
pub open spec fn usage_in(rows: Seq<UsageRow>, only: Option<Seq<Seq<char>>>) -> Result<
    Map<Seq<char>, i64>,
    Seq<char>,
>
    decreases rows.len(),
{
    if rows.len() == 0 {
        Ok(Map::empty())
    } else {
        match usage_in(rows.drop_last(), only) {
            Err(e) => Err(e),
            Ok(m) => match db::sql_text(rows.last().key) {
                Err(e) => Err(e),
                Ok(key) => if only matches Some(keys) && !keys.contains(key) {
                    Ok(m)
                } else {
                    match db::sql_int(rows.last().cents) {
                        Err(e) => Err(e),
                        Ok(n) => Ok(m.insert(key, n as i64)),
                    }
                },
            },
        }
    }
}

proof fn lemma_usage_fails(rows: Seq<UsageRow>, only: Option<Seq<Seq<char>>>, n: int)
    requires
        0 <= n <= rows.len(),
        usage_in(rows.take(n), only) is Err,
    ensures
        usage_in(rows, only) == usage_in(rows.take(n), only),
    decreases rows.len() - n,
{
    if n < rows.len() {
        assert(rows.take(n + 1).drop_last() =~= rows.take(n));
        lemma_usage_fails(rows, only, n + 1);
    } else {
        assert(rows.take(n) =~= rows);
    }
}

pub open spec fn opt_texts(v: Option<&Vec<String>>) -> Option<Seq<Seq<char>>> {
    match v {
        Some(keys) => Some(text::texts(keys@)),
        None => None,
    }
}

/// Reads how much was paid under each key: of payment types only those that are listed.
pub fn read_usage(rows: &Vec<UsageRow>, only: Option<&Vec<String>>) -> (r: Result<
    TextMap<i64>,
    String,
>)
    ensures
        match r {
            Ok(m) => m.wf() && usage_in(rows@, opt_texts(only)) == Ok::<
                Map<Seq<char>, i64>,
                Seq<char>,
            >(m@),
            Err(e) => usage_in(rows@, opt_texts(only)) == Err::<Map<Seq<char>, i64>, Seq<char>>(e@),
        },
{
    let ghost keys = opt_texts(only);
    let mut usage: TextMap<i64> = TextMap::new();
    let mut i: usize = 0;
    assert(rows@.take(0) =~= Seq::<UsageRow>::empty());
    while i < rows.len()
        invariant
            i <= rows@.len(),
            keys == opt_texts(only),
            usage.wf(),
            usage_in(rows@.take(i as int), keys) == Ok::<Map<Seq<char>, i64>, Seq<char>>(usage@),
        decreases rows@.len() - i,
    {
        assert(rows@.take(i + 1).drop_last() =~= rows@.take(i as int));
        let key = match db::read_required_string(&rows[i].key) {
            Ok(k) => k,
            Err(e) => {
                proof {
                    lemma_usage_fails(rows@, keys, i + 1);
                }
                return Err(e);
            },
        };
        let counts = match only {
            Some(list) => contains_text(list, key.as_str()),
            None => true,
        };
        if counts {
            match db::read_required_i64(&rows[i].cents) {
                Ok(n) => {
                    usage.insert(key, n);
                },
                Err(e) => {
                    proof {
                        lemma_usage_fails(rows@, keys, i + 1);
                    }
                    return Err(e);
                },
            }
        }
        i += 1;
    }
    assert(rows@.take(i as int) =~= rows@);
    Ok(usage)
}

// ---------------------------------------------------------------------------
// What is on offer
// ---------------------------------------------------------------------------
/// The providers that are switched on: those of the settings where they override the
/// environment, else those of the environment.
pub open spec fn provider_keys_in_force(
    override_enabled: bool,
    setting: Option<Seq<char>>,
    environment: Seq<Seq<char>>,
) -> Seq<Seq<char>> {
    match setting {
        Some(s) => if override_enabled {
            csv_items(s)
        } else {
            environment
        },
        None => environment,
    }
}

/// The payment types on offer. Where the settings override the environment, only those
/// that an instance serves.
pub open spec fn types_on_offer(
    override_enabled: bool,
    providers: Seq<Seq<char>>,
    configured: Option<Seq<char>>,
    instances: Seq<ActiveInstance>,
) -> Seq<Seq<char>> {
    let chosen = chosen_types(offered_types(providers), configured);
    if override_enabled {
        chosen.filter(
            |t: Seq<char>|
                exists|j: int| 0 <= j < instances.len() && serves(#[trigger] instances[j], t),
        )
    } else {
        chosen
    }
}

/// Whether a setting is switched on.
pub fn is_true(value: Option<&str>) -> (r: bool)
    ensures
        r == (db::opt_str(value) == Some("true"@)),
{
    match value {
        Some(v) => text::same(v, "true"),
        None => false,
    }
}

pub fn resolve_offered_types(
    override_enabled: bool,
    enabled_providers: Option<&str>,
    environment_providers: &Vec<String>,
    enabled_payment_types: Option<&str>,
    active_instances: &Vec<ActiveInstance>,
) -> (r: Vec<String>)
    ensures
        text::texts(r@) == types_on_offer(
            override_enabled,
            provider_keys_in_force(
                override_enabled,
                db::opt_str(enabled_providers),
                text::texts(environment_providers@),
            ),
            db::opt_str(enabled_payment_types),
            active_instances@,
        ),
{
    let keys = if override_enabled {
        match enabled_providers {
            Some(s) => split_csv(s),
            None => copy_texts(environment_providers),
        }
    } else {
        copy_texts(environment_providers)
    };
    let supported = supported_types_for_provider_keys(&keys);
    let chosen = resolve_enabled_payment_types(&supported, enabled_payment_types);
    if !override_enabled {
        return chosen;
    }
    let ghost all = text::texts(chosen@);
    let ghost p = |t: Seq<char>|
        exists|j: int|
            0 <= j < active_instances@.len() && serves(#[trigger] active_instances@[j], t);
    let mut out: Vec<String> = Vec::new();
    let mut i: usize = 0;
    proof {
        reveal(Seq::filter);
        assert(text::texts(out@) =~= all.take(0).filter(p));
    }
    while i < chosen.len()
        invariant
            i <= chosen@.len(),
            all == text::texts(chosen@),
            p == (|t: Seq<char>|
                exists|j: int|
                    0 <= j < active_instances@.len() && serves(
                        #[trigger] active_instances@[j],
                        t,
                    )),
            text::texts(out@) == all.take(i as int).filter(p),
        decreases chosen@.len() - i,
    {
        proof {
            reveal(Seq::filter);
            assert(all.take(i + 1).drop_last() =~= all.take(i as int));
            assert(all.take(i + 1).last() == chosen@[i as int]@);
        }
        if any_serves(active_instances, chosen[i].as_str()) {
            let ghost before = text::texts(out@);
            out.push(chosen[i].clone());
            assert(text::texts(out@) =~= before.push(chosen@[i as int]@));
        }
        i += 1;
    }
    assert(all.take(i as int) =~= all);
    out
}

/// Whatever the settings are, only the payment types of usable providers are on offer.
pub proof fn law_offered_types_are_supported(
    override_enabled: bool,
    providers: Seq<Seq<char>>,
    configured: Option<Seq<char>>,
    instances: Seq<ActiveInstance>,
    t: Seq<char>,
)
    requires
        types_on_offer(override_enabled, providers, configured, instances).contains(t),
    ensures
        offered_types(providers).contains(t),
        t == "alipay"@ || t == "wxpay"@ || t == "stripe"@,
{
    let chosen = chosen_types(offered_types(providers), configured);
    let p = |t: Seq<char>|
        exists|j: int| 0 <= j < instances.len() && serves(#[trigger] instances[j], t);
    if override_enabled {
        let served = types_on_offer(override_enabled, providers, configured, instances);
        assert(served == chosen.filter(p));
        chosen.lemma_filter_contains_rev(p, t);
    }
    if let Some(c) = configured {
        if csv_items(c).len() > 0 {
            offered_types(providers).lemma_filter_contains_rev(
                |t: Seq<char>| csv_items(c).contains(t),
                t,
            );
        }
    }
    law_direct_types_are_never_offered(providers, t);
}

// ---------------------------------------------------------------------------
// The key with which a page opens Stripe
// ---------------------------------------------------------------------------
/// The publishable key among the settings of an instance, where it is not empty.
pub open spec fn key_among(settings: Map<Seq<char>, Seq<char>>) -> Option<Seq<char>> {
    if settings.dom().contains("publishableKey"@) && settings["publishableKey"@].len() > 0 {
        Some(settings["publishableKey"@])
    } else {
        None
    }
}

pub fn find_publishable_key(settings: &TextMap<String>) -> (r: Option<String>)
    requires
        settings.wf(),
    ensures
        db::opt_text(r) == key_among(maps::text_map(settings@)),
{
    match settings.get("publishableKey") {
        Some(s) => if s.as_str().is_empty() {
            None
        } else {
            Some(s.clone())
        },
        None => None,
    }
}

/// The settings of a Stripe instance, or why they cannot be read.
pub open spec fn stripe_settings(key: Seq<u8>, sealed: Seq<char>) -> Result<
    Map<Seq<char>, Seq<char>>,
    Seq<char>,
> {
    match crypto::opened(key, sealed) {
        Err(e) => Err(e.text()),
        Ok(plain) => match json::json_string_map(plain) {
            Err(_) => Err("failed to parse stripe provider instance config"@),
            Ok(m) => Ok(m),
        },
    }
}

fn open_stripe_settings(admin_token: Option<&str>, sealed: &str) -> (r: Result<
    TextMap<String>,
    String,
>)
    ensures
        match r {
            Ok(m) => m.wf() && stripe_settings(crypto::key_of(admin_token), sealed@) == Ok::<
                Map<Seq<char>, Seq<char>>,
                Seq<char>,
            >(maps::text_map(m@)),
            Err(e) => stripe_settings(crypto::key_of(admin_token), sealed@) == Err::<
                Map<Seq<char>, Seq<char>>,
                Seq<char>,
            >(e@),
        },
{
    match crypto::decrypt(admin_token, sealed) {
        Err(e) => Err(e.message().to_owned()),
        Ok(plain) => match json::parse_string_map(plain.as_str()) {
            Err(_) => Err("failed to parse stripe provider instance config".to_owned()),
            Ok(m) => Ok(m),
        },
    }
}

/// The first publishable key among the Stripe instances; without one, the default. An
/// instance before it that cannot be read is an error.
pub open spec fn first_publishable_key(
    key: Seq<u8>,
    instances: Seq<ActiveInstance>,
    default: Option<Seq<char>>,
) -> Result<Option<Seq<char>>, Seq<char>>
    decreases instances.len(),
{
    if instances.len() == 0 {
        Ok(default)
    } else if instances[0].provider_key@ != "stripe"@ {
        first_publishable_key(key, instances.drop_first(), default)
    } else {
        match stripe_settings(key, instances[0].encrypted_config@) {
            Err(e) => Err(e),
            Ok(m) => match key_among(m) {
                Some(k) => Ok(Some(k)),
                None => first_publishable_key(key, instances.drop_first(), default),
            },
        }
    }
}

/// The publishable key, where Stripe is on offer.
pub open spec fn publishable_key(
    key: Seq<u8>,
    enabled_types: Seq<Seq<char>>,
    instances: Seq<ActiveInstance>,
    default: Option<Seq<char>>,
) -> Result<Option<Seq<char>>, Seq<char>> {
    if enabled_types.contains("stripe"@) {
        first_publishable_key(key, instances, default)
    } else {
        Ok(None)
    }
}

pub fn resolve_stripe_publishable_key(
    admin_token: Option<&str>,
    enabled_types: &Vec<String>,
    active_instances: &Vec<ActiveInstance>,
    default: Option<&str>,
) -> (r: Result<Option<String>, String>)
    ensures
        match r {
            Ok(k) => publishable_key(
                crypto::key_of(admin_token),
                text::texts(enabled_types@),
                active_instances@,
                db::opt_str(default),
            ) == Ok::<Option<Seq<char>>, Seq<char>>(db::opt_text(k)),
            Err(e) => publishable_key(
                crypto::key_of(admin_token),
                text::texts(enabled_types@),
                active_instances@,
                db::opt_str(default),
            ) == Err::<Option<Seq<char>>, Seq<char>>(e@),
        },
{
    if !contains_text(enabled_types, "stripe") {
        return Ok(None);
    }
    let ghost key = crypto::key_of(admin_token);
    let ghost all = active_instances@;
    let mut i: usize = 0;
    assert(all.skip(0) =~= all);
    while i < active_instances.len()
        invariant
            i <= active_instances@.len(),
            all == active_instances@,
            key == crypto::key_of(admin_token),
            text::texts(enabled_types@).contains("stripe"@),
            first_publishable_key(key, all, db::opt_str(default)) == first_publishable_key(
                key,
                all.skip(i as int),
                db::opt_str(default),
            ),
        decreases active_instances@.len() - i,
    {
        assert(all.skip(i as int)[0] == all[i as int]);
        assert(all.skip(i as int).drop_first() =~= all.skip(i + 1));
        if text::same(active_instances[i].provider_key.as_str(), "stripe") {
            match open_stripe_settings(admin_token, active_instances[i].encrypted_config.as_str()) {
                Err(e) => {
                    return Err(e);
                },
                Ok(m) => {
                    let found = find_publishable_key(&m);
                    if found.is_some() {
                        return Ok(found);
                    }
                },
            }
        }
        i += 1;
    }
    Ok(
        match default {
            Some(s) => Some(s.to_owned()),
            None => None,
        },
    )
}

// ---------------------------------------------------------------------------
// Laws on fees, limits and the choice of an instance
// ---------------------------------------------------------------------------
/// What is to be paid above an amount is the least whole number of cents that covers the rate,
/// and nothing without one.
pub proof fn law_buyers_pay_the_amount_and_its_fee(amount: int, bps: int)
    requires
        amount >= 0,
    ensures
        bps > 0 ==> (pay_amount(amount, bps) - amount) * 10_000 >= amount * bps,
        bps > 0 ==> (pay_amount(amount, bps) - amount - 1) * 10_000 < amount * bps,
        bps <= 0 ==> pay_amount(amount, bps) == amount,
{
    law_fee_is_rounded_up(amount, amount, bps);
}

/// The limits of an instance for a payment type are those that it sets for that type; what it
/// does not set is no limit.
pub proof fn law_limits_are_those_of_the_type(instance: ActiveInstance, t: Seq<char>)
    ensures
        ({
            let l = limits_for(instance, t);
            let set = instance.limits@[t];
            if instance.limits@.dom().contains(t) {
                &&& set.single_min_cents is Some ==> Some(l.single_min) == set.single_min_cents
                &&& set.single_max_cents is Some ==> Some(l.single_max) == set.single_max_cents
                &&& set.daily_limit_cents is Some ==> Some(l.daily) == set.daily_limit_cents
                &&& set.single_min_cents is None ==> l.single_min == 0
                &&& set.single_max_cents is None ==> l.single_max == 0
                &&& set.daily_limit_cents is None ==> l.daily == 0
            } else {
                l.single_min == 0 && l.single_max == 0 && l.daily == 0
            }
        }),
{
}

/// The instances that serve `alipay` and `wxpay` are those of EasyPay, and the instances that
/// serve `stripe` those of Stripe, as far as they name the type or name none; no other type is
/// served by either.
pub proof fn law_types_are_served_by_their_gateway(instance: ActiveInstance, t: Seq<char>)
    ensures
        ({
            let takes_type = instance.supported_types@.len() == 0 || exists|i: int|
                0 <= i < instance.supported_types@.len() && (
                #[trigger] instance.supported_types@[i])@ == t;
            &&& t == "alipay"@ || t == "wxpay"@ ==> (serves(instance, t) <==> instance.provider_key@
                == "easypay"@ && takes_type)
            &&& t == "stripe"@ ==> (serves(instance, t) <==> instance.provider_key@ == "stripe"@
                && takes_type)
            &&& instance.provider_key@ == "easypay"@ && serves(instance, t) ==> t == "alipay"@ || t
                == "wxpay"@
            &&& instance.provider_key@ == "stripe"@ && serves(instance, t)
                ==> "stripe"@.is_prefix_of(t)
        }),
{
    reveal_strlit("alipay");
    reveal_strlit("wxpay");
    reveal_strlit("stripe");
    reveal_strlit("easypay");
    reveal_strlit("alipay_direct");
    reveal_strlit("wxpay_direct");
    assert("alipay"@.len() == 6 && "wxpay"@.len() == 5 && "stripe"@.len() == 6 && "easypay"@.len()
        == 7 && "alipay_direct"@.len() == 13 && "wxpay_direct"@.len() == 12);
    assert("alipay"@[0] == 'a' && "wxpay"@[0] == 'w' && "stripe"@[0] == 's' && "easypay"@[0]
        == 'e');
    assert("stripe"@.is_prefix_of("stripe"@));
    let named = text::texts(instance.supported_types@);
    if named.contains(t) {
        let i = choose|i: int| 0 <= i < named.len() && named[i] == t;
        assert(instance.supported_types@[i]@ == t);
    }
    assert forall|i: int|
        0 <= i < instance.supported_types@.len() && (#[trigger] instance.supported_types@[i])@
            == t implies named.contains(t) by {
        assert(named[i] == t);
    }
}

/// A payment goes only to an instance that serves its type and whose limits it keeps: it is no
/// less than the least and no more than the greatest payment, and what was paid that day and
/// it are no more than the day allows. Of all those, the one with the least sort order takes
/// it, and of equals the one that stands first.
pub proof fn law_payments_keep_the_limits_of_their_instance(
    instances: Seq<ActiveInstance>,
    i: int,
    j: int,
    t: Seq<char>,
    pay: int,
    usage: Map<Seq<char>, i64>,
)
    ensures
        ({
            let l = limits_for(instances[j], t);
            let used = if usage.dom().contains(instances[j].id@) {
                usage[instances[j].id@] as int
            } else {
                0
            };
            let fits = 0 <= j < instances.len() && serves(instances[j], t) && (l.single_min <= 0
                || pay >= l.single_min) && (l.single_max <= 0 || pay <= l.single_max) && (l.daily
                <= 0 || pay <= l.daily - used);
            &&& takes(instances, j, t, pay, usage) <==> fits
            &&& first_in_line(instances, j, t, pay, usage) ==> fits
            &&& first_in_line(instances, i, t, pay, usage) && fits ==> instances[i].sort_order
                < instances[j].sort_order || (instances[i].sort_order == instances[j].sort_order
                && i <= j)
        }),
{
}

/// Some instance is first in line wherever one takes the payment.
pub proof fn law_some_instance_takes_what_one_takes(
    instances: Seq<ActiveInstance>,
    j: int,
    t: Seq<char>,
    pay: int,
    usage: Map<Seq<char>, i64>,
)
    requires
        takes(instances, j, t, pay, usage),
    ensures
        exists|i: int| #[trigger] first_in_line(instances, i, t, pay, usage),
{
    lemma_first_among(instances, instances.len() as int, j, t, pay, usage);
    let i = choose|i: int| #[trigger]
        leads(instances, instances.len() as int, i, t, pay, usage);
    assert(first_in_line(instances, i, t, pay, usage));
}

spec fn comes_before(instances: Seq<ActiveInstance>, i: int, k: int) -> bool {
    instances[i].sort_order < instances[k].sort_order || (instances[i].sort_order
        == instances[k].sort_order && i <= k)
}

spec fn leads(
    instances: Seq<ActiveInstance>,
    n: int,
    i: int,
    t: Seq<char>,
    pay: int,
    usage: Map<Seq<char>, i64>,
) -> bool {
    &&& 0 <= i < n
    &&& takes(instances, i, t, pay, usage)
    &&& forall|k: int|
        k < n && #[trigger] takes(instances, k, t, pay, usage) ==> comes_before(instances, i, k)
}

proof fn lemma_first_among(
    instances: Seq<ActiveInstance>,
    n: int,
    j: int,
    t: Seq<char>,
    pay: int,
    usage: Map<Seq<char>, i64>,
)
    requires
        0 <= j < n <= instances.len(),
        takes(instances, j, t, pay, usage),
    ensures
        exists|i: int| #[trigger] leads(instances, n, i, t, pay, usage),
    decreases n,
{
    let last = n - 1;
    if exists|k: int| 0 <= k < last && #[trigger] takes(instances, k, t, pay, usage) {
        let k = choose|k: int| 0 <= k < last && #[trigger] takes(instances, k, t, pay, usage);
        lemma_first_among(instances, last, k, t, pay, usage);
        let i = choose|i: int| #[trigger] leads(instances, last, i, t, pay, usage);
        if takes(instances, last, t, pay, usage) && !comes_before(instances, i, last) {
            assert(leads(instances, n, last, t, pay, usage)) by {
                assert forall|m: int|
                    m < n && #[trigger] takes(instances, m, t, pay, usage) implies comes_before(
                    instances,
                    last,
                    m,
                ) by {
                    if m < last {
                        assert(comes_before(instances, i, m));
                    }
                }
            }
        } else {
            assert(leads(instances, n, i, t, pay, usage)) by {
                assert forall|m: int|
                    m < n && #[trigger] takes(instances, m, t, pay, usage) implies comes_before(
                    instances,
                    i,
                    m,
                ) by {}
            }
        }
    } else {
        assert(j == last);
        assert(leads(instances, n, last, t, pay, usage));
    }
}

/// The day of an instance is spent exactly where it has a daily limit of which no more is left
/// than the least payment that it takes.
pub proof fn law_day_is_spent_when_nothing_fits(l: Limits, used: int)
    requires
        used >= 0,
    ensures
        day_is_spent(l, used) <==> l.daily > 0 && (l.daily - used <= 0 || l.daily - used
            <= l.single_min),
{
}

/// The joint least payment is the least of the instances': no instance that serves the type
/// asks for less, and one of them asks for just that. Left out are instances that all ask for
/// more than can be counted.
pub proof fn law_joint_minimum_is_the_least(
    instances: Seq<ActiveInstance>,
    t: Seq<char>,
    usage: Map<Seq<char>, i64>,
    some: int,
)
    requires
        forall|i: int|
            0 <= i < instances.len() && serves(#[trigger] instances[i], t) ==> 0 <= limits_for(
                instances[i],
                t,
            ).single_min,
        0 <= some < instances.len(),
        serves(instances[some], t),
        limits_for(instances[some], t).single_min < i64::MAX,
    ensures
        forall|i: int|
            0 <= i < instances.len() && serves(#[trigger] instances[i], t) ==> aggregate(
                instances,
                t,
                usage,
            ).single_min_cents <= limits_for(instances[i], t).single_min,
        exists|i: int|
            0 <= i < instances.len() && serves(#[trigger] instances[i], t) && aggregate(
                instances,
                t,
                usage,
            ).single_min_cents == limits_for(instances[i], t).single_min,
{
    lemma_least_seen(instances, t, usage);
    assert(serves(instances[some], t));
    lemma_seen(instances, t, usage);
}

proof fn lemma_least_seen(instances: Seq<ActiveInstance>, t: Seq<char>, usage: Map<Seq<char>, i64>)
    requires
        forall|i: int|
            0 <= i < instances.len() && serves(#[trigger] instances[i], t) ==> 0 <= limits_for(
                instances[i],
                t,
            ).single_min,
    ensures
        0 <= seen(instances, t, usage).single_min_cents,
        forall|i: int|
            0 <= i < instances.len() && serves(#[trigger] instances[i], t) ==> seen(
                instances,
                t,
                usage,
            ).single_min_cents <= limits_for(instances[i], t).single_min,
        seen(instances, t, usage).single_min_cents < i64::MAX ==> exists|i: int|
            0 <= i < instances.len() && serves(#[trigger] instances[i], t) && seen(
                instances,
                t,
                usage,
            ).single_min_cents == limits_for(instances[i], t).single_min,
    decreases instances.len(),
{
    if instances.len() > 0 {
        let before = instances.drop_last();
        let n = before.len() as int;
        assert forall|i: int| 0 <= i < before.len() && serves(#[trigger] before[i], t) implies 0
            <= limits_for(before[i], t).single_min by {
            assert(serves(instances[i], t));
        }
        lemma_least_seen(before, t, usage);
        let a = seen(before, t, usage).single_min_cents;
        let b = seen(instances, t, usage).single_min_cents;
        assert(instances[n] == instances.last());
        assert forall|i: int|
            0 <= i < instances.len() && serves(#[trigger] instances[i], t) implies b <= limits_for(
            instances[i],
            t,
        ).single_min by {
            if i < n {
                assert(serves(before[i], t));
            }
        }
        if b < i64::MAX {
            if serves(instances[n], t) && b == limits_for(instances[n], t).single_min {
            } else {
                assert(a == b);
                let i = choose|i: int|
                    0 <= i < before.len() && serves(#[trigger] before[i], t) && a == limits_for(
                        before[i],
                        t,
                    ).single_min;
                assert(serves(instances[i], t));
            }
        }
    }
}

/// The joint greatest payment is the greatest of the instances' that serve the type: none of
/// them takes more, and one of them takes just that. Where an instance has no such limit, only
/// those after the last such instance count, and without any after it there is no limit.
pub proof fn law_joint_maximum_is_the_greatest(
    instances: Seq<ActiveInstance>,
    t: Seq<char>,
    usage: Map<Seq<char>, i64>,
    from: int,
)
    requires
        from == -1 || (0 <= from < instances.len() && serves(instances[from], t) && limits_for(
            instances[from],
            t,
        ).single_max == 0),
        forall|i: int|
            from < i < instances.len() && serves(#[trigger] instances[i], t) ==> limits_for(
                instances[i],
                t,
            ).single_max > 0,
    ensures
        ({
            let joint = aggregate(instances, t, usage).single_max_cents;
            &&& forall|i: int|
                from < i < instances.len() && serves(#[trigger] instances[i], t) ==> limits_for(
                    instances[i],
                    t,
                ).single_max <= joint
            &&& joint != 0 ==> exists|i: int|
                from < i < instances.len() && serves(#[trigger] instances[i], t) && limits_for(
                    instances[i],
                    t,
                ).single_max == joint
            &&& joint >= 0
        }),
{
    lemma_greatest_seen(instances, t, usage, from);
    lemma_seen(instances, t, usage);
}

proof fn lemma_greatest_seen(
    instances: Seq<ActiveInstance>,
    t: Seq<char>,
    usage: Map<Seq<char>, i64>,
    from: int,
)
    requires
        from == -1 || (0 <= from < instances.len() && serves(instances[from], t) && limits_for(
            instances[from],
            t,
        ).single_max == 0),
        forall|i: int|
            from < i < instances.len() && serves(#[trigger] instances[i], t) ==> limits_for(
                instances[i],
                t,
            ).single_max > 0,
    ensures
        ({
            let joint = seen(instances, t, usage).single_max_cents;
            &&& forall|i: int|
                from < i < instances.len() && serves(#[trigger] instances[i], t) ==> limits_for(
                    instances[i],
                    t,
                ).single_max <= joint
            &&& joint != 0 ==> exists|i: int|
                from < i < instances.len() && serves(#[trigger] instances[i], t) && limits_for(
                    instances[i],
                    t,
                ).single_max == joint
            &&& joint >= 0
        }),
    decreases instances.len(),
{
    if instances.len() > 0 {
        let before = instances.drop_last();
        let n = before.len() as int;
        assert(instances[n] == instances.last());
        if from < n {
            assert forall|i: int|
                from < i < before.len() && serves(#[trigger] before[i], t) implies limits_for(
                before[i],
                t,
            ).single_max > 0 by {
                assert(serves(instances[i], t));
            }
            lemma_greatest_seen(before, t, usage, from);
            let a = seen(before, t, usage).single_max_cents;
            let joint = seen(instances, t, usage).single_max_cents;
            assert forall|i: int|
                from < i < instances.len() && serves(#[trigger] instances[i], t) implies limits_for(
                instances[i],
                t,
            ).single_max <= joint by {
                if i < n {
                    assert(serves(before[i], t));
                }
            }
            if joint != 0 && !(serves(instances[n], t) && limits_for(instances[n], t).single_max
                == joint) {
                assert(a == joint);
                let i = choose|i: int|
                    from < i < before.len() && serves(#[trigger] before[i], t) && limits_for(
                        before[i],
                        t,
                    ).single_max == a;
                assert(serves(instances[i], t));
            }
        }
    }
}

/// The joint capacity of a day is the most that is left to any instance whose day is not
/// spent: none of them has more left, and one of them just that. Where an instance has no
/// daily limit, only those after the last such instance count, and without any after it there
/// is no joint limit.
pub proof fn law_joint_capacity_is_the_most_that_is_left(
    instances: Seq<ActiveInstance>,
    t: Seq<char>,
    usage: Map<Seq<char>, i64>,
    from: int,
)
    requires
        forall|k: Seq<char>| usage.dom().contains(k) ==> #[trigger] usage[k] >= 0,
        from == -1 || (0 <= from < instances.len() && serves(instances[from], t) && limits_for(
            instances[from],
            t,
        ).daily <= 0),
        forall|i: int|
            from < i < instances.len() && serves(#[trigger] instances[i], t) ==> limits_for(
                instances[i],
                t,
            ).daily > 0,
    ensures
        ({
            let joint = aggregate(instances, t, usage).max_remaining_capacity_cents;
            let left = |i: int|
                limits_for(instances[i], t).daily - used_by(usage, instances[i].id@);
            let open = |i: int|
                from < i < instances.len() && serves(instances[i], t) && left(i) > 0 && left(i)
                    > limits_for(instances[i], t).single_min;
            &&& forall|i: int| #[trigger] open(i) ==> joint is Some && left(i) <= joint->0
            &&& joint is Some ==> exists|i: int| #[trigger] open(i) && left(i) == joint->0
        }),
{
    lemma_most_left_seen(instances, t, usage, from);
    lemma_seen(instances, t, usage);
    let left = |i: int| limits_for(instances[i], t).daily - used_by(usage, instances[i].id@);
    let open = |i: int|
        from < i < instances.len() && serves(instances[i], t) && left(i) > 0 && left(i)
            > limits_for(instances[i], t).single_min;
    let joint = aggregate(instances, t, usage).max_remaining_capacity_cents;
    assert forall|i: int| #[trigger] open(i) implies joint is Some && left(i) <= joint->0 by {
        assert(open_after(instances, t, usage, from, i));
        assert(serves(instances[i], t));
    }
    if joint is Some {
        let i = choose|i: int|
            #[trigger] open_after(instances, t, usage, from, i) && limits_for(
                instances[i],
                t,
            ).daily - used_by(usage, instances[i].id@) == joint->0;
        assert(open(i));
    }
}

spec fn open_after(
    instances: Seq<ActiveInstance>,
    t: Seq<char>,
    usage: Map<Seq<char>, i64>,
    from: int,
    i: int,
) -> bool {
    let left = limits_for(instances[i], t).daily - used_by(usage, instances[i].id@);
    from < i < instances.len() && serves(instances[i], t) && left > 0 && left > limits_for(
        instances[i],
        t,
    ).single_min
}

proof fn lemma_most_left_seen(
    instances: Seq<ActiveInstance>,
    t: Seq<char>,
    usage: Map<Seq<char>, i64>,
    from: int,
)
    requires
        forall|k: Seq<char>| usage.dom().contains(k) ==> #[trigger] usage[k] >= 0,
        from == -1 || (0 <= from < instances.len() && serves(instances[from], t) && limits_for(
            instances[from],
            t,
        ).daily <= 0),
        forall|i: int|
            from < i < instances.len() && serves(#[trigger] instances[i], t) ==> limits_for(
                instances[i],
                t,
            ).daily > 0,
    ensures
        ({
            let joint = seen(instances, t, usage).max_remaining_capacity_cents;
            &&& forall|i: int| #[trigger]
                open_after(instances, t, usage, from, i) ==> joint is Some && limits_for(
                    instances[i],
                    t,
                ).daily - used_by(usage, instances[i].id@) <= joint->0
            &&& joint is Some ==> exists|i: int|
                #[trigger] open_after(instances, t, usage, from, i) && limits_for(
                    instances[i],
                    t,
                ).daily - used_by(usage, instances[i].id@) == joint->0
        }),
    decreases instances.len(),
{
    if instances.len() > 0 {
        let before = instances.drop_last();
        let n = before.len() as int;
        assert(instances[n] == instances.last());
        let joint = seen(instances, t, usage).max_remaining_capacity_cents;
        if from < n {
            assert forall|i: int|
                from < i < before.len() && serves(#[trigger] before[i], t) implies limits_for(
                before[i],
                t,
            ).daily > 0 by {
                assert(serves(instances[i], t));
            }
            lemma_most_left_seen(before, t, usage, from);
            let a = seen(before, t, usage).max_remaining_capacity_cents;
            assert(used_by(usage, instances[n].id@) >= 0);
            assert forall|i: int| #[trigger] open_after(instances, t, usage, from, i) implies joint
                is Some && limits_for(instances[i], t).daily - used_by(usage, instances[i].id@)
                <= joint->0 by {
                if i < n {
                    assert(open_after(before, t, usage, from, i));
                }
            }
            if joint is Some {
                if open_after(instances, t, usage, from, n) && limits_for(instances[n], t).daily
                    - used_by(usage, instances[n].id@) == joint->0 {
                } else {
                    assert(a == joint);
                    let i = choose|i: int|
                        #[trigger] open_after(before, t, usage, from, i) && limits_for(
                            before[i],
                            t,
                        ).daily - used_by(usage, before[i].id@) == a->0;
                    assert(open_after(instances, t, usage, from, i));
                }
            }
        }
    }
}

/// A payment that an instance takes is within the joint limits, where every instance that
/// serves the type limits its payments: it is neither below the joint least payment nor above
/// the joint greatest.
pub proof fn law_joint_limits_hold_what_an_instance_takes(
    instances: Seq<ActiveInstance>,
    t: Seq<char>,
    usage: Map<Seq<char>, i64>,
    i: int,
    pay: int,
)
    requires
        takes(instances, i, t, pay, usage),
        pay > 0,
        forall|j: int|
            0 <= j < instances.len() && serves(#[trigger] instances[j], t) ==> 0 <= limits_for(
                instances[j],
                t,
            ).single_min < i64::MAX && 0 < limits_for(instances[j], t).single_max,
    ensures
        aggregate(instances, t, usage).single_min_cents <= pay,
        pay <= aggregate(instances, t, usage).single_max_cents,
{
    assert(serves(instances[i], t));
    law_joint_minimum_is_the_least(instances, t, usage, i);
    law_joint_maximum_is_the_greatest(instances, t, usage, -1);
}

/// The greatest payment that is offered is the greatest that every limit allows: it exceeds
/// none of the setting's, the instances', what is left to them that day and what is left of the
/// day, as far as each limits anything, and it is one of these; without any there is none.
pub proof fn law_offered_maximum_is_the_tightest_limit(
    daily: i64,
    single: i64,
    used: i64,
    a: InstanceAggregate,
)
    requires
        single >= 0,
        daily >= 0,
        used >= 0,
        daily > 0 ==> used < daily,
        a.has_instances,
        a.single_max_cents >= 0,
        a.max_remaining_capacity_cents matches Some(c) ==> c > 0,
    ensures
        ({
            let most = limit_status(daily, single, used, a).single_max_cents;
            let capacity = a.max_remaining_capacity_cents;
            &&& single > 0 ==> 0 < most <= single
            &&& a.single_max_cents > 0 ==> 0 < most <= a.single_max_cents
            &&& capacity is Some ==> 0 < most <= capacity->0
            &&& daily > 0 ==> 0 < most <= daily - used
            &&& most == 0 || (single > 0 && most == single) || (a.single_max_cents > 0 && most
                == a.single_max_cents) || capacity == Some(most) || (daily > 0 && most == daily
                - used)
            &&& single == 0 && a.single_max_cents == 0 && capacity is None && daily == 0 ==> most
                == 0
        }),
{
}

/// A payment type is available exactly where its day is not used up, not every instance has
/// its day spent, and the greatest payment that is offered is no less than the least.
pub proof fn law_types_are_available_while_something_fits(
    daily: i64,
    single: i64,
    used: i64,
    a: InstanceAggregate,
)
    requires
        daily >= 0,
        used >= 0,
    ensures
        ({
            let s = limit_status(daily, single, used, a);
            &&& s.available <==> !(daily > 0 && used >= daily) && !(a.has_instances
                && a.all_instances_daily_blocked) && (s.single_min_cents == 0 || s.single_min_cents
                <= s.single_max_cents)
            &&& s.daily_limit_cents == daily
            &&& s.used_cents == used
            &&& s.single_min_cents == a.single_min_cents
            &&& daily == 0 ==> s.remaining_cents is None
            &&& 0 < daily && used <= daily ==> s.remaining_cents == Some((daily - used) as i64)
            &&& 0 < daily < used ==> s.remaining_cents == Some(0i64)
        }),
{
}

/// The limits of a type are those of the settings; where these say nothing and do not override
/// the environment, a payment by Alipay or Wxpay is of at most a thousand, and ten thousand a
/// day, and any other is not limited.
pub proof fn law_limits_come_from_the_settings_first(
    m: MethodFacts,
    instances: Seq<ActiveInstance>,
    usage: Map<Seq<char>, i64>,
    override_enabled: bool,
)
    ensures
        ({
            let t = m.payment_type@;
            let bounded = t == "alipay"@ || t == "wxpay"@ || t == "alipay_direct"@ || t
                == "wxpay_direct"@;
            let daily: i64 = match m.daily_setting_cents {
                Some(c) => c,
                None => if override_enabled || !bounded { 0 } else { 1_000_000 },
            };
            let single: i64 = match m.single_setting_cents {
                Some(c) => c,
                None => if override_enabled || !bounded { 0 } else { 100_000 },
            };
            limit_for_method(m, instances, usage, override_enabled) == limit_status(
                daily,
                single,
                m.used_cents,
                aggregate(instances, t, usage),
            )
        }),
{
}

/// A payment type is on offer exactly where a usable provider that is switched on has it, the
/// setting names it or names none, and, where the settings override the environment, an
/// instance serves it.
pub proof fn law_what_is_on_offer(
    override_enabled: bool,
    providers: Seq<Seq<char>>,
    configured: Option<Seq<char>>,
    instances: Seq<ActiveInstance>,
    t: Seq<char>,
)
    ensures
        types_on_offer(override_enabled, providers, configured, instances).contains(t) <==> {
            &&& (providers.contains("easypay"@) && (t == "alipay"@ || t == "wxpay"@)) || (
            providers.contains("stripe"@) && t == "stripe"@)
            &&& configured matches Some(c) ==> csv_items(c).len() == 0 || csv_items(c).contains(t)
            &&& override_enabled ==> exists|j: int|
                0 <= j < instances.len() && serves(#[trigger] instances[j], t)
        },
{
    let usable = usable_keys(providers);
    let offered = offered_types(providers);
    let chosen = chosen_types(offered, configured);
    law_provider_keys_are_split(providers, "easypay"@);
    law_provider_keys_are_split(providers, "stripe"@);
    lemma_types_of_usable(usable, t);
    lemma_firsts(types_of_providers(usable));
    assert(offered.contains(t) <==> types_of_providers(usable).contains(t));
    assert forall|k: Seq<char>| usable.contains(k) implies enabled_provider(k) by {
        law_provider_keys_are_split(providers, k);
    }
    assert forall|i: int| 0 <= i < usable.len() implies #[trigger] usable[i] == "easypay"@
        || usable[i] == "stripe"@ by {
        assert(usable.contains(usable[i]));
        law_provider_keys_are_split(providers, usable[i]);
        assert(enabled_provider(usable[i]));
    }
    if let Some(c) = configured {
        lemma_filter_contains(offered, |t: Seq<char>| csv_items(c).contains(t), t);
    }
    lemma_filter_contains(
        chosen,
        |t: Seq<char>|
            exists|j: int| 0 <= j < instances.len() && serves(#[trigger] instances[j], t),
        t,
    );
}

proof fn lemma_types_of_usable(keys: Seq<Seq<char>>, t: Seq<char>)
    ensures
        (forall|i: int|
            0 <= i < keys.len() ==> #[trigger] keys[i] == "easypay"@ || keys[i] == "stripe"@) ==> (
        types_of_providers(keys).contains(t) <==> (keys.contains("easypay"@) && (t == "alipay"@
            || t == "wxpay"@)) || (keys.contains("stripe"@) && t == "stripe"@)),
    decreases keys.len(),
{
    if keys.len() > 0 && (forall|i: int|
        0 <= i < keys.len() ==> #[trigger] keys[i] == "easypay"@ || keys[i] == "stripe"@) {
        let before = keys.drop_last();
        lemma_types_of_usable(before, t);
        assert forall|i: int| 0 <= i < before.len() implies #[trigger] before[i] == "easypay"@
            || before[i] == "stripe"@ by {
            assert(keys[i] == before[i]);
        }
        reveal_strlit("easypay");
        reveal_strlit("stripe");
        reveal_strlit("alipay");
        reveal_strlit("wxpay");
        assert("easypay"@.len() == 7 && "alipay"@.len() == 6 && "wxpay"@.len() == 5
            && "stripe"@.len() == 6);
        assert("alipay"@[0] == 'a' && "stripe"@[0] == 's');
        let last = keys.last();
        assert(keys[keys.len() - 1] == last);
        assert(keys =~= before.push(last));
        let a = types_of_providers(before);
        let b = types_of_provider(last);
        assert((a + b).contains(t) <==> a.contains(t) || b.contains(t)) by {
            if a.contains(t) {
                let i = choose|i: int| 0 <= i < a.len() && a[i] == t;
                assert((a + b)[i] == t);
            }
            if b.contains(t) {
                let i = choose|i: int| 0 <= i < b.len() && b[i] == t;
                assert((a + b)[a.len() + i] == t);
            }
            if (a + b).contains(t) {
                let i = choose|i: int| 0 <= i < (a + b).len() && (a + b)[i] == t;
                if i < a.len() {
                    assert(a[i] == t);
                } else {
                    assert(b[i - a.len()] == t);
                }
            }
        }
        if last == "easypay"@ {
            assert(b == seq!["alipay"@, "wxpay"@]);
            assert(b[0] == "alipay"@ && b[1] == "wxpay"@);
        } else {
            assert(b == seq!["stripe"@]);
            assert(b[0] == "stripe"@);
        }
        lemma_push_contains(before, last, "easypay"@);
        lemma_push_contains(before, last, "stripe"@);
    } else if keys.len() == 0 {
        assert(!types_of_providers(keys).contains(t));
    }
}

proof fn lemma_push_contains(s: Seq<Seq<char>>, last: Seq<char>, x: Seq<char>)
    ensures
        s.push(last).contains(x) <==> s.contains(x) || x == last,
{
    if s.contains(x) {
        let i = choose|i: int| 0 <= i < s.len() && s[i] == x;
        assert(s.push(last)[i] == x);
    }
    assert(s.push(last)[s.len() as int] == last);
    if s.push(last).contains(x) {
        let i = choose|i: int| 0 <= i < s.push(last).len() && s.push(last)[i] == x;
        if i < s.len() {
            assert(s[i] == x);
        }
    }
}

/// The providers that are switched on are those that the setting names where the settings
/// override the environment and name any list; else those of the environment.
pub proof fn law_settings_override_only_when_told(
    override_enabled: bool,
    setting: Option<Seq<char>>,
    environment: Seq<Seq<char>>,
)
    ensures
        !override_enabled || setting is None ==> provider_keys_in_force(
            override_enabled,
            setting,
            environment,
        ) == environment,
        override_enabled && setting is Some ==> provider_keys_in_force(
            override_enabled,
            setting,
            environment,
        ) == csv_items(setting->0),
{
}

/// The items of a list with commas are its pieces without the space around them, and never
/// empty.
pub proof fn law_list_items_are_trimmed_pieces(s: Seq<char>, item: Seq<char>)
    ensures
        csv_items(s).contains(item) <==> item.len() > 0 && exists|i: int|
            0 <= i < text::pieces(s, ',').len() && text::trimmed(
                #[trigger] text::pieces(s, ',')[i],
            ) == item,
{
    let all = text::pieces(s, ',').map_values(|p: Seq<char>| text::trimmed(p));
    lemma_filter_contains(all, |p: Seq<char>| p.len() > 0, item);
    if all.contains(item) {
        let i = choose|i: int| 0 <= i < all.len() && all[i] == item;
        assert(text::trimmed(text::pieces(s, ',')[i]) == item);
    }
    assert forall|i: int|
        0 <= i < text::pieces(s, ',').len() && text::trimmed(#[trigger] text::pieces(s, ',')[i])
            == item implies all.contains(item) by {
        assert(all[i] == item);
    }
}

/// What was paid under a key is what the last line under that key says, of the keys that count.
pub proof fn law_usage_is_what_the_lines_say(
    rows: Seq<UsageRow>,
    only: Option<Seq<Seq<char>>>,
    key: Seq<char>,
    i: int,
)
    requires
        usage_in(rows, only) is Ok,
        0 <= i < rows.len(),
        db::sql_text(rows[i].key) == Ok::<Seq<char>, Seq<char>>(key),
        forall|j: int|
            i < j < rows.len() ==> db::sql_text((#[trigger] rows[j]).key) != Ok::<
                Seq<char>,
                Seq<char>,
            >(key),
    ensures
        ({
            let m = usage_in(rows, only)->Ok_0;
            let counts = only matches Some(keys) ==> keys.contains(key);
            &&& m.dom().contains(key) <==> counts
            &&& counts ==> (db::sql_int(rows[i].cents) matches Ok(n) && m[key] == n as i64)
        }),
    decreases rows.len(),
{
    let before = rows.drop_last();
    if i < before.len() {
        assert(rows[rows.len() - 1] == rows.last());
        assert(before[i] == rows[i]);
        assert forall|j: int| i < j < before.len() implies db::sql_text(
            (#[trigger] before[j]).key,
        ) != Ok::<Seq<char>, Seq<char>>(key) by {
            assert(rows[j] == before[j]);
        }
        law_usage_is_what_the_lines_say(before, only, key, i);
    } else {
        assert(rows.last() == rows[i]);
        if only is Some && !only->0.contains(key) {
            lemma_usage_counts(before, only, key);
        }
    }
}

proof fn lemma_usage_counts(rows: Seq<UsageRow>, only: Option<Seq<Seq<char>>>, key: Seq<char>)
    requires
        usage_in(rows, only) is Ok,
        only is Some && !only->0.contains(key),
    ensures
        !usage_in(rows, only)->Ok_0.dom().contains(key),
    decreases rows.len(),
{
    if rows.len() > 0 {
        lemma_usage_counts(rows.drop_last(), only, key);
    }
}

/// A buyer pays the amount and the fee on it, rounded up to a cent.
pub proof fn law_fees_are_added_to_the_amount(amount_cents: i64, bps: i64, r: i64)
    requires
        call_ensures(calculate_pay_amount_cents, (amount_cents, bps), r),
        amount_cents >= 0,
    ensures
        bps <= 0 ==> r == amount_cents,
        bps > 0 ==> amount_cents * bps <= (r - amount_cents) * 10_000 < amount_cents * bps
            + 10_000,
{
    law_buyers_pay_the_amount_and_its_fee(amount_cents as int, bps as int);
}

/// A payment is given to an instance that serves its type and whose limits it keeps, before
/// which no other such instance stands; to none only where no instance serves the type; and is
/// refused only where its amount is not above zero, or where the type is served but none of
/// those that serve it takes the payment.
pub proof fn law_payments_go_to_who_takes_them(
    t: &str,
    amount_cents: i64,
    rate: FeeRate,
    instances: Vec<ActiveInstance>,
    usage: TextMap<i64>,
    r: Result<PaymentSelection, String>,
    j: int,
)
    requires
        call_ensures(select_payment, (t, amount_cents, rate, &instances, &usage), r),
        rate.bps >= 0,
        0 <= j < instances@.len(),
    ensures
        amount_cents <= 0 ==> r is Err,
        r matches Ok(s) ==> {
            let l = limits_for(instances@[j], t@);
            let used = if usage@.dom().contains(instances@[j].id@) {
                usage@[instances@[j].id@] as int
            } else {
                0
            };
            let fits = serves(instances@[j], t@) && (l.single_min <= 0 || s.pay_amount_cents
                >= l.single_min) && (l.single_max <= 0 || s.pay_amount_cents <= l.single_max) && (
            l.daily <= 0 || s.pay_amount_cents <= l.daily - used);
            &&& amount_cents > 0
            &&& s.fee_rate_bps == rate.bps
            &&& amount_cents * rate.bps <= (s.pay_amount_cents - amount_cents) * 10_000
                < amount_cents * rate.bps + 10_000
            &&& s.provider_instance_id is None ==> !serves(instances@[j], t@)
            &&& s.provider_instance_id matches Some(id) ==> exists|i: int|
                0 <= i < instances@.len() && id@ == (#[trigger] instances@[i]).id@ && serves(
                    instances@[i],
                    t@,
                ) && (fits ==> instances@[i].sort_order < instances@[j].sort_order || (
                instances@[i].sort_order == instances@[j].sort_order && i <= j))
        },
        r is Err && amount_cents > 0 ==> !takes(
            instances@,
            j,
            t@,
            pay_amount(amount_cents as int, rate.bps as int),
            usage@,
        ),
{
    let pay = pay_amount(amount_cents as int, rate.bps as int);
    if amount_cents > 0 {
        law_buyers_pay_the_amount_and_its_fee(amount_cents as int, rate.bps as int);
        if rate.bps == 0 {
            assert(amount_cents * rate.bps == 0) by (nonlinear_arith)
                requires
                    rate.bps == 0,
            ;
        }
        match r {
            Ok(s) => {
                if let Some(id) = s.provider_instance_id {
                    let i = choose|i: int| #[trigger]
                        first_in_line(instances@, i, t@, pay, usage@) && id@ == instances@[i].id@;
                    law_payments_keep_the_limits_of_their_instance(
                        instances@,
                        i,
                        j,
                        t@,
                        pay,
                        usage@,
                    );
                    assert(takes(instances@, i, t@, pay, usage@));
                    assert(id@ == instances@[i].id@);
                }
            },
            Err(_) => {},
        }
    }
}

/// The joint maximum of the instances that serve a type, each with one of its own, is the
/// greatest of theirs.
pub proof fn law_greatest_maximum_is_offered(
    t: &str,
    instances: Vec<ActiveInstance>,
    usage: TextMap<i64>,
    r: InstanceAggregate,
)
    requires
        call_ensures(aggregate_instance_limits, (t, &instances, &usage), r),
        forall|i: int|
            0 <= i < instances@.len() && serves(#[trigger] instances@[i], t@) ==> limits_for(
                instances@[i],
                t@,
            ).single_max > 0,
    ensures
        forall|i: int|
            0 <= i < instances@.len() && serves(#[trigger] instances@[i], t@) ==> limits_for(
                instances@[i],
                t@,
            ).single_max <= r.single_max_cents,
        r.single_max_cents != 0 ==> exists|i: int|
            0 <= i < instances@.len() && serves(#[trigger] instances@[i], t@) && limits_for(
                instances@[i],
                t@,
            ).single_max == r.single_max_cents,
{
    law_joint_maximum_is_the_greatest(instances@, t@, usage@, -1);
}

/// What was paid today counts the orders that are paid, being credited or completed, since the
/// business day began.
pub proof fn law_paid_today_counts_since_midnight(now: i64, r: Vec<SqlValue>)
    requires
        call_ensures(usage_params, (now,), r),
        0 <= now + 28_800 <= i64::MAX,
    ensures
        r@.len() == 4,
        r@[0] matches SqlValue::Text(s) && s@ == "PAID"@,
        r@[1] matches SqlValue::Text(s) && s@ == "RECHARGING"@,
        r@[2] matches SqlValue::Text(s) && s@ == "COMPLETED"@,
        r@[3] matches SqlValue::Integer(start) && start <= now < start + 86_400 && (start + 28_800)
            % 86_400 == 0,
{
    clock::law_business_days_begin_at_their_midnight(now as int);
}

/// An instance takes part exactly where it is switched on, as it is stored.
pub proof fn law_enabled_instances_take_part(
    found: Vec<FoundInstance>,
    r: Vec<ActiveInstance>,
    i: int,
    k: int,
)
    requires
        call_ensures(active_instances, (&found,), r),
        0 <= k < found@.len(),
        0 <= i < r@.len(),
    ensures
        exists|j: int|
            0 <= j < found@.len() && (#[trigger] found@[j]).record.enabled && r@[i].id@
                == found@[j].record.id@ && r@[i].provider_key@ == found@[j].record.provider_key@
                && r@[i].sort_order == found@[j].record.sort_order && r@[i].encrypted_config@
                == found@[j].record.config@,
        found@[k].record.enabled ==> exists|j: int|
            0 <= j < r@.len() && (#[trigger] r@[j]).id@ == found@[k].record.id@,
{
    let on = found@.filter(is_enabled());
    found@.lemma_filter_pred(is_enabled(), i);
    found@.lemma_filter_contains_rev(is_enabled(), on[i]);
    let j = choose|j: int| 0 <= j < found@.len() && found@[j] == on[i];
    assert(found@[j].record.enabled);
    if found@[k].record.enabled {
        found@.lemma_filter_contains(is_enabled(), k);
        let m = choose|m: int| 0 <= m < on.len() && on[m] == found@[k];
        assert(stands_for(r@[m], on[m]));
        assert(r@[m].id@ == found@[k].record.id@);
    }
}

/// Where nothing is set, a payment through Alipay or WeChat is of a thousand at most, and ten
/// thousand a day; through anything else there is no limit.
pub proof fn law_default_limits_are_of_the_type(t: &str, r: MethodDefaultLimits)
    requires
        call_ensures(provider_default_limit, (t,), r),
    ensures
        t@ == "alipay"@ || t@ == "wxpay"@ || t@ == "alipay_direct"@ || t@ == "wxpay_direct"@
            ==> r.single_max_cents == 1_000 * 100 && r.daily_max_cents == 10_000 * 100,
        t@ != "alipay"@ && t@ != "wxpay"@ && t@ != "alipay_direct"@ && t@ != "wxpay_direct"@
            ==> r.single_max_cents == 0 && r.daily_max_cents == 0,
{
}

/// The settings of a type are looked up under its name in capitals.
pub proof fn law_settings_are_named_by_their_type(
    t: &str,
    daily: String,
    single: String,
    fees: (String, Option<String>),
)
    requires
        call_ensures(daily_limit_key, (t,), daily),
        call_ensures(single_limit_key, (t,), single),
        call_ensures(fee_rate_keys, (t,), fees),
    ensures
        daily@ == "MAX_DAILY_AMOUNT_"@ + text::uppered(t@),
        single@ == "MAX_SINGLE_AMOUNT_"@ + text::uppered(t@),
        fees.0@ == "FEE_RATE_"@ + text::uppered(t@),
        t@ == "alipay"@ || t@ == "wxpay"@ ==> (fees.1 matches Some(k) && k@
            == "FEE_RATE_PROVIDER_"@ + text::uppered("easypay"@)),
        t@ == "stripe"@ ==> (fees.1 matches Some(k) && k@ == "FEE_RATE_PROVIDER_"@ + text::uppered(
            "stripe"@,
        )),
{
    reveal_strlit("alipay");
    reveal_strlit("wxpay");
    reveal_strlit("alipay_direct");
    reveal_strlit("wxpay_direct");
    reveal_strlit("stripe");
    assert("alipay"@.len() == 6 && "wxpay"@.len() == 5 && "alipay_direct"@.len() == 13
        && "wxpay_direct"@.len() == 12 && "stripe"@.len() == 6);
    assert("alipay"@[0] == 'a' && "stripe"@[0] == 's');
}

/// Each payment type on offer is shown with what is in force for it: the settings of the type
/// or its defaults, what was paid of it today, and the limits of the instances that serve it.
pub proof fn law_offers_show_what_is_in_force(
    methods: Vec<MethodFacts>,
    instances: Vec<ActiveInstance>,
    usage: TextMap<i64>,
    override_enabled: bool,
    r: Vec<MethodLimit>,
    i: int,
)
    requires
        call_ensures(query_method_limits, (&methods, &instances, &usage, override_enabled), r),
        0 <= i < methods@.len(),
    ensures
        r@.len() == methods@.len(),
        ({
            let m = methods@[i];
            let bounded = m.payment_type@ == "alipay"@ || m.payment_type@ == "wxpay"@
                || m.payment_type@ == "alipay_direct"@ || m.payment_type@ == "wxpay_direct"@;
            let daily = match m.daily_setting_cents {
                Some(c) => c,
                None => if bounded && !override_enabled {
                    1_000_000i64
                } else {
                    0i64
                },
            };
            let single = match m.single_setting_cents {
                Some(c) => c,
                None => if bounded && !override_enabled {
                    100_000i64
                } else {
                    0i64
                },
            };
            r@[i] == limit_status(
                daily,
                single,
                m.used_cents,
                aggregate(instances@, m.payment_type@, usage@),
            )
        }),
{
}

/// An instance takes part with the types that its list names and the limits that it sets.
pub proof fn law_instances_take_part_with_their_types(
    found: FoundInstance,
    r: ActiveInstance,
    t: Seq<char>,
)
    requires
        call_ensures(active_instance, (&found,), r),
    ensures
        text::texts(r.supported_types@) == csv_items(found.record.supported_types@),
        found.limits is None ==> !r.limits@.dom().contains(t),
        r.id@ == found.record.id@ && r.provider_key@ == found.record.provider_key@,
        r.sort_order == found.record.sort_order,
        r.encrypted_config@ == found.record.config@,
{
}

/// The limits of a type are read under their names, as the amounts given there.
pub proof fn law_limits_are_read_by_name(o: Map<Seq<char>, JsonValue>)
    ensures
        ({
            let l = limits_of_type(o);
            let read = |key: Seq<char>|
                if o.dom().contains(key) && o[key].data is Number {
                    o[key].data->number.cents
                } else {
                    None
                };
            &&& l.single_min_cents == read("singleMin"@)
            &&& l.single_max_cents == read("singleMax"@)
            &&& l.daily_limit_cents == read("dailyLimit"@)
        }),
{
}


/// The publishable key is told only where Stripe is on offer: that of the first Stripe instance
/// that has one, where those before it can be read and have none, and else the default.
pub proof fn law_first_publishable_key_is_told(
    key: Seq<u8>,
    types: Seq<Seq<char>>,
    instances: Seq<ActiveInstance>,
    default: Option<Seq<char>>,
    i: int,
    m: Map<Seq<char>, Seq<char>>,
)
    ensures
        !types.contains("stripe"@) ==> publishable_key(key, types, instances, default) == Ok::<
            Option<Seq<char>>,
            Seq<char>,
        >(None),
        types.contains("stripe"@) && (forall|j: int|
            0 <= j < instances.len() ==> (#[trigger] instances[j]).provider_key@ != "stripe"@)
            ==> publishable_key(key, types, instances, default) == Ok::<
            Option<Seq<char>>,
            Seq<char>,
        >(default),
        types.contains("stripe"@) && 0 <= i < instances.len() && instances[i].provider_key@
            == "stripe"@ && stripe_settings(key, instances[i].encrypted_config@) == Ok::<
            Map<Seq<char>, Seq<char>>,
            Seq<char>,
        >(m) && m.dom().contains("publishableKey"@) && m["publishableKey"@].len() > 0 && (
        forall|j: int| 0 <= j < i ==> (#[trigger] instances[j]).provider_key@ != "stripe"@)
            ==> publishable_key(key, types, instances, default) == Ok::<
            Option<Seq<char>>,
            Seq<char>,
        >(Some(m["publishableKey"@])),
{
    lemma_first_publishable(key, instances, default, i, m);
}

proof fn lemma_first_publishable(
    key: Seq<u8>,
    instances: Seq<ActiveInstance>,
    default: Option<Seq<char>>,
    i: int,
    m: Map<Seq<char>, Seq<char>>,
)
    ensures
        (forall|j: int|
            0 <= j < instances.len() ==> (#[trigger] instances[j]).provider_key@ != "stripe"@)
            ==> first_publishable_key(key, instances, default) == Ok::<
            Option<Seq<char>>,
            Seq<char>,
        >(default),
        0 <= i < instances.len() && instances[i].provider_key@ == "stripe"@ && stripe_settings(
            key,
            instances[i].encrypted_config@,
        ) == Ok::<Map<Seq<char>, Seq<char>>, Seq<char>>(m) && m.dom().contains("publishableKey"@)
            && m["publishableKey"@].len() > 0 && (forall|j: int|
            0 <= j < i ==> (#[trigger] instances[j]).provider_key@ != "stripe"@)
            ==> first_publishable_key(key, instances, default) == Ok::<
            Option<Seq<char>>,
            Seq<char>,
        >(Some(m["publishableKey"@])),
    decreases instances.len(),
{
    if instances.len() > 0 {
        let rest = instances.drop_first();
        lemma_first_publishable(key, rest, default, i - 1, m);
        assert forall|j: int| 0 <= j < rest.len() implies #[trigger] rest[j]
            == instances[j + 1] by {}
        if forall|j: int|
            0 <= j < instances.len() ==> (#[trigger] instances[j]).provider_key@ != "stripe"@ {
            assert(instances[0].provider_key@ != "stripe"@);
            assert forall|j: int| 0 <= j < rest.len() implies (#[trigger] rest[j]).provider_key@
                != "stripe"@ by {
                assert(instances[j + 1].provider_key@ != "stripe"@);
            }
        }
        if 0 < i < instances.len() && (forall|j: int|
            0 <= j < i ==> (#[trigger] instances[j]).provider_key@ != "stripe"@) {
            assert(instances[0].provider_key@ != "stripe"@);
            assert(rest[i - 1] == instances[i]);
            assert forall|j: int| 0 <= j < i - 1 implies (#[trigger] rest[j]).provider_key@
                != "stripe"@ by {
                assert(instances[j + 1].provider_key@ != "stripe"@);
            }
        }
    }
}

}
