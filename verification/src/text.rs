//! Text: how strings are compared, cut, joined, and read as numbers.
//!
//! Every function works on the characters of a string (`s@`), and says what it
//! returns by a spec function on sequences of characters.
use vstd::prelude::*;
use vstd::utf8::*;

verus! {

/// `String::push`: appends one character to the end of the string.
pub assume_specification[ String::push ](s: &mut String, c: char)
    ensures
        final(s)@ == old(s)@.push(c),
;

// ---------------------------------------------------------------------------
// Characters
// ---------------------------------------------------------------------------
/// The characters with the Unicode property `White_Space`.
pub open spec fn is_space(c: char) -> bool {
    ||| '\u{9}' <= c <= '\u{d}'
    ||| c == ' '
    ||| c == '\u{85}'
    ||| c == '\u{a0}'
    ||| c == '\u{1680}'
    ||| '\u{2000}' <= c <= '\u{200a}'
    ||| c == '\u{2028}'
    ||| c == '\u{2029}'
    ||| c == '\u{202f}'
    ||| c == '\u{205f}'
    ||| c == '\u{3000}'
}

pub fn is_space_char(c: char) -> (r: bool)
    ensures
        r == is_space(c),
{
    ('\u{9}' <= c && c <= '\u{d}') || c == ' ' || c == '\u{85}' || c == '\u{a0}' || c == '\u{1680}'
        || ('\u{2000}' <= c && c <= '\u{200a}') || c == '\u{2028}' || c == '\u{2029}' || c
        == '\u{202f}' || c == '\u{205f}' || c == '\u{3000}'
}

pub open spec fn is_digit(c: char) -> bool {
    '0' <= c <= '9'
}

pub open spec fn ascii_lower(c: char) -> char {
    if 'A' <= c <= 'Z' {
        (c as int + 32) as char
    } else {
        c
    }
}

pub open spec fn ascii_upper(c: char) -> char {
    if 'a' <= c <= 'z' {
        (c as int - 32) as char
    } else {
        c
    }
}

pub fn ascii_lower_char(c: char) -> (r: char)
    ensures
        r == ascii_lower(c),
{
    if 'A' <= c && c <= 'Z' {
        let b: u8 = c as u8;
        (b + 32) as char
    } else {
        c
    }
}

pub fn ascii_upper_char(c: char) -> (r: char)
    ensures
        r == ascii_upper(c),
{
    if 'a' <= c && c <= 'z' {
        let b: u8 = c as u8;
        (b - 32) as char
    } else {
        c
    }
}

// ---------------------------------------------------------------------------
// Whole strings
// ---------------------------------------------------------------------------
/// The characters of `s`, in order.
pub fn chars_of(s: &str) -> (r: Vec<char>)
    ensures
        r@ == s@,
{
    let mut out: Vec<char> = Vec::new();
    for c in it: s.chars()
        invariant
            out@ == it.seq().take(it.index() as int),
            it.seq() == s@,
    {
        out.push(c);
    }
    out
}

/// Whether two strings hold the same characters.
pub fn same(a: &str, b: &str) -> (r: bool)
    ensures
        r == (a@ == b@),
{
    let xs = a.as_bytes();
    let ys = b.as_bytes();
    if xs.len() != ys.len() {
        return false;
    }
    let mut i: usize = 0;
    while i < xs.len()
        invariant
            i <= xs@.len() == ys@.len(),
            xs@ == encode_utf8(a@),
            ys@ == encode_utf8(b@),
            forall|j: int| 0 <= j < i ==> xs@[j] == ys@[j],
        decreases xs@.len() - i,
    {
        if xs[i] != ys[i] {
            return false;
        }
        i += 1;
    }
    proof {
        assert(xs@ =~= ys@);
        lemma_utf8_injective(a@, b@);
    }
    true
}

/// Two texts, one after the other.
pub fn cat(a: &str, b: &str) -> (r: String)
    ensures
        r@ == a@ + b@,
{
    let mut s = a.to_owned();
    s.append(b);
    s
}

/// Three texts, one after the other.
pub fn cat3(a: &str, b: &str, c: &str) -> (r: String)
    ensures
        r@ == a@ + b@ + c@,
{
    let mut s = a.to_owned();
    s.append(b);
    s.append(c);
    s
}

/// Two strings with the same bytes hold the same characters.
pub proof fn lemma_utf8_injective(a: Seq<char>, b: Seq<char>)
    requires
        encode_utf8(a) == encode_utf8(b),
    ensures
        a == b,
{
    encode_utf8_decode_utf8(a);
    encode_utf8_decode_utf8(b);
}

// ---------------------------------------------------------------------------
// Trimming
// ---------------------------------------------------------------------------
pub open spec fn trimmed_start(s: Seq<char>) -> Seq<char>
    decreases s.len(),
{
    if s.len() > 0 && is_space(s[0]) {
        trimmed_start(s.drop_first())
    } else {
        s
    }
}

pub open spec fn trimmed_end(s: Seq<char>) -> Seq<char>
    decreases s.len(),
{
    if s.len() > 0 && is_space(s.last()) {
        trimmed_end(s.drop_last())
    } else {
        s
    }
}

/// `s` without the white space at its two ends.
pub open spec fn trimmed(s: Seq<char>) -> Seq<char> {
    trimmed_end(trimmed_start(s))
}

pub fn trim<'a>(s: &'a str) -> (r: &'a str)
    ensures
        r@ == trimmed(s@),
{
    let chars = chars_of(s);
    let mut lo: usize = 0;
    assert(s@.skip(0) == s@);
    while lo < chars.len() && is_space_char(chars[lo])
        invariant
            lo <= chars@.len(),
            chars@ == s@,
            trimmed_start(s@) == trimmed_start(s@.skip(lo as int)),
        decreases chars@.len() - lo,
    {
        assert(s@.skip(lo as int).drop_first() == s@.skip(lo + 1));
        lo += 1;
    }
    let ghost rest = s@.skip(lo as int);
    assert(trimmed_start(s@) == rest);
    let mut hi: usize = chars.len();
    assert(rest.take(hi - lo) == rest);
    while lo < hi && is_space_char(chars[hi - 1])
        invariant
            lo <= hi <= chars@.len(),
            chars@ == s@,
            rest == s@.skip(lo as int),
            trimmed_end(rest) == trimmed_end(rest.take(hi - lo)),
        decreases hi,
    {
        assert(rest.take(hi - lo).drop_last() == rest.take(hi - lo - 1));
        hi -= 1;
    }
    assert(rest.take(hi - lo) == s@.subrange(lo as int, hi as int));
    s.substring_char(lo, hi)
}

/// Trimming leaves no white space at either end, and what is trimmed stays so.
pub proof fn lemma_trimmed(s: Seq<char>)
    ensures
        trimmed(s).len() <= s.len(),
        trimmed(s).len() > 0 ==> !is_space(trimmed(s)[0]) && !is_space(trimmed(s).last()),
        trimmed(trimmed(s)) == trimmed(s),
{
    lemma_trimmed_start(s);
    lemma_trimmed_end(trimmed_start(s));
}

proof fn lemma_trimmed_start(s: Seq<char>)
    ensures
        trimmed_start(s).len() <= s.len(),
        trimmed_start(s).len() > 0 ==> !is_space(trimmed_start(s)[0]),
    decreases s.len(),
{
    if s.len() > 0 && is_space(s[0]) {
        lemma_trimmed_start(s.drop_first());
    }
}

proof fn lemma_trimmed_end(s: Seq<char>)
    ensures
        trimmed_end(s).len() <= s.len(),
        trimmed_end(s).len() > 0 ==> !is_space(trimmed_end(s).last()) && trimmed_end(s)[0] == s[0],
    decreases s.len(),
{
    if s.len() > 0 && is_space(s.last()) {
        lemma_trimmed_end(s.drop_last());
    }
}

/// A text without white space at its ends stays as it is.
pub proof fn lemma_trimmed_already(s: Seq<char>)
    requires
        s.len() > 0 ==> !is_space(s[0]) && !is_space(s.last()),
    ensures
        trimmed(s) == s,
{
}

/// `s` without the characters `c` at its end.
pub open spec fn without_trailing(s: Seq<char>, c: char) -> Seq<char>
    decreases s.len(),
{
    if s.len() > 0 && s.last() == c {
        without_trailing(s.drop_last(), c)
    } else {
        s
    }
}

pub fn trim_end_matches<'a>(s: &'a str, c: char) -> (r: &'a str)
    ensures
        r@ == without_trailing(s@, c),
{
    let chars = chars_of(s);
    let mut hi: usize = chars.len();
    assert(s@.take(hi as int) == s@);
    while 0 < hi && chars[hi - 1] == c
        invariant
            hi <= chars@.len(),
            chars@ == s@,
            without_trailing(s@, c) == without_trailing(s@.take(hi as int), c),
        decreases hi,
    {
        assert(s@.take(hi as int).drop_last() == s@.take(hi - 1));
        hi -= 1;
    }
    s.substring_char(0, hi)
}

// ---------------------------------------------------------------------------
// Case and search
// ---------------------------------------------------------------------------
pub open spec fn lowered(s: Seq<char>) -> Seq<char> {
    s.map_values(|c: char| ascii_lower(c))
}

pub open spec fn uppered(s: Seq<char>) -> Seq<char> {
    s.map_values(|c: char| ascii_upper(c))
}

pub fn to_ascii_lowercase(s: &str) -> (r: String)
    ensures
        r@ == lowered(s@),
{
    let mut out = String::new();
    for c in it: s.chars()
        invariant
            out@ == lowered(it.seq().take(it.index() as int)),
            it.seq() == s@,
    {
        out.push(ascii_lower_char(c));
    }
    out
}

pub fn to_ascii_uppercase(s: &str) -> (r: String)
    ensures
        r@ == uppered(s@),
{
    let mut out = String::new();
    for c in it: s.chars()
        invariant
            out@ == uppered(it.seq().take(it.index() as int)),
            it.seq() == s@,
    {
        out.push(ascii_upper_char(c));
    }
    out
}

/// Whether `part` occurs somewhere in `s`.
pub open spec fn occurs_in(part: Seq<char>, s: Seq<char>) -> bool {
    exists|i: int| occurs_at(part, s, i)
}

pub open spec fn occurs_at(part: Seq<char>, s: Seq<char>, i: int) -> bool {
    0 <= i <= s.len() - part.len() && s.subrange(i, i + part.len()) == part
}

/// Whether the characters of `s` from `at` on begin with `part`.
fn matches_at(s: &Vec<char>, part: &Vec<char>, at: usize) -> (r: bool)
    requires
        at + part@.len() <= s@.len(),
    ensures
        r == occurs_at(part@, s@, at as int),
{
    let n: usize = s.len();
    let mut i: usize = 0;
    while i < part.len()
        invariant
            i <= part@.len(),
            at + part@.len() <= s@.len() == n,
            forall|j: int| 0 <= j < i ==> s@[at + j] == part@[j],
        decreases part@.len() - i,
    {
        if s[at + i] != part[i] {
            assert(s@.subrange(at as int, at + part@.len())[i as int] == s@[at + i]);
            return false;
        }
        i += 1;
    }
    assert(s@.subrange(at as int, at + part@.len()) =~= part@);
    true
}

pub fn contains(s: &str, part: &str) -> (r: bool)
    ensures
        r == occurs_in(part@, s@),
{
    let a = chars_of(s);
    let b = chars_of(part);
    if a.len() < b.len() {
        return false;
    }
    let mut i: usize = 0;
    while i <= a.len() - b.len()
        invariant
            b@.len() <= a@.len(),
            i <= a@.len() - b@.len() + 1,
            a@ == s@,
            b@ == part@,
            forall|j: int| 0 <= j < i ==> !#[trigger] occurs_at(part@, s@, j),
        decreases a@.len() - i,
    {
        if matches_at(&a, &b, i) {
            return true;
        }
        if i == a.len() - b.len() {
            return false;
        }
        i += 1;
    }
    false
}

pub fn starts_with(s: &str, prefix: &str) -> (r: bool)
    ensures
        r == prefix@.is_prefix_of(s@),
{
    strip_prefix(s, prefix).is_some()
}

/// What follows `prefix` in `s`, where `s` begins with it.
pub fn strip_prefix<'a>(s: &'a str, prefix: &str) -> (r: Option<&'a str>)
    ensures
        r is Some <==> prefix@.is_prefix_of(s@),
        r matches Some(rest) ==> rest@ == s@.skip(prefix@.len() as int),
{
    let a = chars_of(s);
    let b = chars_of(prefix);
    if a.len() < b.len() {
        return None;
    }
    if matches_at(&a, &b, 0) {
        Some(s.substring_char(b.len(), a.len()))
    } else {
        None
    }
}

pub open spec fn is_suffix(suffix: Seq<char>, s: Seq<char>) -> bool {
    suffix.len() <= s.len() && s.skip(s.len() - suffix.len()) == suffix
}

/// What stands before `suffix` in `s`, where `s` ends with it.
pub fn strip_suffix<'a>(s: &'a str, suffix: &str) -> (r: Option<&'a str>)
    ensures
        r is Some <==> is_suffix(suffix@, s@),
        r matches Some(rest) ==> rest@ == s@.take(s@.len() - suffix@.len()),
{
    let a = chars_of(s);
    let b = chars_of(suffix);
    if a.len() < b.len() {
        return None;
    }
    let at: usize = a.len() - b.len();
    assert(a@.subrange(at as int, at + b@.len()) == a@.skip(at as int));
    if matches_at(&a, &b, at) {
        Some(s.substring_char(0, at))
    } else {
        None
    }
}

/// `s` without `prefix` at its start, as often as it stands there.
pub open spec fn stripped_start(s: Seq<char>, prefix: Seq<char>) -> Seq<char>
    decreases s.len(),
{
    if prefix.len() > 0 && prefix.is_prefix_of(s) {
        stripped_start(s.skip(prefix.len() as int), prefix)
    } else {
        s
    }
}

pub fn strip_all_prefixes<'a>(s: &'a str, prefix: &str) -> (r: &'a str)
    ensures
        r@ == stripped_start(s@, prefix@),
{
    let mut rest = s;
    if prefix.is_empty() {
        return rest;
    }
    while starts_with(rest, prefix)
        invariant
            prefix@.len() > 0,
            stripped_start(rest@, prefix@) == stripped_start(s@, prefix@),
        decreases rest@.len(),
    {
        rest = match strip_prefix(rest, prefix) {
            Some(t) => t,
            None => rest,
        };
    }
    rest
}

/// `s` without `suffix` at its end, as often as it stands there.
pub open spec fn stripped_end(s: Seq<char>, suffix: Seq<char>) -> Seq<char>
    decreases s.len(),
{
    if suffix.len() > 0 && is_suffix(suffix, s) {
        stripped_end(s.take(s.len() - suffix.len()), suffix)
    } else {
        s
    }
}

pub fn strip_all_suffixes<'a>(s: &'a str, suffix: &str) -> (r: &'a str)
    ensures
        r@ == stripped_end(s@, suffix@),
{
    let mut rest = s;
    if suffix.is_empty() {
        return rest;
    }
    while strip_suffix(rest, suffix).is_some()
        invariant
            suffix@.len() > 0,
            stripped_end(rest@, suffix@) == stripped_end(s@, suffix@),
        decreases rest@.len(),
    {
        rest = match strip_suffix(rest, suffix) {
            Some(t) => t,
            None => rest,
        };
    }
    rest
}

/// How often `c` stands in `s`.
pub open spec fn occurrences(s: Seq<char>, c: char) -> nat
    decreases s.len(),
{
    if s.len() == 0 {
        0
    } else {
        occurrences(s.drop_last(), c) + if s.last() == c {
            1nat
        } else {
            0
        }
    }
}

pub proof fn lemma_occurrences_bound(s: Seq<char>, c: char)
    ensures
        occurrences(s, c) <= s.len(),
    decreases s.len(),
{
    if s.len() > 0 {
        lemma_occurrences_bound(s.drop_last(), c);
    }
}

pub fn count(s: &str, c: char) -> (r: usize)
    ensures
        r == occurrences(s@, c),
{
    let chars = chars_of(s);
    let mut i: usize = 0;
    let mut n: usize = 0;
    while i < chars.len()
        invariant
            i <= chars@.len(),
            chars@ == s@,
            n <= i,
            n == occurrences(s@.take(i as int), c),
        decreases chars@.len() - i,
    {
        assert(s@.take(i + 1).drop_last() == s@.take(i as int));
        if chars[i] == c {
            n += 1;
        }
        i += 1;
    }
    assert(s@.take(i as int) == s@);
    n
}

// ---------------------------------------------------------------------------
// Cutting and joining
// ---------------------------------------------------------------------------
/// The contents of a list of strings.
pub open spec fn texts(v: Seq<String>) -> Seq<Seq<char>> {
    v.map_values(|s: String| s@)
}

/// The pieces of `s` between the separators: one more than there are separators.
pub open spec fn pieces(s: Seq<char>, sep: char) -> Seq<Seq<char>>
    decreases s.len(),
{
    if s.len() == 0 {
        seq![s]
    } else {
        let before = pieces(s.drop_last(), sep);
        if s.last() == sep {
            before.push(Seq::empty())
        } else {
            before.update(before.len() - 1, before.last().push(s.last()))
        }
    }
}

pub proof fn lemma_pieces_count(s: Seq<char>, sep: char)
    ensures
        pieces(s, sep).len() == occurrences(s, sep) + 1,
    decreases s.len(),
{
    if s.len() > 0 {
        lemma_pieces_count(s.drop_last(), sep);
    }
}

/// What holds no separator is one piece.
pub proof fn lemma_one_piece(s: Seq<char>, sep: char)
    requires
        !s.contains(sep),
    ensures
        pieces(s, sep) == seq![s],
    decreases s.len(),
{
    if s.len() > 0 {
        let before = s.drop_last();
        assert(!before.contains(sep)) by {
            if before.contains(sep) {
                let i = choose|i: int| 0 <= i < before.len() && before[i] == sep;
                assert(s[i] == sep);
            }
        }
        lemma_one_piece(before, sep);
        assert(s.last() == s[s.len() - 1]);
        assert(before.push(s.last()) == s);
        assert(pieces(s, sep) == seq![s]);
    }
}

/// What follows the last separator is the last piece.
pub proof fn lemma_last_piece(s: Seq<char>, t: Seq<char>, sep: char)
    requires
        !t.contains(sep),
    ensures
        pieces(s.push(sep) + t, sep) == pieces(s, sep).push(t),
    decreases t.len(),
{
    let all = s.push(sep) + t;
    if t.len() == 0 {
        assert(all == s.push(sep));
        assert(all.drop_last() == s);
        assert(t == Seq::<char>::empty());
    } else {
        let before = t.drop_last();
        assert(!before.contains(sep)) by {
            if before.contains(sep) {
                let i = choose|i: int| 0 <= i < before.len() && before[i] == sep;
                assert(t[i] == sep);
            }
        }
        lemma_last_piece(s, before, sep);
        assert(all.drop_last() == s.push(sep) + before);
        assert(t.last() == t[t.len() - 1]);
        assert(all.last() == t.last());
        assert(before.push(t.last()) == t);
        assert(pieces(all, sep) == pieces(s, sep).push(t));
    }
}

pub fn split(s: &str, sep: char) -> (r: Vec<String>)
    ensures
        texts(r@) == pieces(s@, sep),
        r@.len() > 0,
{
    let chars = chars_of(s);
    let mut out: Vec<String> = Vec::new();
    let mut cur = String::new();
    let mut i: usize = 0;
    assert(s@.take(0) == Seq::<char>::empty());
    assert(texts(out@).push(cur@) == seq![Seq::<char>::empty()]);
    while i < chars.len()
        invariant
            i <= chars@.len(),
            chars@ == s@,
            texts(out@).push(cur@) == pieces(s@.take(i as int), sep),
        decreases chars@.len() - i,
    {
        let ghost before = texts(out@).push(cur@);
        assert(s@.take(i + 1).drop_last() == s@.take(i as int));
        if chars[i] == sep {
            out.push(cur);
            cur = String::new();
            assert(texts(out@).push(cur@) == before.push(Seq::empty()));
        } else {
            cur.push(chars[i]);
            assert(texts(out@).push(cur@) == before.update(
                before.len() - 1,
                before.last().push(chars@[i as int]),
            ));
        }
        i += 1;
    }
    assert(s@.take(i as int) == s@);
    let ghost before = texts(out@).push(cur@);
    out.push(cur);
    assert(texts(out@) == before);
    out
}

/// The parts in order, with `sep` between each two.
pub open spec fn joined(parts: Seq<Seq<char>>, sep: Seq<char>) -> Seq<char>
    decreases parts.len(),
{
    if parts.len() == 0 {
        Seq::empty()
    } else if parts.len() == 1 {
        parts[0]
    } else {
        joined(parts.drop_last(), sep) + sep + parts.last()
    }
}

pub fn join(parts: &Vec<String>, sep: &str) -> (r: String)
    ensures
        r@ == joined(texts(parts@), sep@),
{
    let mut out = String::new();
    let mut i: usize = 0;
    while i < parts.len()
        invariant
            i <= parts@.len(),
            out@ == joined(texts(parts@).take(i as int), sep@),
        decreases parts@.len() - i,
    {
        let ghost all = texts(parts@);
        assert(all.take(i + 1).drop_last() == all.take(i as int));
        if i > 0 {
            out.append(sep);
        }
        out.append(parts[i].as_str());
        i += 1;
    }
    assert(texts(parts@).take(i as int) == texts(parts@));
    out
}

/// `s` without the characters `c`.
pub open spec fn without(s: Seq<char>, c: char) -> Seq<char>
    decreases s.len(),
{
    if s.len() == 0 {
        s
    } else if s.last() == c {
        without(s.drop_last(), c)
    } else {
        without(s.drop_last(), c).push(s.last())
    }
}

pub fn remove_char(s: &str, c: char) -> (r: String)
    ensures
        r@ == without(s@, c),
{
    let chars = chars_of(s);
    let mut out = String::new();
    let mut i: usize = 0;
    while i < chars.len()
        invariant
            i <= chars@.len(),
            chars@ == s@,
            out@ == without(s@.take(i as int), c),
        decreases chars@.len() - i,
    {
        assert(s@.take(i + 1).drop_last() == s@.take(i as int));
        if chars[i] != c {
            out.push(chars[i]);
        }
        i += 1;
    }
    assert(s@.take(i as int) == s@);
    out
}

// ---------------------------------------------------------------------------
// Numbers
// ---------------------------------------------------------------------------
pub open spec fn digit(d: nat) -> char {
    (48 + d) as char
}

/// A natural number in decimal, without leading zeros.
pub open spec fn digits(n: nat) -> Seq<char>
    decreases n,
{
    if n < 10 {
        seq![digit(n)]
    } else {
        digits(n / 10).push(digit(n % 10))
    }
}

/// An integer in decimal, with a leading `-` where it is negative.
pub open spec fn decimal(n: int) -> Seq<char> {
    if n < 0 {
        seq!['-'] + digits((-n) as nat)
    } else {
        digits(n as nat)
    }
}

fn push_digits(out: &mut String, n: u64)
    ensures
        final(out)@ == old(out)@ + digits(n as nat),
    decreases n,
{
    if n >= 10 {
        push_digits(out, n / 10);
    }
    let d: u8 = (n % 10) as u8;
    out.push((48 + d) as char);
}

pub fn i64_text(n: i64) -> (r: String)
    ensures
        r@ == decimal(n as int),
{
    let mut out = String::new();
    if n < 0 {
        out.push('-');
        let m: i128 = -(n as i128);
        push_digits(&mut out, m as u64);
        assert(out@ =~= decimal(n as int));
    } else {
        push_digits(&mut out, n as u64);
        assert(out@ =~= decimal(n as int));
    }
    out
}

pub fn u64_text(n: u64) -> (r: String)
    ensures
        r@ == decimal(n as int),
{
    let mut out = String::new();
    push_digits(&mut out, n);
    assert(out@ =~= decimal(n as int));
    out
}

pub open spec fn all_digits(s: Seq<char>) -> bool {
    s.len() > 0 && forall|i: int| 0 <= i < s.len() ==> is_digit(#[trigger] s[i])
}

pub open spec fn digits_value(s: Seq<char>) -> nat
    decreases s.len(),
{
    if s.len() == 0 {
        0
    } else {
        (digits_value(s.drop_last()) * 10 + (s.last() as int - 48)) as nat
    }
}

/// The integer that `s` writes: an optional sign, then digits only.
pub open spec fn integer_in(s: Seq<char>) -> Option<int> {
    if s.len() > 0 && s[0] == '-' {
        if all_digits(s.skip(1)) {
            Some(-(digits_value(s.skip(1)) as int))
        } else {
            None
        }
    } else {
        natural_in(s)
    }
}

/// The number that `s` writes: an optional `+`, then digits only.
pub open spec fn natural_in(s: Seq<char>) -> Option<int> {
    let rest = if s.len() > 0 && s[0] == '+' {
        s.skip(1)
    } else {
        s
    };
    if all_digits(rest) {
        Some(digits_value(rest) as int)
    } else {
        None
    }
}

pub open spec fn within(n: Option<int>, lo: int, hi: int) -> Option<int> {
    match n {
        Some(v) => if lo <= v <= hi {
            Some(v)
        } else {
            None
        },
        None => None,
    }
}

/// The `i64` that `s` writes, if it writes one.
pub open spec fn i64_in(s: Seq<char>) -> Option<int> {
    within(integer_in(s), i64::MIN as int, i64::MAX as int)
}

/// The unsigned number up to `max` that `s` writes, if it writes one.
pub open spec fn unsigned_in(s: Seq<char>, max: int) -> Option<int> {
    within(natural_in(s), 0, max)
}

enum Magnitude {
    Malformed,
    TooLarge,
    Value(u64),
}

/// Reads the characters from `from` on as digits.
fn read_digits(chars: &Vec<char>, from: usize) -> (r: Magnitude)
    requires
        from <= chars@.len(),
    ensures
        match r {
            Magnitude::Malformed => !all_digits(chars@.skip(from as int)),
            Magnitude::TooLarge => all_digits(chars@.skip(from as int)) && digits_value(
                chars@.skip(from as int),
            ) > u64::MAX,
            Magnitude::Value(v) => all_digits(chars@.skip(from as int)) && digits_value(
                chars@.skip(from as int),
            ) == v,
        },
{
    let ghost rest = chars@.skip(from as int);
    if from == chars.len() {
        return Magnitude::Malformed;
    }
    let mut i: usize = from;
    let mut acc: u64 = 0;
    let mut fits: bool = true;
    while i < chars.len()
        invariant
            from <= i <= chars@.len(),
            rest == chars@.skip(from as int),
            forall|j: int| 0 <= j < i - from ==> is_digit(#[trigger] rest[j]),
            fits ==> acc == digits_value(rest.take(i - from)),
            !fits ==> digits_value(rest.take(i - from)) > u64::MAX,
        decreases chars@.len() - i,
    {
        let c: char = chars[i];
        assert(rest[i - from] == c);
        if !('0' <= c && c <= '9') {
            assert(!is_digit(rest[i - from]));
            return Magnitude::Malformed;
        }
        assert(rest.take(i + 1 - from).drop_last() == rest.take(i - from));
        assert(rest.take(i + 1 - from).last() == c);
        if fits {
            let d: u64 = (c as u64) - 48;
            let next: u128 = (acc as u128) * 10 + (d as u128);
            if next <= 18446744073709551615 {
                acc = next as u64;
            } else {
                fits = false;
            }
        }
        i += 1;
    }
    assert(rest.take(i - from) == rest);
    if fits {
        Magnitude::Value(acc)
    } else {
        Magnitude::TooLarge
    }
}

pub fn parse_i64(s: &str) -> (r: Option<i64>)
    ensures
        r is Some <==> i64_in(s@) is Some,
        r matches Some(v) ==> i64_in(s@) == Some(v as int),
{
    let chars = chars_of(s);
    if chars.len() > 0 && chars[0] == '-' {
        match read_digits(&chars, 1) {
            Magnitude::Value(v) => {
                if v <= 9223372036854775808 {
                    Some((-(v as i128)) as i64)
                } else {
                    None
                }
            },
            _ => None,
        }
    } else {
        match parse_u64(s) {
            Some(v) => {
                if v <= 9223372036854775807 {
                    Some(v as i64)
                } else {
                    None
                }
            },
            None => None,
        }
    }
}

pub fn parse_u64(s: &str) -> (r: Option<u64>)
    ensures
        r is Some <==> unsigned_in(s@, u64::MAX as int) is Some,
        r matches Some(v) ==> unsigned_in(s@, u64::MAX as int) == Some(v as int),
{
    let chars = chars_of(s);
    let from: usize = if chars.len() > 0 && chars[0] == '+' {
        1
    } else {
        0
    };
    assert(s@.skip(0) == s@);
    match read_digits(&chars, from) {
        Magnitude::Value(v) => Some(v),
        _ => None,
    }
}

pub fn parse_u16(s: &str) -> (r: Option<u16>)
    ensures
        r is Some <==> unsigned_in(s@, u16::MAX as int) is Some,
        r matches Some(v) ==> unsigned_in(s@, u16::MAX as int) == Some(v as int),
{
    match parse_u64(s) {
        Some(v) => {
            if v <= 65535 {
                Some(v as u16)
            } else {
                None
            }
        },
        None => None,
    }
}

pub proof fn lemma_digits_read_back(n: nat)
    ensures
        all_digits(digits(n)),
        digits_value(digits(n)) == n,
        digits(n)[0] != '-',
        digits(n)[0] != '+',
    decreases n,
{
    let s = digits(n);
    if n < 10 {
        assert(s.drop_last() == Seq::<char>::empty());
        assert(digits_value(s.drop_last()) == 0);
        assert(s.last() == digit(n));
    } else {
        lemma_digits_read_back(n / 10);
        assert(s.last() == digit(n % 10));
        assert(s.drop_last() == digits(n / 10));
        assert(s[0] == digits(n / 10)[0]);
    }
}

/// The decimal text of a number holds digits, and a sign at most.
pub proof fn lemma_decimal_chars(n: int)
    ensures
        decimal(n).len() > 0,
        forall|i: int|
            0 <= i < decimal(n).len() ==> is_digit(
                #[trigger] decimal(n)[i],
            ) || decimal(n)[i] == '-',
{
    if n < 0 {
        lemma_digits_read_back((-n) as nat);
        let d = digits((-n) as nat);
        assert forall|i: int| 0 <= i < decimal(n).len() implies is_digit(#[trigger] decimal(n)[i])
            || decimal(n)[i] == '-' by {
            if i > 0 {
                assert(decimal(n)[i] == d[i - 1]);
            }
        }
    } else {
        lemma_digits_read_back(n as nat);
    }
}

/// Every `i64` is read back from its decimal text.
pub proof fn law_decimal_read_back(n: i64)
    ensures
        i64_in(decimal(n as int)) == Some(n as int),
{
    if n < 0 {
        lemma_digits_read_back((-n) as nat);
        assert(decimal(n as int).skip(1) == digits((-n) as nat));
    } else {
        lemma_digits_read_back(n as nat);
    }
}

/// What is left of a text without the space at its ends is what stands between: nothing but
/// space stands before it and after it, and it neither begins nor ends with any.
pub proof fn law_only_the_ends_are_trimmed(s: Seq<char>)
    ensures
        exists|a: int, b: int| #![trigger s.subrange(a, b)]
            0 <= a <= b <= s.len() && trimmed(s) == s.subrange(a, b) && (forall|i: int|
                0 <= i < a ==> is_space(#[trigger] s[i])) && (forall|i: int|
                b <= i < s.len() ==> is_space(#[trigger] s[i])) && (a < b ==> !is_space(s[a])
                && !is_space(s[b - 1])),
{
    let a = lemma_start_cut(s);
    let t = trimmed_start(s);
    let n = lemma_end_cut(t);
    let b = a + n;
    assert(t == s.skip(a));
    assert(trimmed(s) =~= s.subrange(a, b));
    assert forall|i: int| b <= i < s.len() implies is_space(#[trigger] s[i]) by {
        assert(t[i - a] == s[i]);
    }
    lemma_trimmed_start(s);
    lemma_trimmed_end(t);
    if a < b {
        assert(trimmed(s)[0] == s[a]);
        assert(trimmed(s).last() == s[b - 1]);
    }
}

proof fn lemma_start_cut(s: Seq<char>) -> (a: int)
    ensures
        0 <= a <= s.len(),
        trimmed_start(s) == s.skip(a),
        forall|i: int| 0 <= i < a ==> is_space(#[trigger] s[i]),
    decreases s.len(),
{
    if s.len() > 0 && is_space(s[0]) {
        let rest = s.drop_first();
        let a = lemma_start_cut(rest);
        assert(rest.skip(a) =~= s.skip(a + 1));
        assert forall|i: int| 0 <= i < a + 1 implies is_space(#[trigger] s[i]) by {
            if i > 0 {
                assert(rest[i - 1] == s[i]);
            }
        }
        a + 1
    } else {
        assert(s.skip(0) =~= s);
        0
    }
}

proof fn lemma_end_cut(s: Seq<char>) -> (n: int)
    ensures
        0 <= n <= s.len(),
        trimmed_end(s) == s.take(n),
        forall|i: int| n <= i < s.len() ==> is_space(#[trigger] s[i]),
    decreases s.len(),
{
    if s.len() > 0 && is_space(s.last()) {
        let rest = s.drop_last();
        let n = lemma_end_cut(rest);
        assert(rest.take(n) =~= s.take(n));
        assert forall|i: int| n <= i < s.len() implies is_space(#[trigger] s[i]) by {
            if i < rest.len() {
                assert(rest[i] == s[i]);
            }
        }
        n
    } else {
        assert(s.take(s.len() as int) =~= s);
        s.len() as int
    }
}

/// The pieces of a text hold no separator, and with one between each two make the text again.
pub proof fn law_pieces_make_the_text_again(s: Seq<char>, sep: char)
    ensures
        pieces(s, sep).len() > 0,
        forall|i: int| 0 <= i < pieces(s, sep).len() ==> !(#[trigger] pieces(s, sep)[i]).contains(
            sep,
        ),
        joined(pieces(s, sep), seq![sep]) == s,
    decreases s.len(),
{
    let all = pieces(s, sep);
    if s.len() == 0 {
        assert(all.len() == 1 && all[0] == s);
        assert(!s.contains(sep));
    } else {
        let before = pieces(s.drop_last(), sep);
        law_pieces_make_the_text_again(s.drop_last(), sep);
        let n = before.len() as int;
        if s.last() == sep {
            assert(all.drop_last() =~= before);
            assert(joined(all, seq![sep]) =~= s.drop_last().push(sep));
            assert forall|i: int| 0 <= i < all.len() implies !(#[trigger] all[i]).contains(sep) by {
                if i < n {
                    assert(all[i] == before[i]);
                }
            }
        } else {
            let grown = before.last().push(s.last());
            assert(all[n - 1] == grown);
            assert forall|i: int| 0 <= i < all.len() implies !(#[trigger] all[i]).contains(sep) by {
                if i < n - 1 {
                    assert(all[i] == before[i]);
                } else if grown.contains(sep) {
                    let j = choose|j: int| 0 <= j < grown.len() && grown[j] == sep;
                    assert(before[n - 1][j] == sep);
                    assert(before[n - 1].contains(sep));
                }
            }
            if n == 1 {
                assert(joined(all, seq![sep]) == grown);
                assert(joined(before, seq![sep]) == before[0]);
            } else {
                assert(all.drop_last() =~= before.drop_last());
                assert(joined(all, seq![sep]) =~= joined(before, seq![sep]).push(s.last()));
            }
        }
        assert(s =~= s.drop_last().push(s.last()));
    }
}

/// What is left of a text without a character at its end is the beginning of the text, and
/// does not end with it; only that character was taken off.
pub proof fn law_only_the_end_is_taken_off(s: Seq<char>, c: char)
    ensures
        without_trailing(s, c).len() <= s.len(),
        without_trailing(s, c) == s.take(without_trailing(s, c).len() as int),
        forall|i: int| without_trailing(s, c).len() <= i < s.len() ==> #[trigger] s[i] == c,
        without_trailing(s, c).len() > 0 ==> without_trailing(s, c).last() != c,
    decreases s.len(),
{
    if s.len() > 0 && s.last() == c {
        let rest = s.drop_last();
        law_only_the_end_is_taken_off(rest, c);
        let n = without_trailing(s, c).len() as int;
        assert(rest.take(n) =~= s.take(n));
        assert forall|i: int| n <= i < s.len() implies #[trigger] s[i] == c by {
            if i < rest.len() {
                assert(rest[i] == c);
            }
        }
    } else {
        assert(s.take(s.len() as int) =~= s);
    }
}

/// In lower case the capital letters of ASCII become small ones, and nothing else changes; in
/// upper case the other way round.
pub proof fn law_only_letters_change_their_case(s: Seq<char>, i: int)
    requires
        0 <= i < s.len(),
    ensures
        lowered(s).len() == s.len(),
        uppered(s).len() == s.len(),
        'A' <= s[i] <= 'Z' ==> lowered(s)[i] as int == s[i] as int + ('a' as int - 'A' as int),
        !('A' <= s[i] <= 'Z') ==> lowered(s)[i] == s[i],
        'a' <= s[i] <= 'z' ==> uppered(s)[i] as int == s[i] as int - ('a' as int - 'A' as int),
        !('a' <= s[i] <= 'z') ==> uppered(s)[i] == s[i],
{
}

/// Only whole copies of a text are taken off the start of another, and none is left there;
/// likewise at its end.
pub proof fn law_only_whole_copies_are_taken_off(s: Seq<char>, part: Seq<char>)
    requires
        part.len() > 0,
    ensures
        !part.is_prefix_of(stripped_start(s, part)),
        is_suffix(stripped_start(s, part), s),
        !is_suffix(part, stripped_end(s, part)),
        stripped_end(s, part).is_prefix_of(s),
        !part.is_prefix_of(s) ==> stripped_start(s, part) == s,
        !is_suffix(part, s) ==> stripped_end(s, part) == s,
        part.is_prefix_of(s) ==> stripped_start(s, part).len() <= s.len() - part.len(),
        is_suffix(part, s) ==> stripped_end(s, part).len() <= s.len() - part.len(),
    decreases s.len(),
{
    assert(s.skip(0) =~= s);
    if part.is_prefix_of(s) {
        let rest = s.skip(part.len() as int);
        law_only_whole_copies_are_taken_off(rest, part);
        let left = stripped_start(rest, part);
        assert(s.skip(s.len() - left.len()) =~= rest.skip(rest.len() - left.len()));
    }
    if is_suffix(part, s) {
        let rest = s.take(s.len() - part.len());
        law_only_whole_copies_are_taken_off(rest, part);
    }
}

}
