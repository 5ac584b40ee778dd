//! Amounts of money as text.
use vstd::prelude::*;

use crate::text;

verus! {

/// An amount of no less than zero cents as a decimal number with two places.
pub open spec fn magnitude(cents: int) -> Seq<char> {
    text::digits((cents / 100) as nat) + seq![
        '.',
        text::digit(((cents / 10) % 10) as nat),
        text::digit((cents % 10) as nat),
    ]
}

/// An amount in cents as a decimal number with two places.
pub open spec fn amount(cents: int) -> Seq<char> {
    if cents < 0 {
        seq!['-'] + magnitude(-cents)
    } else {
        magnitude(cents)
    }
}

fn digit_char(d: u64) -> (r: char)
    requires
        d < 10,
    ensures
        r == text::digit(d as nat),
{
    let b: u8 = d as u8;
    (48 + b) as char
}

fn magnitude_text(n: u64) -> (r: String)
    ensures
        r@ == magnitude(n as int),
{
    let mut s = text::u64_text(n / 100);
    s.push('.');
    s.push(digit_char((n / 10) % 10));
    s.push(digit_char(n % 10));
    assert(s@ =~= magnitude(n as int));
    s
}

pub fn amount_text(cents: i64) -> (r: String)
    ensures
        r@ == amount(cents as int),
{
    if cents < 0 {
        let n: i128 = -(cents as i128);
        let mut s = "-".to_owned();
        let rest = magnitude_text(n as u64);
        s.append(rest.as_str());
        proof {
            reveal_strlit("-");
            assert("-"@ =~= seq!['-']);
        }
        s
    } else {
        magnitude_text(cents as u64)
    }
}

/// The text of an amount tells it: what stands before its point, times a hundred, and the two
/// digits after the point add up to the cents, under a minus sign where they are owed.
pub proof fn law_amount_texts_tell_the_cents(cents: int)
    ensures
        ({
            let s = amount(cents);
            let unsigned = if cents < 0 { s.skip(1) } else { s };
            let n = unsigned.len() as int;
            &&& cents < 0 ==> s.len() > 0 && s[0] == '-'
            &&& n >= 4
            &&& unsigned[n - 3] == '.'
            &&& text::natural_in(unsigned.take(n - 3)) is Some
            &&& text::natural_in(unsigned.skip(n - 2)) is Some
            &&& text::natural_in(unsigned.take(n - 3))->0 * 100 + text::natural_in(
                unsigned.skip(n - 2),
            )->0 == if cents < 0 { -cents } else { cents }
        }),
{
    let c = if cents < 0 { -cents } else { cents };
    let s = amount(cents);
    let unsigned = if cents < 0 { s.skip(1) } else { s };
    assert(unsigned =~= magnitude(c));
    let whole = text::digits((c / 100) as nat);
    let n = unsigned.len() as int;
    assert(unsigned.take(n - 3) =~= whole);
    text::lemma_digits_read_back((c / 100) as nat);
    let d1 = text::digit(((c / 10) % 10) as nat);
    let d2 = text::digit((c % 10) as nat);
    let tail = unsigned.skip(n - 2);
    assert(tail =~= seq![d1, d2]);
    assert('0' <= d1 <= '9' && '0' <= d2 <= '9');
    assert(text::all_digits(tail));
    assert(tail.drop_last() =~= seq![d1]);
    assert(tail.drop_last().drop_last() =~= Seq::<char>::empty());
    reveal_with_fuel(text::digits_value, 3);
    assert(text::digits_value(tail) == ((c / 10) % 10) * 10 + c % 10);
    assert(text::natural_in(tail) == Some(text::digits_value(tail) as int));
    assert(c == (c / 100) * 100 + ((c / 10) % 10) * 10 + c % 10);
}

}
