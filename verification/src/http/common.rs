//! Languages and pages.
use vstd::prelude::*;

use crate::admin_auth;
use crate::db;
use crate::error::{AppError, ErrorKind, Refusal};
use crate::text;

verus! {

pub open spec fn locale(lang: Option<Seq<char>>) -> Seq<char> {
    if admin_auth::asks_english(lang) {
        "en"@
    } else {
        "zh"@
    }
}

/// The language in which a caller is answered.
pub fn resolve_locale(lang: Option<&str>) -> (r: &'static str)
    ensures
        r@ == locale(db::opt_str(lang)),
{
    if admin_auth::is_english(lang) {
        "en"
    } else {
        "zh"
    }
}

/// A text in the language of a caller.
pub open spec fn said(locale: Seq<char>, zh: Seq<char>, en: Seq<char>) -> Seq<char> {
    if locale == "en"@ {
        en
    } else {
        zh
    }
}

pub fn message(locale: &str, zh: &'static str, en: &'static str) -> (r: &'static str)
    ensures
        r@ == said(locale@, zh@, en@),
{
    if text::same(locale, "en") {
        en
    } else {
        zh
    }
}

pub fn is_false(value: &bool) -> (r: bool)
    ensures
        r == !*value,
{
    !*value
}

/// How many pages a listing fills.
pub open spec fn pages(total: int, page_size: int) -> int {
    if total <= 0 || page_size <= 0 {
        0
    } else {
        (total + page_size - 1) / page_size
    }
}

pub fn total_pages(total: i64, page_size: i64) -> (r: i64)
    ensures
        r == pages(total as int, page_size as int),
{
    if total <= 0 || page_size <= 0 {
        0
    } else {
        let t: i128 = total as i128;
        let p: i128 = page_size as i128;
        let n: i128 = (t + p - 1) / p;
        proof {
            law_pages_hold_everything(total as int, page_size as int);
        }
        n as i64
    }
}

/// The pages hold every item, and the last page is not empty.
pub proof fn law_pages_hold_everything(total: int, page_size: int)
    requires
        page_size > 0,
    ensures
        pages(total, page_size) * page_size >= total,
        total > 0 ==> (pages(total, page_size) - 1) * page_size < total,
        total > 0 ==> 1 <= pages(total, page_size) <= total,
        total <= 0 ==> pages(total, page_size) == 0,
{
    if total > 0 {
        let n = pages(total, page_size);
        let m = total + page_size - 1;
        vstd::arithmetic::div_mod::lemma_fundamental_div_mod(m, page_size);
        assert(page_size * n == n * page_size) by (nonlinear_arith);
        assert((n - 1) * page_size == n * page_size - page_size) by (nonlinear_arith);
        assert(1 <= n <= total) by (nonlinear_arith)
            requires
                n * page_size >= total,
                (n - 1) * page_size < total,
                total > 0,
                page_size > 0,
        ;
    }
}

// ---------------------------------------------------------------------------
// Who asks
// ---------------------------------------------------------------------------
/// The token of a user that a request must carry.
pub fn require_token<'a>(token: Option<&'a str>, kind: ErrorKind, missing: &str) -> (r: Result<
    &'a str,
    AppError,
>)
    ensures
        match admin_auth::filled_trimmed(db::opt_str(token)) {
            Some(t) => r matches Ok(s) && s@ == t,
            None => r matches Err(e) && e@ == (kind, missing@),
        },
{
    match admin_auth::trim_filled(token) {
        Some(t) => Ok(t),
        None => Err(AppError::new(kind, missing)),
    }
}

/// What a user is told whom the platform did not name: that the token is no good, where the
/// platform refused it, else that something else is wrong.
pub open spec fn unknown_user(error: Seq<char>, invalid: Seq<char>, other: Refusal) -> Refusal {
    if "Failed to get current user:"@.is_prefix_of(error) {
        (ErrorKind::Unauthorized, invalid)
    } else {
        other
    }
}

pub fn map_user_error(error: &str, invalid: &str, other: AppError) -> (r: AppError)
    ensures
        r@ == unknown_user(error@, invalid@, other@),
{
    if text::starts_with(error, "Failed to get current user:") {
        AppError::unauthorized(invalid)
    } else {
        other
    }
}

/// The administration key of the platform, which must not be blank.
pub fn require_admin_key(value: Option<&str>, missing: AppError) -> (r: Result<String, AppError>)
    ensures
        match admin_auth::filled_trimmed(db::opt_str(value)) {
            Some(k) => r matches Ok(s) && s@ == k,
            None => r matches Err(e) && e == missing,
        },
{
    match admin_auth::trim_filled(value) {
        Some(k) => Ok(k.to_owned()),
        None => Err(missing),
    }
}

/// A visitor is spoken to in English exactly where they ask for it, and else in Chinese.
pub proof fn law_visitors_are_spoken_to_in_their_language(
    lang: Option<Seq<char>>,
    zh: Seq<char>,
    en: Seq<char>,
)
    ensures
        admin_auth::asks_english(lang) ==> said(locale(lang), zh, en) == en,
        !admin_auth::asks_english(lang) ==> said(locale(lang), zh, en) == zh,
        lang is None ==> said(locale(lang), zh, en) == zh,
{
    reveal_strlit("en");
    reveal_strlit("zh");
    assert("en"@[0] == 'e' && "zh"@[0] == 'z');
}

}
