//! Who may administer.
use vstd::prelude::*;

use crate::db;
use crate::error;
use crate::error::{AppError, ErrorKind, Refusal};
use crate::hash;
use crate::text;

verus! {

#[derive(Debug)]
pub struct AdminTokenQuery {
    pub token: Option<String>,
    pub lang: Option<String>,
}

/// The text without the space around it, where anything is left.
pub open spec fn filled_trimmed(s: Option<Seq<char>>) -> Option<Seq<char>> {
    match s {
        Some(t) => if text::trimmed(t).len() > 0 {
            Some(text::trimmed(t))
        } else {
            None
        },
        None => None,
    }
}

pub fn trim_filled<'a>(s: Option<&'a str>) -> (r: Option<&'a str>)
    ensures
        db::opt_str(r) == filled_trimmed(db::opt_str(s)),
{
    match s {
        Some(t) => {
            let t = text::trim(t);
            if t.is_empty() {
                None
            } else {
                Some(t)
            }
        },
        None => None,
    }
}

/// The token that a request carries: the bearer token of its header comes before the one in
/// its query.
pub open spec fn token_of(authorization: Option<Seq<char>>, query: Option<Seq<char>>) -> Option<
    Seq<char>,
> {
    match bearer(authorization) {
        Some(t) => Some(t),
        None => filled_trimmed(query),
    }
}

pub open spec fn bearer(authorization: Option<Seq<char>>) -> Option<Seq<char>> {
    match authorization {
        Some(h) => if "Bearer "@.is_prefix_of(h) {
            filled_trimmed(Some(h.skip("Bearer "@.len() as int)))
        } else {
            None
        },
        None => None,
    }
}

pub fn extract_token<'a>(authorization: Option<&'a str>, query_token: Option<&'a str>) -> (r:
    Option<&'a str>)
    ensures
        db::opt_str(r) == token_of(db::opt_str(authorization), db::opt_str(query_token)),
{
    if let Some(header) = authorization {
        if let Some(token) = text::strip_prefix(header, "Bearer ") {
            let found = trim_filled(Some(token));
            if found.is_some() {
                return found;
            }
        }
    }
    trim_filled(query_token)
}

/// Whether the language asked for is English.
pub open spec fn asks_english(lang: Option<Seq<char>>) -> bool {
    lang matches Some(l) && text::lowered(text::trimmed(l)) == "en"@
}

pub fn is_english(lang: Option<&str>) -> (r: bool)
    ensures
        r == asks_english(db::opt_str(lang)),
{
    match lang {
        Some(l) => text::same(text::to_ascii_lowercase(text::trim(l)).as_str(), "en"),
        None => false,
    }
}

pub open spec fn unauthorized_text(lang: Option<Seq<char>>) -> Seq<char> {
    if asks_english(lang) {
        "Unauthorized"@
    } else {
        "未授权"@
    }
}

pub fn unauthorized_message(lang: Option<&str>) -> (r: &'static str)
    ensures
        r@ == unauthorized_text(db::opt_str(lang)),
{
    if is_english(lang) {
        "Unauthorized"
    } else {
        "未授权"
    }
}

/// Why a request is not let in, if it is not: it must carry the administration token.
pub open spec fn admin_refusal(
    authorization: Option<Seq<char>>,
    query: Option<Seq<char>>,
    lang: Option<Seq<char>>,
    expected: Option<Seq<char>>,
) -> Option<Refusal> {
    match token_of(authorization, query) {
        None => Some((ErrorKind::Unauthorized, unauthorized_text(lang))),
        Some(t) => match expected {
            None => Some((ErrorKind::Unauthorized, "Admin auth is not configured"@)),
            Some(e) => if e == t {
                None
            } else {
                Some((ErrorKind::Unauthorized, unauthorized_text(lang)))
            },
        },
    }
}

/// Lets a request in that carries the administration token in its `Authorization` header or
/// in its query.
pub fn verify_admin_values(
    authorization: Option<&str>,
    query_token: Option<&str>,
    lang: Option<&str>,
    admin_token: Option<&str>,
) -> (r: Result<(), AppError>)
    ensures
        error::refusal_of(r) == admin_refusal(
            db::opt_str(authorization),
            db::opt_str(query_token),
            db::opt_str(lang),
            db::opt_str(admin_token),
        ),
{
    let token = match extract_token(authorization, query_token) {
        Some(t) => t,
        None => {
            return Err(AppError::unauthorized(unauthorized_message(lang)));
        },
    };
    match admin_token {
        None => Err(AppError::unauthorized("Admin auth is not configured")),
        Some(expected) => if hash::secure_equals(expected, token) {
            Ok(())
        } else {
            Err(AppError::unauthorized(unauthorized_message(lang)))
        },
    }
}

pub fn verify_admin(
    authorization: Option<&str>,
    query: &AdminTokenQuery,
    admin_token: Option<&str>,
) -> (r: Result<(), AppError>)
    ensures
        error::refusal_of(r) == admin_refusal(
            db::opt_str(authorization),
            db::opt_text(query.token),
            db::opt_text(query.lang),
            db::opt_str(admin_token),
        ),
{
    verify_admin_values(
        authorization,
        db::as_deref(&query.token),
        db::as_deref(&query.lang),
        admin_token,
    )
}

/// Without a token, or with an empty one, nobody is let in; with the administration token
/// between spaces, in the header or in the query, anybody is.
pub proof fn law_only_the_admin_token_opens(
    authorization: Option<Seq<char>>,
    query: Option<Seq<char>>,
    lang: Option<Seq<char>>,
    expected: Option<Seq<char>>,
)
    ensures
        admin_refusal(authorization, query, lang, expected) is None <==> expected is Some
            && token_of(authorization, query) == expected,
        admin_refusal(authorization, query, lang, expected) is None ==> expected->0.len() > 0,
        admin_refusal(authorization, query, lang, expected) matches Some(refusal) ==> refusal.0
            == ErrorKind::Unauthorized,
{
}

/// The token of a request is that of its bearer header, and only without one that of its query;
/// either is taken without the space around it, and a blank one is none.
pub proof fn law_the_header_comes_before_the_query(
    header: Seq<char>,
    query: Option<Seq<char>>,
)
    ensures
        text::trimmed(header).len() > 0 ==> token_of(Some("Bearer "@ + header), query) == Some(
            text::trimmed(header),
        ),
        text::trimmed(header).len() == 0 ==> token_of(Some("Bearer "@ + header), query) == token_of(
            None,
            query,
        ),
        !"Bearer "@.is_prefix_of(header) ==> token_of(Some(header), query) == token_of(
            None,
            query,
        ),
        query matches Some(q) ==> token_of(None, query) == (if text::trimmed(q).len() > 0 {
            Some(text::trimmed(q))
        } else {
            None
        }),
        query is None ==> token_of(None, query) is None,
{
    let full = "Bearer "@ + header;
    let n = "Bearer "@.len() as int;
    assert(full.take(n) =~= "Bearer "@);
    assert(full.skip(n) =~= header);
}

/// A request is let in exactly where the token that it carries is the administrator's.
pub proof fn law_other_tokens_are_refused(
    token: Seq<char>,
    lang: Option<Seq<char>>,
    expected: Option<Seq<char>>,
)
    requires
        text::trimmed(token) == token,
        token.len() > 0,
    ensures
        admin_refusal(None, Some(token), lang, expected) is None <==> expected == Some(token),
        admin_refusal(Some("Bearer "@ + token), None, lang, expected) is None <==> expected
            == Some(token),
        admin_refusal(None, None, lang, expected) is Some,
{
    law_the_header_comes_before_the_query(token, None);
    law_the_header_comes_before_the_query(token, Some(token));
}

/// A visitor asks for English exactly by naming it, in capitals or not and with spaces around it
/// or not.
pub proof fn law_english_is_asked_for_by_name(lang: Option<&str>, r: bool)
    requires
        call_ensures(is_english, (lang,), r),
    ensures
        r <==> (lang matches Some(l) && text::lowered(text::trimmed(l@)) == "en"@),
{
}

}
