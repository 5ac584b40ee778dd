//! Reading the fields of a request.
use vstd::prelude::*;

use crate::admin_auth;
use crate::db;
use crate::error::{AppError, ErrorKind, Refusal};
use crate::json::{JsonData, JsonValue};
use crate::maps::TextMap;

verus! {

/// The field under a key.
pub open spec fn field(object: Map<Seq<char>, JsonValue>, key: Seq<char>) -> Option<JsonValue> {
    if object.dom().contains(key) {
        Some(object[key])
    } else {
        None
    }
}

pub fn get_field<'a>(object: &'a TextMap<JsonValue>, key: &str) -> (r: Option<&'a JsonValue>)
    requires
        object.wf(),
    ensures
        match r {
            Some(v) => field(object@, key@) == Some(*v),
            None => field(object@, key@) is None,
        },
{
    object.get(key)
}

/// A field that was not given, or is null.
pub open spec fn is_blank(v: Option<JsonValue>) -> bool {
    v is None || v->0.data is Null
}

pub open spec fn refused<T>(message: Seq<char>) -> Result<T, Refusal> {
    Err((ErrorKind::BadRequest, message))
}

/// What a reader returns, in contents.
pub open spec fn text_result(r: Result<String, AppError>) -> Result<Seq<char>, Refusal> {
    match r {
        Ok(s) => Ok(s@),
        Err(e) => Err(e@),
    }
}

pub open spec fn opt_text_result(r: Result<Option<String>, AppError>) -> Result<
    Option<Seq<char>>,
    Refusal,
> {
    match r {
        Ok(o) => Ok(db::opt_text(o)),
        Err(e) => Err(e@),
    }
}

pub open spec fn plain_result<T>(r: Result<T, AppError>) -> Result<T, Refusal> {
    match r {
        Ok(v) => Ok(v),
        Err(e) => Err(e@),
    }
}

/// The refusal of a reading that failed.
pub open spec fn failure<T>(r: Result<T, Refusal>) -> Option<Refusal> {
    match r {
        Ok(_) => None,
        Err(e) => Some(e),
    }
}

// ---------------------------------------------------------------------------
// Texts
// ---------------------------------------------------------------------------
/// A text that must be there and not blank.
pub open spec fn required_text(v: Option<JsonValue>, message: Seq<char>) -> Result<
    Seq<char>,
    Refusal,
> {
    match v {
        Some(j) => match j.data {
            JsonData::Text { text } => match admin_auth::filled_trimmed(Some(text@)) {
                Some(t) => Ok(t),
                None => refused(message),
            },
            _ => refused(message),
        },
        None => refused(message),
    }
}

pub fn required_non_empty_string(v: Option<&JsonValue>, message: &str) -> (r: Result<
    String,
    AppError,
>)
    ensures
        text_result(r) == required_text(deref(v), message@),
{
    if let Some(j) = v {
        if let JsonData::Text { text } = &j.data {
            if let Some(t) = admin_auth::trim_filled(Some(text.as_str())) {
                return Ok(t.to_owned());
            }
        }
    }
    Err(AppError::bad_request(message))
}

pub open spec fn deref(v: Option<&JsonValue>) -> Option<JsonValue> {
    match v {
        Some(j) => Some(*j),
        None => None,
    }
}

/// A text that may be absent, null or blank.
pub open spec fn optional_text(v: Option<JsonValue>, message: Seq<char>) -> Result<
    Option<Seq<char>>,
    Refusal,
> {
    if is_blank(v) {
        Ok(None)
    } else {
        match v->0.data {
            JsonData::Text { text } => Ok(admin_auth::filled_trimmed(Some(text@))),
            _ => refused(message),
        }
    }
}

pub fn optional_trimmed_string(v: Option<&JsonValue>, message: &str) -> (r: Result<
    Option<String>,
    AppError,
>)
    ensures
        opt_text_result(r) == optional_text(deref(v), message@),
{
    match v {
        None => Ok(None),
        Some(j) => match &j.data {
            JsonData::Null => Ok(None),
            JsonData::Text { text } => Ok(
                match admin_auth::trim_filled(Some(text.as_str())) {
                    Some(t) => Some(t.to_owned()),
                    None => None,
                },
            ),
            _ => Err(AppError::bad_request(message)),
        },
    }
}

/// A JSON document that is kept as text: a list or, where they are let, an object by its
/// text, and a text as it is.
pub open spec fn document(v: Option<JsonValue>, objects: bool, message: Seq<char>) -> Result<
    Option<Seq<char>>,
    Refusal,
> {
    if is_blank(v) {
        Ok(None)
    } else {
        match v->0.data {
            JsonData::Text { text } => Ok(admin_auth::filled_trimmed(Some(text@))),
            JsonData::List => Ok(Some(v->0.shown@)),
            JsonData::Object { .. } => if objects {
                Ok(Some(v->0.shown@))
            } else {
                refused(message)
            },
            _ => refused(message),
        }
    }
}

pub fn normalize_document(v: Option<&JsonValue>, objects: bool, message: &str) -> (r: Result<
    Option<String>,
    AppError,
>)
    ensures
        opt_text_result(r) == document(deref(v), objects, message@),
{
    match v {
        None => Ok(None),
        Some(j) => match &j.data {
            JsonData::Null => Ok(None),
            JsonData::Text { text } => Ok(
                match admin_auth::trim_filled(Some(text.as_str())) {
                    Some(t) => Some(t.to_owned()),
                    None => None,
                },
            ),
            JsonData::List => Ok(Some(j.shown.clone())),
            JsonData::Object { .. } => if objects {
                Ok(Some(j.shown.clone()))
            } else {
                Err(AppError::bad_request(message))
            },
            _ => Err(AppError::bad_request(message)),
        },
    }
}

// ---------------------------------------------------------------------------
// Numbers and flags
// ---------------------------------------------------------------------------
/// The integer that a value is.
pub open spec fn integer_of(v: JsonValue) -> Option<i64> {
    match v.data {
        JsonData::Number { number } => number.integer,
        _ => None,
    }
}

pub fn as_integer(v: &JsonValue) -> (r: Option<i64>)
    ensures
        r == integer_of(*v),
{
    match &v.data {
        JsonData::Number { number } => number.integer,
        _ => None,
    }
}

/// An integer of at least `least` that may be absent or null.
pub open spec fn optional_integer(v: Option<JsonValue>, least: i64, message: Seq<char>) -> Result<
    Option<i64>,
    Refusal,
> {
    if is_blank(v) {
        Ok(None)
    } else {
        match integer_of(v->0) {
            Some(n) => if n >= least {
                Ok(Some(n))
            } else {
                refused(message)
            },
            None => refused(message),
        }
    }
}

pub fn optional_i64_at_least(v: Option<&JsonValue>, least: i64, message: &str) -> (r: Result<
    Option<i64>,
    AppError,
>)
    ensures
        plain_result(r) == optional_integer(deref(v), least, message@),
{
    match v {
        None => Ok(None),
        Some(j) => match &j.data {
            JsonData::Null => Ok(None),
            _ => match as_integer(j) {
                Some(n) => if n >= least {
                    Ok(Some(n))
                } else {
                    Err(AppError::bad_request(message))
                },
                None => Err(AppError::bad_request(message)),
            },
        },
    }
}

/// A positive integer that must be there.
pub open spec fn required_positive(v: Option<JsonValue>, message: Seq<char>) -> Result<
    i64,
    Refusal,
> {
    match v {
        Some(j) => match integer_of(j) {
            Some(n) => if n > 0 {
                Ok(n)
            } else {
                refused(message)
            },
            None => refused(message),
        },
        None => refused(message),
    }
}

pub fn required_positive_i64(v: Option<&JsonValue>, message: &str) -> (r: Result<i64, AppError>)
    ensures
        plain_result(r) == required_positive(deref(v), message@),
{
    if let Some(j) = v {
        if let Some(n) = as_integer(j) {
            if n > 0 {
                return Ok(n);
            }
        }
    }
    Err(AppError::bad_request(message))
}

/// A flag that may be absent or null.
pub open spec fn optional_flag(v: Option<JsonValue>, message: Seq<char>) -> Result<
    Option<bool>,
    Refusal,
> {
    if is_blank(v) {
        Ok(None)
    } else {
        match v->0.data {
            JsonData::Flag { flag } => Ok(Some(flag)),
            _ => refused(message),
        }
    }
}

pub fn optional_bool(v: Option<&JsonValue>, message: &str) -> (r: Result<Option<bool>, AppError>)
    ensures
        plain_result(r) == optional_flag(deref(v), message@),
{
    match v {
        None => Ok(None),
        Some(j) => match &j.data {
            JsonData::Null => Ok(None),
            JsonData::Flag { flag } => Ok(Some(*flag)),
            _ => Err(AppError::bad_request(message)),
        },
    }
}

/// A positive rate, in ten thousandths, that must be there.
pub open spec fn required_rate(v: Option<JsonValue>, message: Seq<char>) -> Result<i64, Refusal> {
    match v {
        Some(j) => match j.data {
            JsonData::Number { number } => match number.positive_bps {
                Some(n) => Ok(n),
                None => refused(message),
            },
            _ => refused(message),
        },
        None => refused(message),
    }
}

pub fn required_positive_rate(v: Option<&JsonValue>, message: &str) -> (r: Result<i64, AppError>)
    ensures
        plain_result(r) == required_rate(deref(v), message@),
{
    if let Some(j) = v {
        if let JsonData::Number { number } = &j.data {
            if let Some(n) = number.positive_bps {
                return Ok(n);
            }
        }
    }
    Err(AppError::bad_request(message))
}

/// A price, in cents, that must be there.
pub open spec fn required_price(v: Option<JsonValue>, message: Seq<char>) -> Result<i64, Refusal> {
    match v {
        Some(j) => match j.data {
            JsonData::Number { number } => match number.price_cents {
                Some(n) => Ok(n),
                None => refused(message),
            },
            _ => refused(message),
        },
        None => refused(message),
    }
}

pub fn required_price_cents(v: Option<&JsonValue>, message: &str) -> (r: Result<i64, AppError>)
    ensures
        plain_result(r) == required_price(deref(v), message@),
{
    if let Some(j) = v {
        if let JsonData::Number { number } = &j.data {
            if let Some(n) = number.price_cents {
                return Ok(n);
            }
        }
    }
    Err(AppError::bad_request(message))
}

/// A price that may be absent or null.
pub open spec fn optional_price(v: Option<JsonValue>, message: Seq<char>) -> Result<
    Option<i64>,
    Refusal,
> {
    if is_blank(v) {
        Ok(None)
    } else {
        match required_price(v, message) {
            Ok(n) => Ok(Some(n)),
            Err(e) => Err(e),
        }
    }
}

pub fn optional_price_cents(v: Option<&JsonValue>, message: &str) -> (r: Result<
    Option<i64>,
    AppError,
>)
    ensures
        plain_result(r) == optional_price(deref(v), message@),
{
    let blank = match v {
        None => true,
        Some(j) => match &j.data {
            JsonData::Null => true,
            _ => false,
        },
    };
    if blank {
        return Ok(None);
    }
    match required_price_cents(v, message) {
        Ok(n) => Ok(Some(n)),
        Err(e) => Err(e),
    }
}

// ---------------------------------------------------------------------------
// Objects
// ---------------------------------------------------------------------------
/// The object that a request must be.
pub fn require_object<'a>(body: &'a JsonValue, message: &str) -> (r: Result<
    &'a TextMap<JsonValue>,
    AppError,
>)
    requires
        body.wf(),
    ensures
        match body.data {
            JsonData::Object { members } => r matches Ok(m) && *m == members && m.wf(),
            _ => r matches Err(e) && e@ == (ErrorKind::BadRequest, message@),
        },
{
    match &body.data {
        JsonData::Object { members } => Ok(members),
        _ => Err(AppError::bad_request(message)),
    }
}

/// How long a text is in bytes.
pub open spec fn byte_length(s: Seq<char>) -> nat {
    vstd::utf8::encode_utf8(s).len()
}

pub fn is_longer(s: &str, most: usize) -> (r: bool)
    ensures
        r == (byte_length(s@) > most),
{
    s.as_bytes().len() > most
}

// ---------------------------------------------------------------------------
// What is made of what was read
// ---------------------------------------------------------------------------
/// A number that was read, or else the default.
pub open spec fn or_int(r: Result<Option<i64>, Refusal>, default: i64) -> Result<i64, Refusal> {
    match r {
        Ok(Some(n)) => Ok(n),
        Ok(None) => Ok(default),
        Err(e) => Err(e),
    }
}

pub fn int_or(r: Result<Option<i64>, AppError>, default: i64) -> (out: Result<i64, AppError>)
    ensures
        plain_result(out) == or_int(plain_result(r), default),
{
    match r {
        Ok(Some(n)) => Ok(n),
        Ok(None) => Ok(default),
        Err(e) => Err(e),
    }
}

/// A flag that was read, or else the default.
pub open spec fn or_flag(r: Result<Option<bool>, Refusal>, default: bool) -> Result<bool, Refusal> {
    match r {
        Ok(Some(b)) => Ok(b),
        Ok(None) => Ok(default),
        Err(e) => Err(e),
    }
}

pub fn flag_or(r: Result<Option<bool>, AppError>, default: bool) -> (out: Result<bool, AppError>)
    ensures
        plain_result(out) == or_flag(plain_result(r), default),
{
    match r {
        Ok(Some(b)) => Ok(b),
        Ok(None) => Ok(default),
        Err(e) => Err(e),
    }
}

/// A flag that must not be null.
pub open spec fn given_flag(r: Result<Option<bool>, Refusal>, message: Seq<char>) -> Result<
    bool,
    Refusal,
> {
    match r {
        Ok(Some(b)) => Ok(b),
        Ok(None) => refused(message),
        Err(e) => Err(e),
    }
}

pub fn require_flag(r: Result<Option<bool>, AppError>, message: &str) -> (out: Result<
    bool,
    AppError,
>)
    ensures
        plain_result(out) == given_flag(plain_result(r), message@),
{
    match r {
        Ok(Some(b)) => Ok(b),
        Ok(None) => Err(AppError::bad_request(message)),
        Err(e) => Err(e),
    }
}

/// A text of at most so many bytes.
pub open spec fn limited(r: Result<Seq<char>, Refusal>, most: nat, message: Seq<char>) -> Result<
    Seq<char>,
    Refusal,
> {
    match r {
        Ok(s) => if byte_length(s) > most {
            refused(message)
        } else {
            Ok(s)
        },
        Err(e) => Err(e),
    }
}

pub fn limit_length(r: Result<String, AppError>, most: usize, message: &str) -> (out: Result<
    String,
    AppError,
>)
    ensures
        text_result(out) == limited(text_result(r), most as nat, message@),
{
    match r {
        Ok(s) => if is_longer(s.as_str(), most) {
            Err(AppError::bad_request(message))
        } else {
            Ok(s)
        },
        Err(e) => Err(e),
    }
}

/// A field that is changed where it is given, and kept where it is not.
pub open spec fn kept<T>(
    object: Map<Seq<char>, JsonValue>,
    key: Seq<char>,
    read: Result<T, Refusal>,
    existing: T,
) -> Result<T, Refusal> {
    if object.dom().contains(key) {
        read
    } else {
        Ok(existing)
    }
}

}
