//! Instances of payment providers, as administrators see and change them. The secrets among
//! their settings are masked when they are shown, and a mask that comes back stands for the
//! secret that is kept.
use vstd::prelude::*;

use crate::crypto;
use crate::db;
use crate::error;
use crate::error::{AppError, ErrorKind, Refusal};
use crate::hash;
use crate::http::fields;
use crate::json;
use crate::json::{JsonData, JsonValue};
use crate::maps;
use crate::maps::TextMap;
use crate::masking;
use crate::payment_provider;
use crate::provider_instances::{ProviderInstanceRecord, ProviderInstanceWrite};
use crate::text;

verus! {

// ---------------------------------------------------------------------------
// Secrets
// ---------------------------------------------------------------------------
/// Whether a setting is a secret, by its name.
pub open spec fn sensitive(name: Seq<char>) -> bool {
    let lower = text::lowered(name);
    text::occurs_in("key"@, lower) || text::occurs_in("pkey"@, lower) || text::occurs_in(
        "secret"@,
        lower,
    ) || text::occurs_in("private"@, lower) || text::occurs_in("password"@, lower)
}

pub fn is_sensitive_field(field_name: &str) -> (r: bool)
    ensures
        r == sensitive(field_name@),
{
    let lower = text::to_ascii_lowercase(field_name);
    let lower = lower.as_str();
    text::contains(lower, "key") || text::contains(lower, "pkey") || text::contains(
        lower,
        "secret",
    ) || text::contains(lower, "private") || text::contains(lower, "password")
}

/// A setting as it is shown.
pub open spec fn shown_setting(name: Seq<char>, value: Seq<char>) -> Seq<char> {
    if sensitive(name) {
        masking::masked(value)
    } else {
        value
    }
}

/// The settings as they are shown.
pub open spec fn shown_settings(m: Map<Seq<char>, Seq<char>>) -> Map<Seq<char>, Seq<char>> {
    Map::new(|k: Seq<char>| m.dom().contains(k), |k: Seq<char>| shown_setting(k, m[k]))
}

/// The secrets among the settings can be masked.
pub open spec fn showable(m: Map<Seq<char>, Seq<char>>) -> bool {
    forall|k: Seq<char>|
        m.dom().contains(k) && sensitive(k) ==> masking::maskable(#[trigger] m[k])
}

pub fn can_show_settings(settings: &TextMap<String>) -> (r: bool)
    requires
        settings.wf(),
    ensures
        r == showable(maps::text_map(settings@)),
{
    let ghost m = maps::text_map(settings@);
    let mut i: usize = 0;
    while i < settings.len()
        invariant
            settings.wf(),
            i <= settings.entries().len(),
            m == maps::text_map(settings@),
            forall|j: int|
                0 <= j < i && sensitive((#[trigger] settings.entries()[j]).0@)
                    ==> masking::maskable(settings.entries()[j].1@),
        decreases settings.entries().len() - i,
    {
        let (key, value) = settings.entry(i);
        if is_sensitive_field(key) && !masking::can_mask(value.as_str()) {
            assert(m.dom().contains(key@) && m[key@] == value@);
            return false;
        }
        i += 1;
    }
    assert forall|k: Seq<char>|
        m.dom().contains(k) && sensitive(k) implies masking::maskable(#[trigger] m[k]) by {
        settings.lemma_keys(k);
    }
    true
}

/// Masks the secrets among the settings.
pub fn mask_settings(settings: &TextMap<String>) -> (r: TextMap<String>)
    requires
        settings.wf(),
        showable(maps::text_map(settings@)),
    ensures
        r.wf(),
        maps::text_map(r@) == shown_settings(maps::text_map(settings@)),
{
    let ghost m = maps::text_map(settings@);
    let mut out: TextMap<String> = TextMap::new();
    let mut i: usize = 0;
    while i < settings.len()
        invariant
            settings.wf(),
            showable(m),
            m == maps::text_map(settings@),
            i <= settings.entries().len(),
            out.wf(),
            forall|j: int|
                0 <= j < i ==> out@.dom().contains((#[trigger] settings.entries()[j]).0@),
            forall|k: Seq<char>| #[trigger]
                out@.dom().contains(k) ==> m.dom().contains(k) && out@[k]@ == shown_setting(
                    k,
                    m[k],
                ),
        decreases settings.entries().len() - i,
    {
        let (key, value) = settings.entry(i);
        assert(m.dom().contains(key@) && m[key@] == value@);
        let shown = if is_sensitive_field(key) {
            masking::mask_value(value.as_str())
        } else {
            value.clone()
        };
        out.insert(key.to_owned(), shown);
        i += 1;
    }
    assert forall|k: Seq<char>| m.dom().contains(k) implies out@.dom().contains(k) by {
        settings.lemma_keys(k);
    }
    assert(maps::text_map(out@) =~= shown_settings(m));
    out
}

/// The settings that are kept when new ones come in: a mask stands for the setting that it
/// masks, where there is one.
pub open spec fn merged_settings(
    new: Map<Seq<char>, Seq<char>>,
    existing: Map<Seq<char>, Seq<char>>,
) -> Map<Seq<char>, Seq<char>> {
    Map::new(
        |k: Seq<char>| new.dom().contains(k),
        |k: Seq<char>|
            if masking::looks_masked(new[k]) && existing.dom().contains(k) {
                existing[k]
            } else {
                new[k]
            },
    )
}

pub fn merge_config_with_existing(new: &TextMap<String>, existing: &TextMap<String>) -> (r: TextMap<
    String,
>)
    requires
        new.wf(),
        existing.wf(),
    ensures
        r.wf(),
        maps::text_map(r@) == merged_settings(maps::text_map(new@), maps::text_map(existing@)),
{
    let ghost n = maps::text_map(new@);
    let ghost e = maps::text_map(existing@);
    let mut out: TextMap<String> = TextMap::new();
    let mut i: usize = 0;
    while i < new.len()
        invariant
            new.wf(),
            existing.wf(),
            n == maps::text_map(new@),
            e == maps::text_map(existing@),
            i <= new.entries().len(),
            out.wf(),
            forall|j: int| 0 <= j < i ==> out@.dom().contains((#[trigger] new.entries()[j]).0@),
            forall|k: Seq<char>| #[trigger]
                out@.dom().contains(k) ==> n.dom().contains(k) && out@[k]@ == merged_settings(
                    n,
                    e,
                )[k],
        decreases new.entries().len() - i,
    {
        let (key, value) = new.entry(i);
        assert(n.dom().contains(key@) && n[key@] == value@);
        let kept = if masking::is_masked_value(value.as_str()) {
            match existing.get(key) {
                Some(old_value) => old_value.clone(),
                None => value.clone(),
            }
        } else {
            value.clone()
        };
        out.insert(key.to_owned(), kept);
        i += 1;
    }
    assert forall|k: Seq<char>| n.dom().contains(k) implies out@.dom().contains(k) by {
        new.lemma_keys(k);
    }
    assert(maps::text_map(out@) =~= merged_settings(n, e));
    out
}

/// Whether a secret is not what it was.
pub open spec fn credentials_change(
    merged: Map<Seq<char>, Seq<char>>,
    existing: Map<Seq<char>, Seq<char>>,
) -> bool {
    exists|k: Seq<char>|
        sensitive(k) && #[trigger] merged.dom().contains(k) && maps::found(existing, k) != Some(
            merged[k],
        )
}

pub fn has_credential_change(merged: &TextMap<String>, existing: &TextMap<String>) -> (r: bool)
    requires
        merged.wf(),
        existing.wf(),
    ensures
        r == credentials_change(maps::text_map(merged@), maps::text_map(existing@)),
{
    let ghost m = maps::text_map(merged@);
    let ghost e = maps::text_map(existing@);
    let mut i: usize = 0;
    while i < merged.len()
        invariant
            merged.wf(),
            existing.wf(),
            m == maps::text_map(merged@),
            e == maps::text_map(existing@),
            i <= merged.entries().len(),
            forall|j: int|
                0 <= j < i && sensitive((#[trigger] merged.entries()[j]).0@) ==> maps::found(
                    e,
                    merged.entries()[j].0@,
                ) == Some(merged.entries()[j].1@),
        decreases merged.entries().len() - i,
    {
        let (key, value) = merged.entry(i);
        if is_sensitive_field(key) {
            let same = match existing.get(key) {
                Some(old_value) => text::same(old_value.as_str(), value.as_str()),
                None => false,
            };
            if !same {
                assert(m.dom().contains(key@) && m[key@] == value@);
                return true;
            }
        }
        i += 1;
    }
    assert forall|k: Seq<char>| sensitive(k) && #[trigger] m.dom().contains(k) implies maps::found(
        e,
        k,
    ) == Some(m[k]) by {
        merged.lemma_keys(k);
    }
    false
}

// ---------------------------------------------------------------------------
// Settings that are sealed
// ---------------------------------------------------------------------------
/// The settings that a sealed text holds, or why they cannot be read.
pub open spec fn settings_in(key: Seq<u8>, sealed: Seq<char>) -> Result<
    Map<Seq<char>, Seq<char>>,
    Refusal,
> {
    match crypto::opened(key, sealed) {
        Err(e) => Err((ErrorKind::Internal, e.text())),
        Ok(plain) => match json::json_string_map(plain) {
            Err(e) => Err((ErrorKind::Internal, e)),
            Ok(m) => Ok(m),
        },
    }
}

pub open spec fn settings_result(r: Result<TextMap<String>, AppError>) -> Result<
    Map<Seq<char>, Seq<char>>,
    Refusal,
> {
    match r {
        Ok(m) => Ok(maps::text_map(m@)),
        Err(e) => Err(e@),
    }
}

pub fn decrypt_config_map(admin_token: Option<&str>, encrypted: &str) -> (r: Result<
    TextMap<String>,
    AppError,
>)
    ensures
        settings_result(r) == settings_in(crypto::key_of(admin_token), encrypted@),
        r matches Ok(m) ==> m.wf(),
{
    match crypto::decrypt(admin_token, encrypted) {
        Err(e) => Err(AppError::internal(e.message())),
        Ok(plain) => match json::parse_string_map(plain.as_str()) {
            Err(e) => Err(AppError::internal(e.as_str())),
            Ok(m) => Ok(m),
        },
    }
}

/// The JSON text of the settings is no longer than what can be sealed.
pub open spec fn can_be_sealed(settings: TextMap<String>) -> bool {
    vstd::utf8::encode_utf8(json::json_object(maps::pairs(settings.entries()))).len()
        <= hash::MAX_ENCODED_BYTES
}

/// Seals settings, from which they can be read back.
pub fn seal_settings(admin_token: Option<&str>, settings: &TextMap<String>) -> (r: Result<
    String,
    AppError,
>)
    requires
        settings.wf(),
    ensures
        r is Ok <==> can_be_sealed(*settings),
        match r {
            Ok(sealed) => settings_in(crypto::key_of(admin_token), sealed@) == Ok::<
                Map<Seq<char>, Seq<char>>,
                Refusal,
            >(maps::text_map(settings@)),
            Err(e) => e@ == (ErrorKind::Internal, crypto::CryptoError::TooLong.text()),
        },
{
    let plain = json::write_string_map(settings);
    match crypto::encrypt(admin_token, plain.as_str()) {
        Err(e) => Err(AppError::internal(e.message())),
        Ok(sealed) => Ok(sealed),
    }
}

// ---------------------------------------------------------------------------
// What is asked for
// ---------------------------------------------------------------------------
pub open spec fn valid_provider(key: Seq<char>) -> bool {
    key == "easypay"@ || key == "alipay"@ || key == "wxpay"@ || key == "stripe"@
}

pub open spec fn provider_failure(key: Seq<char>) -> Option<Refusal> {
    if valid_provider(key) {
        None
    } else {
        Some(
            (
                ErrorKind::BadRequest,
                "无效的 providerKey，可选值: easypay, alipay, wxpay, stripe"@,
            ),
        )
    }
}

pub fn validate_provider_key(provider_key: &str) -> (r: Result<(), AppError>)
    ensures
        error::refusal_of(r) == provider_failure(provider_key@),
{
    if text::same(provider_key, "easypay") || text::same(provider_key, "alipay") || text::same(
        provider_key,
        "wxpay",
    ) || text::same(provider_key, "stripe") {
        Ok(())
    } else {
        Err(
            AppError::bad_request(
                "无效的 providerKey，可选值: easypay, alipay, wxpay, stripe",
            ),
        )
    }
}

pub open spec fn name_failure(name: Seq<char>) -> Option<Refusal> {
    if text::trimmed(name).len() == 0 {
        Some((ErrorKind::BadRequest, "name 不能为空"@))
    } else {
        None
    }
}

pub fn validate_name(name: &str) -> (r: Result<(), AppError>)
    ensures
        error::refusal_of(r) == name_failure(name@),
{
    if text::trim(name).is_empty() {
        Err(AppError::bad_request("name 不能为空"))
    } else {
        Ok(())
    }
}

pub open spec fn sort_failure(sort_order: Option<i64>) -> Option<Refusal> {
    if sort_order matches Some(n) && n < 0 {
        Some((ErrorKind::BadRequest, "sortOrder 必须是非负整数"@))
    } else {
        None
    }
}

pub fn validate_sort_order(sort_order: Option<i64>) -> (r: Result<(), AppError>)
    ensures
        error::refusal_of(r) == sort_failure(sort_order),
{
    match sort_order {
        Some(n) => if n < 0 {
            Err(AppError::bad_request("sortOrder 必须是非负整数"))
        } else {
            Ok(())
        },
        None => Ok(()),
    }
}

/// A new instance, as it is asked for. The limits are a JSON document, as text.
#[derive(Debug)]
pub struct CreateProviderInstanceRequest {
    pub provider_key: String,
    pub name: String,
    pub config: TextMap<String>,
    pub enabled: Option<bool>,
    pub sort_order: Option<i64>,
    pub supported_types: Option<String>,
    pub limits: Option<String>,
    pub refund_enabled: Option<bool>,
}

/// Why a new instance is refused, if it is.
pub open spec fn create_failure(body: CreateProviderInstanceRequest) -> Option<Refusal> {
    if provider_failure(body.provider_key@) is Some {
        provider_failure(body.provider_key@)
    } else if name_failure(body.name@) is Some {
        name_failure(body.name@)
    } else {
        sort_failure(body.sort_order)
    }
}

pub open spec fn or_true(b: Option<bool>) -> bool {
    match b {
        Some(v) => v,
        None => true,
    }
}

pub open spec fn instance_from(
    w: ProviderInstanceWrite,
    key: Seq<u8>,
    body: CreateProviderInstanceRequest,
) -> bool {
    &&& w.provider_key@ == body.provider_key@
    &&& w.name@ == text::trimmed(body.name@)
    &&& settings_in(key, w.config@) == Ok::<Map<Seq<char>, Seq<char>>, Refusal>(
        maps::text_map(body.config@),
    )
    &&& w.supported_types@ == payment_provider::or_empty(db::opt_text(body.supported_types))
    &&& w.enabled == or_true(body.enabled)
    &&& w.sort_order == match body.sort_order {
        Some(n) => n,
        None => 0,
    }
    &&& w.limits == body.limits
    &&& w.refund_enabled == (body.refund_enabled == Some(true))
}

/// The instance to store for what is asked. Its settings are sealed.
pub fn new_instance(admin_token: Option<&str>, body: CreateProviderInstanceRequest) -> (r: Result<
    ProviderInstanceWrite,
    AppError,
>)
    requires
        body.config.wf(),
    ensures
        match create_failure(body) {
            Some(refusal) => r matches Err(e) && e@ == refusal,
            None => (r is Ok <==> can_be_sealed(body.config)) && match r {
                Ok(w) => instance_from(w, crypto::key_of(admin_token), body),
                Err(e) => e@ == (ErrorKind::Internal, crypto::CryptoError::TooLong.text()),
            },
        },
{
    if let Err(e) = validate_provider_key(body.provider_key.as_str()) {
        return Err(e);
    }
    if let Err(e) = validate_name(body.name.as_str()) {
        return Err(e);
    }
    if let Err(e) = validate_sort_order(body.sort_order) {
        return Err(e);
    }
    let config = match seal_settings(admin_token, &body.config) {
        Ok(sealed) => sealed,
        Err(e) => {
            return Err(e);
        },
    };
    let supported_types = match body.supported_types {
        Some(t) => t,
        None => "".to_owned(),
    };
    let enabled = match body.enabled {
        Some(b) => b,
        None => true,
    };
    let sort_order: i64 = match body.sort_order {
        Some(n) => n,
        None => 0,
    };
    let refund_enabled = match body.refund_enabled {
        Some(b) => b,
        None => false,
    };
    Ok(
        ProviderInstanceWrite {
            provider_key: body.provider_key,
            name: text::trim(body.name.as_str()).to_owned(),
            config,
            supported_types,
            enabled,
            sort_order,
            limits: body.limits,
            refund_enabled,
        },
    )
}

// ---------------------------------------------------------------------------
// Changes
// ---------------------------------------------------------------------------
/// A text that may be left out, but is no other value.
pub open spec fn text_field(o: Map<Seq<char>, JsonValue>, key: Seq<char>) -> Result<
    Option<Seq<char>>,
    Refusal,
> {
    match fields::field(o, key) {
        None => Ok(None),
        Some(v) => match v.data {
            JsonData::Text { text } => Ok(Some(text@)),
            _ => fields::refused(key + " 必须是字符串"@),
        },
    }
}

pub fn optional_string_field(body: &TextMap<JsonValue>, key: &str) -> (r: Result<
    Option<String>,
    AppError,
>)
    requires
        body.wf(),
    ensures
        fields::opt_text_result(r) == text_field(body@, key@),
{
    match fields::get_field(body, key) {
        None => Ok(None),
        Some(v) => match &v.data {
            JsonData::Text { text } => Ok(Some(text.clone())),
            _ => Err(AppError::bad_request(text::cat(key, " 必须是字符串").as_str())),
        },
    }
}

/// A flag that may be left out, but is no other value.
pub open spec fn flag_field(o: Map<Seq<char>, JsonValue>, key: Seq<char>) -> Result<
    Option<bool>,
    Refusal,
> {
    match fields::field(o, key) {
        None => Ok(None),
        Some(v) => match v.data {
            JsonData::Flag { flag } => Ok(Some(flag)),
            _ => fields::refused(key + " 必须是布尔值"@),
        },
    }
}

pub fn optional_bool_field(body: &TextMap<JsonValue>, key: &str) -> (r: Result<
    Option<bool>,
    AppError,
>)
    requires
        body.wf(),
    ensures
        fields::plain_result(r) == flag_field(body@, key@),
{
    match fields::get_field(body, key) {
        None => Ok(None),
        Some(v) => match &v.data {
            JsonData::Flag { flag } => Ok(Some(*flag)),
            _ => Err(AppError::bad_request(text::cat(key, " 必须是布尔值").as_str())),
        },
    }
}

/// An integer that may be left out, but is no other value.
pub open spec fn integer_field(o: Map<Seq<char>, JsonValue>, key: Seq<char>) -> Result<
    Option<i64>,
    Refusal,
> {
    match fields::field(o, key) {
        None => Ok(None),
        Some(v) => match fields::integer_of(v) {
            Some(n) => Ok(Some(n)),
            None => fields::refused(key + " 必须是整数"@),
        },
    }
}

pub fn optional_i64_field(body: &TextMap<JsonValue>, key: &str) -> (r: Result<
    Option<i64>,
    AppError,
>)
    requires
        body.wf(),
    ensures
        fields::plain_result(r) == integer_field(body@, key@),
{
    match fields::get_field(body, key) {
        None => Ok(None),
        Some(v) => match fields::as_integer(v) {
            Some(n) => Ok(Some(n)),
            None => Err(AppError::bad_request(text::cat(key, " 必须是整数").as_str())),
        },
    }
}

/// The settings among members, which must all be texts; the first that is none is named.
pub open spec fn settings_of(
    members: Seq<(String, JsonValue)>,
    key: Seq<char>,
    before: Map<Seq<char>, Seq<char>>,
) -> Result<Map<Seq<char>, Seq<char>>, Refusal>
    decreases members.len(),
{
    if members.len() == 0 {
        Ok(before)
    } else {
        match members[0].1.data {
            JsonData::Text { text } => settings_of(
                members.drop_first(),
                key,
                before.insert(members[0].0@, text@),
            ),
            _ => fields::refused(key + "."@ + members[0].0@ + " 必须是字符串"@),
        }
    }
}

/// The settings under a key, which must be an object of texts.
pub open spec fn settings_field(o: Map<Seq<char>, JsonValue>, key: Seq<char>) -> Result<
    Map<Seq<char>, Seq<char>>,
    Refusal,
> {
    match fields::field(o, key) {
        None => fields::refused("缺少必填字段: "@ + key),
        Some(v) => match v.data {
            JsonData::Object { members } => settings_of(members.entries(), key, Map::empty()),
            _ => fields::refused(key + " 必须是对象"@),
        },
    }
}

fn read_members(members: &TextMap<JsonValue>, key: &str) -> (r: Result<TextMap<String>, AppError>)
    requires
        members.wf(),
    ensures
        settings_result(r) == settings_of(members.entries(), key@, Map::empty()),
        r matches Ok(m) ==> m.wf(),
{
    let ghost all = members.entries();
    let mut out: TextMap<String> = TextMap::new();
    assert(maps::text_map(out@) =~= Map::<Seq<char>, Seq<char>>::empty());
    let mut i: usize = 0;
    assert(all.skip(0) =~= all);
    while i < members.len()
        invariant
            members.wf(),
            all == members.entries(),
            i <= all.len(),
            out.wf(),
            settings_of(all, key@, Map::empty()) == settings_of(
                all.skip(i as int),
                key@,
                maps::text_map(out@),
            ),
        decreases all.len() - i,
    {
        assert(all.skip(i as int)[0] == all[i as int]);
        assert(all.skip(i as int).drop_first() =~= all.skip(i + 1));
        let (child, value) = members.entry(i);
        match &value.data {
            JsonData::Text { text } => {
                let ghost before = out@;
                out.insert(child.to_owned(), text.clone());
                assert(maps::text_map(out@) =~= maps::text_map(before).insert(child@, text@));
            },
            _ => {
                let mut message = text::cat3(key, ".", child);
                message.append(" 必须是字符串");
                return Err(AppError::bad_request(message.as_str()));
            },
        }
        i += 1;
    }
    Ok(out)
}

pub fn required_string_map_field(body: &TextMap<JsonValue>, key: &str) -> (r: Result<
    TextMap<String>,
    AppError,
>)
    requires
        body.wf(),
        fields::field(body@, key@) matches Some(v) ==> v.wf(),
    ensures
        settings_result(r) == settings_field(body@, key@),
        r matches Ok(m) ==> m.wf(),
{
    match fields::get_field(body, key) {
        None => Err(AppError::bad_request(text::cat("缺少必填字段: ", key).as_str())),
        Some(v) => match &v.data {
            JsonData::Object { members } => read_members(members, key),
            _ => Err(AppError::bad_request(text::cat(key, " 必须是对象").as_str())),
        },
    }
}

/// What is read of a change: what is left out stays as it was.
pub struct ChangeReading {
    pub provider_key: Result<Option<Seq<char>>, Refusal>,
    pub name: Result<Option<Seq<char>>, Refusal>,
    pub enabled: Result<Option<bool>, Refusal>,
    pub sort_order: Result<Option<i64>, Refusal>,
    pub supported_types: Result<Option<Seq<char>>, Refusal>,
    pub refund_enabled: Result<Option<bool>, Refusal>,
    pub config: Result<Option<Map<Seq<char>, Seq<char>>>, Refusal>,
}

pub open spec fn change_of(o: Map<Seq<char>, JsonValue>) -> ChangeReading {
    ChangeReading {
        provider_key: match text_field(o, "providerKey"@) {
            Ok(Some(k)) => match provider_failure(k) {
                Some(e) => Err(e),
                None => Ok(Some(k)),
            },
            r => r,
        },
        name: match text_field(o, "name"@) {
            Ok(Some(n)) => match name_failure(n) {
                Some(e) => Err(e),
                None => Ok(Some(text::trimmed(n))),
            },
            r => r,
        },
        enabled: flag_field(o, "enabled"@),
        sort_order: match integer_field(o, "sortOrder"@) {
            Ok(n) => match sort_failure(n) {
                Some(e) => Err(e),
                None => Ok(n),
            },
            r => r,
        },
        supported_types: text_field(o, "supportedTypes"@),
        refund_enabled: flag_field(o, "refundEnabled"@),
        config: if o.dom().contains("config"@) {
            match settings_field(o, "config"@) {
                Ok(m) => Ok(Some(m)),
                Err(e) => Err(e),
            }
        } else {
            Ok(None)
        },
    }
}

/// The first field that makes a change be refused, in the order in which they are read.
pub open spec fn change_failure(c: ChangeReading) -> Option<Refusal> {
    if c.provider_key is Err {
        fields::failure(c.provider_key)
    } else if c.name is Err {
        fields::failure(c.name)
    } else if c.enabled is Err {
        fields::failure(c.enabled)
    } else if c.sort_order is Err {
        fields::failure(c.sort_order)
    } else if c.supported_types is Err {
        fields::failure(c.supported_types)
    } else if c.refund_enabled is Err {
        fields::failure(c.refund_enabled)
    } else if c.config is Err {
        fields::failure(c.config)
    } else {
        None
    }
}

pub open spec fn or_text(o: Option<Seq<char>>, existing: Seq<char>) -> Seq<char> {
    match o {
        Some(t) => t,
        None => existing,
    }
}

/// The limits after a change: those that are given, where they are, and null is none.
pub open spec fn limits_after(o: Map<Seq<char>, JsonValue>, existing: Option<Seq<char>>) -> Option<
    Seq<char>,
> {
    match fields::field(o, "limits"@) {
        None => existing,
        Some(v) => if v.data is Null {
            None
        } else {
            Some(v.shown@)
        },
    }
}

/// An instance after a change, but for its settings.
pub open spec fn changed_instance(
    w: ProviderInstanceWrite,
    existing: ProviderInstanceRecord,
    o: Map<Seq<char>, JsonValue>,
) -> bool {
    let c = change_of(o);
    &&& w.provider_key@ == or_text(c.provider_key->Ok_0, existing.provider_key@)
    &&& w.name@ == or_text(c.name->Ok_0, existing.name@)
    &&& w.config@ == existing.config@
    &&& w.supported_types@ == or_text(c.supported_types->Ok_0, existing.supported_types@)
    &&& w.enabled == match c.enabled->Ok_0 {
        Some(b) => b,
        None => existing.enabled,
    }
    &&& w.sort_order == match c.sort_order->Ok_0 {
        Some(n) => n,
        None => existing.sort_order,
    }
    &&& db::opt_text(w.limits) == limits_after(o, db::opt_text(existing.limits))
    &&& w.refund_enabled == match c.refund_enabled->Ok_0 {
        Some(b) => b,
        None => existing.refund_enabled,
    }
}

/// A change of an instance: what is stored, with the settings that it had, and the new
/// settings where any are given.
#[derive(Debug)]
pub struct InstanceChange {
    pub write: ProviderInstanceWrite,
    pub config: Option<TextMap<String>>,
}

/// Reads a change of an instance.
pub fn read_update(existing: &ProviderInstanceRecord, body: &TextMap<JsonValue>) -> (r: Result<
    InstanceChange,
    AppError,
>)
    requires
        body.wf(),
        fields::field(body@, "config"@) matches Some(v) ==> v.wf(),
    ensures
        error::refusal_of(r) == change_failure(change_of(body@)),
        r matches Ok(c) ==> {
            &&& changed_instance(c.write, *existing, body@)
            &&& match c.config {
                Some(m) => m.wf() && change_of(body@).config == Ok::<
                    Option<Map<Seq<char>, Seq<char>>>,
                    Refusal,
                >(Some(maps::text_map(m@))),
                None => change_of(body@).config == Ok::<
                    Option<Map<Seq<char>, Seq<char>>>,
                    Refusal,
                >(None),
            }
        },
{
    let provider_key = match optional_string_field(body, "providerKey") {
        Ok(Some(k)) => {
            if let Err(e) = validate_provider_key(k.as_str()) {
                return Err(e);
            }
            k
        },
        Ok(None) => existing.provider_key.clone(),
        Err(e) => {
            return Err(e);
        },
    };
    let name = match optional_string_field(body, "name") {
        Ok(Some(n)) => {
            if let Err(e) = validate_name(n.as_str()) {
                return Err(e);
            }
            text::trim(n.as_str()).to_owned()
        },
        Ok(None) => existing.name.clone(),
        Err(e) => {
            return Err(e);
        },
    };
    let enabled = match optional_bool_field(body, "enabled") {
        Ok(Some(b)) => b,
        Ok(None) => existing.enabled,
        Err(e) => {
            return Err(e);
        },
    };
    let sort_order: i64 = match optional_i64_field(body, "sortOrder") {
        Ok(Some(n)) => {
            if let Err(e) = validate_sort_order(Some(n)) {
                return Err(e);
            }
            n
        },
        Ok(None) => existing.sort_order,
        Err(e) => {
            return Err(e);
        },
    };
    let supported_types = match optional_string_field(body, "supportedTypes") {
        Ok(Some(t)) => t,
        Ok(None) => existing.supported_types.clone(),
        Err(e) => {
            return Err(e);
        },
    };
    let limits = match fields::get_field(body, "limits") {
        None => db::copy_opt(&existing.limits),
        Some(v) => match &v.data {
            JsonData::Null => None,
            _ => Some(v.shown.clone()),
        },
    };
    let refund_enabled = match optional_bool_field(body, "refundEnabled") {
        Ok(Some(b)) => b,
        Ok(None) => existing.refund_enabled,
        Err(e) => {
            return Err(e);
        },
    };
    let config = if fields::get_field(body, "config").is_some() {
        match required_string_map_field(body, "config") {
            Ok(m) => Some(m),
            Err(e) => {
                return Err(e);
            },
        }
    } else {
        None
    };
    let write = ProviderInstanceWrite {
        provider_key,
        name,
        config: existing.config.clone(),
        supported_types,
        enabled,
        sort_order,
        limits,
        refund_enabled,
    };
    Ok(InstanceChange { write, config })
}

/// The settings after a change, and whether a secret changes with it.
#[derive(Debug)]
pub struct SettledSettings {
    pub merged: TextMap<String>,
    pub credentials_change: bool,
}

/// Works out the settings after a change from the new ones and those that are stored.
pub fn settle_settings(admin_token: Option<&str>, stored: &str, new: &TextMap<String>) -> (r: Result<
    SettledSettings,
    AppError,
>)
    requires
        new.wf(),
    ensures
        match settings_in(crypto::key_of(admin_token), stored@) {
            Err(refusal) => r matches Err(e) && e@ == refusal,
            Ok(existing) => {
                &&& r matches Ok(s)
                &&& s.merged.wf()
                &&& maps::text_map(s.merged@) == merged_settings(maps::text_map(new@), existing)
                &&& s.credentials_change == credentials_change(
                    maps::text_map(s.merged@),
                    existing,
                )
            },
        },
{
    match decrypt_config_map(admin_token, stored) {
        Err(e) => Err(e),
        Ok(existing) => {
            let merged = merge_config_with_existing(new, &existing);
            let credentials_change = has_credential_change(&merged, &existing);
            Ok(SettledSettings { merged, credentials_change })
        },
    }
}

/// Why the secrets of an instance cannot be changed, if they cannot: orders are under way.
pub open spec fn pending_change_refusal(pending_count: i64) -> Option<Refusal> {
    if pending_count > 0 {
        Some(
            (
                ErrorKind::Conflict,
                "该实例有 "@ + text::decimal(pending_count as int)
                    + " 个进行中的订单，修改凭证可能导致回调验签失败。请等待订单完成后再修改，或先禁用该实例。"@,
            ),
        )
    } else {
        None
    }
}

pub fn check_credential_change(pending_count: i64) -> (r: Result<(), AppError>)
    ensures
        error::refusal_of(r) == pending_change_refusal(pending_count),
{
    if pending_count > 0 {
        let message = text::cat3(
            "该实例有 ",
            text::i64_text(pending_count).as_str(),
            " 个进行中的订单，修改凭证可能导致回调验签失败。请等待订单完成后再修改，或先禁用该实例。",
        );
        return Err(AppError::conflict(message.as_str()));
    }
    Ok(())
}

/// The instance with its settings after a change.
pub fn store_settings(
    admin_token: Option<&str>,
    write: ProviderInstanceWrite,
    merged: &TextMap<String>,
) -> (r: Result<ProviderInstanceWrite, AppError>)
    requires
        merged.wf(),
    ensures
        r is Ok <==> can_be_sealed(*merged),
        match r {
            Ok(w) => {
                &&& settings_in(crypto::key_of(admin_token), w.config@) == Ok::<
                    Map<Seq<char>, Seq<char>>,
                    Refusal,
                >(maps::text_map(merged@))
                &&& w == (ProviderInstanceWrite { config: w.config, ..write })
            },
            Err(e) => e@ == (ErrorKind::Internal, crypto::CryptoError::TooLong.text()),
        },
{
    match seal_settings(admin_token, merged) {
        Err(e) => Err(e),
        Ok(sealed) => {
            let mut w = write;
            w.config = sealed;
            Ok(w)
        },
    }
}

/// What is done about a change of an instance.
#[derive(Debug)]
pub enum InstanceUpdate {
    /// A secret changes: the orders of the instance that are under way are counted first.
    Count,
    Write { write: ProviderInstanceWrite },
    Refuse { why: AppError },
}

/// The instance is written with its new settings, unless they are too long to be sealed.
pub open spec fn writes_settings(
    r: InstanceUpdate,
    key: Seq<u8>,
    existing: ProviderInstanceRecord,
    o: Map<Seq<char>, JsonValue>,
    merged: Map<Seq<char>, Seq<char>>,
) -> bool {
    exists|m: TextMap<String>| #[trigger]
        can_be_sealed(m) == (r is Write) && m.wf() && maps::text_map(m@) == merged && match r {
            InstanceUpdate::Write { write } => {
                &&& changed_instance(
                    (ProviderInstanceWrite { config: existing.config, ..write }),
                    existing,
                    o,
                )
                &&& settings_in(key, write.config@) == Ok::<Map<Seq<char>, Seq<char>>, Refusal>(
                    merged,
                )
            },
            InstanceUpdate::Refuse { why } => why@ == (
                ErrorKind::Internal,
                crypto::CryptoError::TooLong.text(),
            ),
            InstanceUpdate::Count => false,
        }
}

pub open spec fn refuses(r: InstanceUpdate, refusal: Refusal) -> bool {
    r matches InstanceUpdate::Refuse { why } && why@ == refusal
}

/// What is done about a change of an instance: secrets are changed only while none of its
/// orders is under way.
pub open spec fn update_is(
    r: InstanceUpdate,
    key: Seq<u8>,
    existing: ProviderInstanceRecord,
    o: Map<Seq<char>, JsonValue>,
    pending_count: Option<i64>,
) -> bool {
    match change_failure(change_of(o)) {
        Some(refusal) => refuses(r, refusal),
        None => match change_of(o).config->Ok_0 {
            None => r matches InstanceUpdate::Write { write } && changed_instance(
                write,
                existing,
                o,
            ),
            Some(new) => match settings_in(key, existing.config@) {
                Err(refusal) => refuses(r, refusal),
                Ok(stored) => {
                    let merged = merged_settings(new, stored);
                    if !credentials_change(merged, stored) {
                        writes_settings(r, key, existing, o, merged)
                    } else {
                        match pending_count {
                            None => r is Count,
                            Some(n) => match pending_change_refusal(n) {
                                Some(refusal) => refuses(r, refusal),
                                None => writes_settings(r, key, existing, o, merged),
                            },
                        }
                    }
                },
            },
        },
    }
}

/// Decides on a change of an instance, with the number of its orders that are under way as
/// far as they were counted.
pub fn decide_update(
    admin_token: Option<&str>,
    existing: &ProviderInstanceRecord,
    body: &TextMap<JsonValue>,
    pending_count: Option<i64>,
) -> (r: InstanceUpdate)
    requires
        body.wf(),
        fields::field(body@, "config"@) matches Some(v) ==> v.wf(),
    ensures
        update_is(r, crypto::key_of(admin_token), *existing, body@, pending_count),
{
    let change = match read_update(existing, body) {
        Ok(c) => c,
        Err(why) => {
            return InstanceUpdate::Refuse { why };
        },
    };
    let config = match change.config {
        None => {
            return InstanceUpdate::Write { write: change.write };
        },
        Some(m) => m,
    };
    let settled = match settle_settings(admin_token, existing.config.as_str(), &config) {
        Ok(s) => s,
        Err(why) => {
            return InstanceUpdate::Refuse { why };
        },
    };
    if settled.credentials_change {
        match pending_count {
            None => {
                return InstanceUpdate::Count;
            },
            Some(n) => {
                if let Err(why) = check_credential_change(n) {
                    return InstanceUpdate::Refuse { why };
                }
            },
        }
    }
    let r = match store_settings(admin_token, change.write, &settled.merged) {
        Ok(write) => InstanceUpdate::Write { write },
        Err(why) => InstanceUpdate::Refuse { why },
    };
    assert(can_be_sealed(settled.merged) == (r is Write));
    r
}

/// While orders of an instance are under way, no change of it changes a secret: the settings
/// that are written hold the secrets that were stored.
pub proof fn law_secrets_stay_while_orders_are_open(
    r: InstanceUpdate,
    key: Seq<u8>,
    existing: ProviderInstanceRecord,
    o: Map<Seq<char>, JsonValue>,
    pending_count: i64,
)
    requires
        update_is(r, key, existing, o, Some(pending_count)),
        pending_count > 0,
        settings_in(key, existing.config@) is Ok,
    ensures
        r matches InstanceUpdate::Write { write } ==> settings_in(key, write.config@) matches Ok(
            after,
        ) && !credentials_change(after, settings_in(key, existing.config@)->Ok_0),
{
}

/// Why an instance cannot be deleted, if it cannot.
pub open spec fn delete_refusal(pending_count: i64) -> Option<Refusal> {
    if pending_count > 0 {
        Some(
            (
                ErrorKind::Conflict,
                "该实例有 "@ + text::decimal(pending_count as int)
                    + " 个进行中的订单，无法删除。请等待订单完成或先禁用该实例。"@,
            ),
        )
    } else {
        None
    }
}

pub fn check_delete(pending_count: i64) -> (r: Result<(), AppError>)
    ensures
        error::refusal_of(r) == delete_refusal(pending_count),
{
    if pending_count > 0 {
        let message = text::cat3(
            "该实例有 ",
            text::i64_text(pending_count).as_str(),
            " 个进行中的订单，无法删除。请等待订单完成或先禁用该实例。",
        );
        return Err(AppError::conflict(message.as_str()));
    }
    Ok(())
}

/// An instance that must be there.
pub fn require_instance(found: Option<ProviderInstanceRecord>) -> (r: Result<
    ProviderInstanceRecord,
    AppError,
>)
    ensures
        match found {
            Some(i) => r == Ok::<ProviderInstanceRecord, AppError>(i),
            None => r matches Err(e) && e@ == (ErrorKind::NotFound, "支付实例不存在"@),
        },
{
    match found {
        Some(i) => Ok(i),
        None => Err(AppError::not_found("支付实例不存在")),
    }
}

// ---------------------------------------------------------------------------
// What is shown
// ---------------------------------------------------------------------------
/// An instance as it is shown. The limits are a JSON document, as text.
#[derive(Debug)]
pub struct ProviderInstanceView {
    pub id: String,
    pub provider_key: String,
    pub name: String,
    pub config: TextMap<String>,
    pub supported_types: String,
    pub enabled: bool,
    pub sort_order: i64,
    pub limits: Option<String>,
    pub refund_enabled: bool,
    pub created_at: i64,
    pub updated_at: i64,
}

pub open spec fn instance_shown(
    v: ProviderInstanceView,
    record: ProviderInstanceRecord,
    settings: Map<Seq<char>, Seq<char>>,
) -> bool {
    &&& v.id == record.id
    &&& v.provider_key == record.provider_key
    &&& v.name == record.name
    &&& v.config.wf()
    &&& maps::text_map(v.config@) == shown_settings(settings)
    &&& v.supported_types == record.supported_types
    &&& v.enabled == record.enabled
    &&& v.sort_order == record.sort_order
    &&& v.limits == record.limits
    &&& v.refund_enabled == record.refund_enabled
    &&& v.created_at == record.created_at
    &&& v.updated_at == record.updated_at
}

/// Shows an instance whose settings were read.
pub fn to_view(record: ProviderInstanceRecord, settings: &TextMap<String>) -> (r:
    ProviderInstanceView)
    requires
        settings.wf(),
        showable(maps::text_map(settings@)),
    ensures
        instance_shown(r, record, maps::text_map(settings@)),
{
    ProviderInstanceView {
        id: record.id,
        provider_key: record.provider_key,
        name: record.name,
        config: mask_settings(settings),
        supported_types: record.supported_types,
        enabled: record.enabled,
        sort_order: record.sort_order,
        limits: record.limits,
        refund_enabled: record.refund_enabled,
        created_at: record.created_at,
        updated_at: record.updated_at,
    }
}

// ---------------------------------------------------------------------------
// Laws
// ---------------------------------------------------------------------------
/// The settings that are shown, when they come back unchanged, leave the settings as they
/// are, and no secret changes; unless a secret has five, six or seven bytes, of which too few
/// are masked for the mask to be known.
pub proof fn law_shown_settings_come_back(settings: Map<Seq<char>, Seq<char>>)
    requires
        forall|k: Seq<char>|
            settings.dom().contains(k) && sensitive(k) ==> !(5 <= vstd::utf8::encode_utf8(
                #[trigger] settings[k],
            ).len() <= 7),
    ensures
        merged_settings(shown_settings(settings), settings) == settings,
        !credentials_change(merged_settings(shown_settings(settings), settings), settings),
{
    let shown = shown_settings(settings);
    let merged = merged_settings(shown, settings);
    assert forall|k: Seq<char>| settings.dom().contains(k) implies #[trigger] merged[k]
        == settings[k] by {
        if sensitive(k) {
            masking::law_masks_are_known(settings[k]);
        }
    }
    assert(merged =~= settings);
}

/// A secret is not shown: what is shown of it is stars and its last four bytes.
pub proof fn law_secrets_are_not_shown(settings: Map<Seq<char>, Seq<char>>, k: Seq<char>)
    requires
        settings.dom().contains(k),
        sensitive(k),
    ensures
        shown_settings(settings)[k] == masking::masked(settings[k]),
{
}

/// A setting that is no mask replaces the one before it; a setting that is left out is gone.
pub proof fn law_new_settings_replace(
    new: Map<Seq<char>, Seq<char>>,
    existing: Map<Seq<char>, Seq<char>>,
    k: Seq<char>,
)
    ensures
        !new.dom().contains(k) ==> !merged_settings(new, existing).dom().contains(k),
        new.dom().contains(k) && !masking::looks_masked(new[k]) ==> merged_settings(new, existing)[k]
            == new[k],
        sensitive(k) && new.dom().contains(k) && !masking::looks_masked(new[k]) && maps::found(
            existing,
            k,
        ) != Some(new[k]) ==> credentials_change(merged_settings(new, existing), existing),
{
    let m = merged_settings(new, existing);
    if new.dom().contains(k) {
        assert(m.dom().contains(k));
    }
}

/// A mask that is sent back stands for the setting that is stored, and any other text for
/// itself; what is not sent is no longer there.
pub proof fn law_masks_stand_for_what_is_stored(
    new: Map<Seq<char>, Seq<char>>,
    stored: Map<Seq<char>, Seq<char>>,
    key: Seq<char>,
)
    ensures
        merged_settings(new, stored).dom().contains(key) <==> new.dom().contains(key),
        new.dom().contains(key) && masking::looks_masked(new[key]) && stored.dom().contains(key)
            ==> merged_settings(new, stored)[key] == stored[key],
        new.dom().contains(key) && !masking::looks_masked(new[key]) ==> merged_settings(
            new,
            stored,
        )[key] == new[key],
        credentials_change(merged_settings(new, stored), stored) <==> exists|k: Seq<char>|
            sensitive(k) && #[trigger] new.dom().contains(k) && (stored.dom().contains(k) ==> !(
            masking::looks_masked(new[k])) && new[k] != stored[k]),
{
    let merged = merged_settings(new, stored);
    if credentials_change(merged, stored) {
        let k = choose|k: Seq<char>|
            sensitive(k) && #[trigger] merged.dom().contains(k) && maps::found(stored, k) != Some(
                merged[k],
            );
        assert(new.dom().contains(k));
    }
    assert forall|k: Seq<char>|
        sensitive(k) && #[trigger] new.dom().contains(k) && (stored.dom().contains(k) ==> !(
        masking::looks_masked(new[k])) && new[k] != stored[k]) implies credentials_change(
        merged,
        stored,
    ) by {
        assert(merged.dom().contains(k));
    }
}

/// A secret of an instance is shown masked, and anything else as it is; a setting is a secret
/// where its name speaks of a key, a secret, a password or something private, in capitals or
/// not.
pub proof fn law_instances_are_shown_as_they_are(
    v: ProviderInstanceView,
    record: ProviderInstanceRecord,
    settings: Map<Seq<char>, Seq<char>>,
    key: Seq<char>,
    i: int,
)
    requires
        instance_shown(v, record, settings),
        settings.dom().contains(key),
    ensures
        v.id == record.id && v.provider_key == record.provider_key && v.name == record.name,
        v.enabled == record.enabled && v.refund_enabled == record.refund_enabled,
        v.sort_order == record.sort_order && v.limits == record.limits,
        v.supported_types == record.supported_types,
        maps::text_map(v.config@).dom().contains(key),
        ({
            let name = text::lowered(key);
            let at = |word: Seq<char>|
                0 <= i <= name.len() - word.len() && name.subrange(i, i + word.len()) == word;
            at("key"@) || at("secret"@) || at("private"@) || at("password"@) ==> maps::text_map(
                v.config@,
            )[key] == masking::masked(settings[key])
        }),
        !sensitive(key) ==> maps::text_map(v.config@)[key] == settings[key],
{
    let name = text::lowered(key);
    lemma_at("key"@, name, i);
    lemma_at("secret"@, name, i);
    lemma_at("private"@, name, i);
    lemma_at("password"@, name, i);
}

proof fn lemma_at(word: Seq<char>, name: Seq<char>, i: int)
    ensures
        0 <= i <= name.len() - word.len() && name.subrange(i, i + word.len()) == word
            ==> text::occurs_in(word, name),
{
    if 0 <= i <= name.len() - word.len() && name.subrange(i, i + word.len()) == word {
        assert(text::occurs_at(word, name, i));
    }
}

/// An instance can be created exactly for a known gateway, under a name and at no place below
/// zero; it is enabled unless the body says not, gives refunds only where the body says so, and
/// holds the settings of the body under the secret.
pub proof fn law_instances_are_created_as_written(
    w: ProviderInstanceWrite,
    key: Seq<u8>,
    body: CreateProviderInstanceRequest,
)
    requires
        instance_from(w, key, body),
    ensures
        create_failure(body) is None <==> {
            &&& body.provider_key@ == "easypay"@ || body.provider_key@ == "alipay"@
                || body.provider_key@ == "wxpay"@ || body.provider_key@ == "stripe"@
            &&& text::trimmed(body.name@).len() > 0
            &&& body.sort_order matches Some(n) ==> n >= 0
        },
        w.provider_key@ == body.provider_key@,
        w.name@ == text::trimmed(body.name@),
        w.enabled <==> body.enabled != Some(false),
        w.refund_enabled <==> body.refund_enabled == Some(true),
        body.sort_order matches Some(n) ==> w.sort_order == n,
        body.sort_order is None ==> w.sort_order == 0,
        w.limits == body.limits,
        body.supported_types matches Some(t) ==> w.supported_types@ == t@,
        body.supported_types is None ==> w.supported_types@.len() == 0,
        crypto::opened(key, w.config@) is Ok,
        json::json_string_map(crypto::opened(key, w.config@)->Ok_0) == Ok::<
            Map<Seq<char>, Seq<char>>,
            Seq<char>,
        >(maps::text_map(body.config@)),
{
    reveal_strlit("");
}

/// An instance keeps what a change of it does not name. A change of its secrets waits until the
/// orders that are under way were counted, and is refused exactly where there are any.
pub proof fn law_secrets_change_only_when_nothing_is_under_way(
    r: InstanceUpdate,
    key: Seq<u8>,
    existing: ProviderInstanceRecord,
    o: Map<Seq<char>, JsonValue>,
    pending_count: Option<i64>,
)
    requires
        update_is(r, key, existing, o, pending_count),
    ensures
        r matches InstanceUpdate::Write { write: w } ==> {
            &&& !o.dom().contains("providerKey"@) ==> w.provider_key@ == existing.provider_key@
            &&& !o.dom().contains("name"@) ==> w.name@ == existing.name@
            &&& !o.dom().contains("enabled"@) ==> w.enabled == existing.enabled
            &&& !o.dom().contains("sortOrder"@) ==> w.sort_order == existing.sort_order
            &&& !o.dom().contains("supportedTypes"@) ==> w.supported_types@
                == existing.supported_types@
            &&& !o.dom().contains("refundEnabled"@) ==> w.refund_enabled
                == existing.refund_enabled
            &&& !o.dom().contains("limits"@) ==> db::opt_text(w.limits) == db::opt_text(
                existing.limits,
            )
            &&& o.dom().contains("limits"@) && o["limits"@].data is Null ==> w.limits is None
            &&& !o.dom().contains("config"@) ==> w.config@ == existing.config@
            &&& o.dom().contains("enabled"@) ==> (o["enabled"@].data matches JsonData::Flag {
                flag,
            } && w.enabled == flag)
            &&& o.dom().contains("refundEnabled"@) ==> (
            o["refundEnabled"@].data matches JsonData::Flag { flag } && w.refund_enabled == flag)
            &&& o.dom().contains("name"@) ==> (o["name"@].data matches JsonData::Text { text }
                && w.name@ == text::trimmed(text@) && w.name@.len() > 0)
            &&& w.sort_order >= 0 || w.sort_order == existing.sort_order
        },
        change_failure(change_of(o)) is None && o.dom().contains("config"@) && (settings_in(
            key,
            existing.config@,
        ) matches Ok(stored) && credentials_change(
            merged_settings(change_of(o).config->Ok_0->0, stored),
            stored,
        )) ==> {
            &&& pending_count is None <==> r is Count
            &&& pending_count matches Some(n) ==> n > 0 ==> (r matches InstanceUpdate::Refuse {
                why,
            } && why@.0 == ErrorKind::Conflict)
        },
        !o.dom().contains("config"@) ==> !(r is Count),
{
}

/// An instance can be deleted, and its secrets changed, exactly where no order of it is under
/// way.
pub proof fn law_instances_under_way_are_kept(pending_count: i64)
    ensures
        delete_refusal(pending_count) is None <==> pending_count <= 0,
        pending_change_refusal(pending_count) is None <==> pending_count <= 0,
{
}

/// A change is refused for the first of its faults, and for none exactly where it has none.
pub proof fn law_first_fault_of_a_change_is_told(c: ChangeReading)
    ensures
        change_failure(c) is None <==> c.provider_key is Ok && c.name is Ok && c.enabled is Ok
            && c.sort_order is Ok && c.supported_types is Ok && c.refund_enabled is Ok
            && c.config is Ok,
        c.provider_key matches Err(e) ==> change_failure(c) == Some(e),
        c.provider_key is Ok ==> (c.name matches Err(e) ==> change_failure(c) == Some(e)),
{
}


/// An instance that is changed has what the change names as the change has it.
pub proof fn law_instances_have_what_is_named(
    w: ProviderInstanceWrite,
    existing: ProviderInstanceRecord,
    o: Map<Seq<char>, JsonValue>,
)
    requires
        change_failure(change_of(o)) is None,
        changed_instance(w, existing, o),
    ensures
        o.dom().contains("providerKey"@) ==> (o["providerKey"@].data matches JsonData::Text {
            text,
        } && w.provider_key@ == text@) && (w.provider_key@ == "easypay"@ || w.provider_key@
            == "alipay"@ || w.provider_key@ == "wxpay"@ || w.provider_key@ == "stripe"@),
        o.dom().contains("supportedTypes"@) ==> (
        o["supportedTypes"@].data matches JsonData::Text { text } && w.supported_types@ == text@),
        o.dom().contains("sortOrder"@) ==> (o["sortOrder"@].data matches JsonData::Number {
            number,
        } && number.integer == Some(w.sort_order) && w.sort_order >= 0),
        o.dom().contains("limits"@) && !(o["limits"@].data is Null) ==> (w.limits matches Some(l)
            && l@ == o["limits"@].shown@),
{
}

/// An instance is shown with the times at which it was made and changed.
pub proof fn law_instances_are_shown_with_their_times(
    v: ProviderInstanceView,
    record: ProviderInstanceRecord,
    settings: Map<Seq<char>, Seq<char>>,
)
    requires
        instance_shown(v, record, settings),
    ensures
        v.created_at == record.created_at && v.updated_at == record.updated_at,
        forall|k: Seq<char>|
            maps::text_map(v.config@).dom().contains(k) <==> settings.dom().contains(k),
{
}

}
