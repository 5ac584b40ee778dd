//! Texts, times, amounts, hashes and sealed texts.
use base64::engine::general_purpose::URL_SAFE_NO_PAD;
use base64::Engine;
use hmac::digest::KeyInit;
use hmac::{Mac, SimpleHmac};
use opay::clock;
use opay::crypto::{self, CryptoError};
use opay::hash;
use opay::ids;
use opay::json;
use opay::maps::TextMap;
use opay::masking;
use opay::money;
use opay::signing;
use opay::text;
use opay::urlencoded;

#[test]
fn sealed_texts_open_with_their_secret_only() {
    let sealed = crypto::encrypt(Some("secret"), "héllo").unwrap();
    assert_ne!(sealed, "héllo");
    assert_eq!(crypto::decrypt(Some("secret"), &sealed), Ok("héllo".to_string()));
    assert_eq!(crypto::decrypt(Some("other"), &sealed), Err(CryptoError::NotAuthentic));
    assert_eq!(crypto::decrypt(None, &sealed), Err(CryptoError::NotAuthentic));
    assert_ne!(crypto::encrypt(Some("secret"), "héllo").unwrap(), sealed);
}

#[test]
fn sealed_texts_that_are_none_are_refused() {
    let open = |s: &str| crypto::decrypt(Some("secret"), s).unwrap_err();
    assert_eq!(open("abc"), CryptoError::MissingAuthTag);
    assert_eq!(open("a:b"), CryptoError::MissingCiphertext);
    assert_eq!(open("a:b:c:d"), CryptoError::TooManyParts);
    assert_eq!(open("?:AA==:AA=="), CryptoError::IvEncoding);
    assert_eq!(open("AA==:?:AA=="), CryptoError::AuthTagEncoding);
    assert_eq!(open("AA==:AA==:?"), CryptoError::CiphertextEncoding);
    assert_eq!(open("AA==:AA==:AA=="), CryptoError::IvLength);
    assert_eq!(open("AAAAAAAAAAAAAAAA:AA==:AA=="), CryptoError::AuthTagLength);
}

#[test]
fn sealing_under_a_nonce_is_repeatable() {
    let a = crypto::encrypt_with_nonce(Some("s"), "text", &[1; 12]).unwrap();
    assert_eq!(a, crypto::encrypt_with_nonce(Some("s"), "text", &[1; 12]).unwrap());
    assert!(a.starts_with("AQEBAQEBAQEBAQEB:"));
    assert_eq!(crypto::decrypt(Some("s"), &a), Ok("text".to_string()));
    assert_eq!(
        crypto::plaintext_result(Some(vec![0xff, 0xfe])),
        Err(CryptoError::NotUtf8)
    );
}

#[test]
fn hex_and_comparison() {
    assert_eq!(hash::hex_lower(&[0, 15, 255]), "000fff");
    assert!(hash::secure_equals("abc", "abc"));
    assert!(!hash::secure_equals("abc", "abd"));
    assert!(!hash::secure_equals("abc", "abcd"));
}

#[test]
fn identifiers_have_their_shape() {
    let id = ids::new_id();
    assert_eq!(id.len(), 36);
    assert_eq!(id.matches('-').count(), 4);
    assert_ne!(id, ids::new_id());
    assert_eq!(
        ids::hyphenate(&[0x12; 16]),
        "12121212-1212-1212-1212-121212121212"
    );
}

#[test]
fn easypay_signatures_ignore_order_and_themselves() {
    let pair = |k: &str, v: &str| (k.to_string(), v.to_string());
    let a = vec![pair("b", "2"), pair("a", "1"), pair("empty", "")];
    let b = vec![pair("a", "1"), pair("b", "2")];
    let sign = signing::generate_easy_pay_sign(&a, "key");
    assert_eq!(sign, signing::generate_easy_pay_sign(&b, "key"));
    assert_eq!(sign, hash_of("a=1&b=2key"));
    let mut c = b.clone();
    c.push(pair("sign", "x"));
    c.push(pair("sign_type", "MD5"));
    assert_eq!(sign, signing::generate_easy_pay_sign(&c, "key"));
    assert_ne!(sign, signing::generate_easy_pay_sign(&b, "other"));
    assert_eq!(sign, signing::sign_params(&TextMap::from_entries(c), "key"));
}

fn hash_of(s: &str) -> String {
    format!("{:x}", md5::compute(s.as_bytes()))
}

#[test]
fn stripe_signatures_hold_for_five_minutes() {
    let signature = signing::sign_stripe_payload("whsec", 1000, "{}");
    assert_eq!(signature.len(), 64);
    let header = format!("t=1000,v1=bad,v1={signature}");
    let verify = |secret: &str, payload: &str, now: i64| {
        signing::verify_stripe_signature(secret, payload, &header, now).unwrap()
    };
    assert!(verify("whsec", "{}", 1000));
    assert!(verify("whsec", "{}", 1300));
    assert!(verify("whsec", "{}", 700));
    assert!(!verify("whsec", "{}", 1301));
    assert!(!verify("whsec", "{ }", 1000));
    assert!(!verify("other", "{}", 1000));
    assert_eq!(
        signing::verify_stripe_signature("whsec", "{}", "v1=x", 1000).unwrap_err(),
        "Stripe signature header missing timestamp"
    );
}

fn hmac_of(key: &[u8], message: &[u8]) -> Vec<u8> {
    let mut mac = SimpleHmac::<sha2::Sha256>::new_from_slice(key).unwrap();
    mac.update(message);
    mac.finalize().into_bytes().to_vec()
}

#[test]
fn signatures_are_those_of_their_messages() {
    let hex: String = hmac_of(b"whsec", b"1000.{}").iter().map(|b| format!("{b:02x}")).collect();
    assert_eq!(signing::sign_stripe_payload("whsec", 1000, "{}"), hex);
    let key = hmac_of(b"admin", b"order-status-access-key");
    let code = hmac_of(&key, b"order-status-access:v2:order:8:5000");
    assert_eq!(
        signing::build_order_status_signature("admin", "order", 8, 5000),
        URL_SAFE_NO_PAD.encode(code)
    );
}

#[test]
fn access_tokens_open_their_order_until_they_expire() {
    let signature = signing::build_order_status_signature("admin", "order", 8, 5000);
    let token = format!(" 5000.8.{signature} ");
    let verify = |admin: Option<&str>, order: &str, token: Option<&str>, now: i64| {
        signing::verify_order_status_access_token(admin, order, token, now)
    };
    assert!(verify(Some("admin"), "order", Some(&token), 5000));
    assert!(!verify(Some("admin"), "order", Some(&token), 5001));
    assert!(!verify(Some("admin"), "other", Some(&token), 5000));
    assert!(!verify(Some("other"), "order", Some(&token), 5000));
    assert!(!verify(None, "order", Some(&token), 5000));
    assert!(!verify(Some("admin"), "order", None, 5000));
    assert!(!verify(Some("admin"), "order", Some(&format!("5000.9.{signature}")), 5000));
    assert!(!verify(Some("admin"), "order", Some("5000.8"), 5000));
}

#[test]
fn times_are_shown_and_read() {
    assert_eq!(clock::timestamp_to_rfc3339(0), "1970-01-01T00:00:00+00:00");
    assert_eq!(clock::timestamp_to_rfc3339(i64::MAX), i64::MAX.to_string());
    assert_eq!(clock::optional_timestamp_to_rfc3339(None), None);
    assert_eq!(clock::parse_query_timestamp(" 42 ", false), Some(42));
    assert_eq!(clock::parse_query_timestamp("1970-01-02", false), Some(86_400));
    assert_eq!(clock::parse_query_timestamp("1970-01-02", true), Some(2 * 86_400 - 1));
    assert_eq!(clock::parse_query_timestamp("1970-01-01T00:01:00Z", true), Some(60));
    assert_eq!(clock::parse_query_timestamp("soon", true), None);
    assert_eq!(clock::parse_query_timestamp("  ", true), None);
}

#[test]
fn business_days_begin_eight_hours_ahead() {
    assert_eq!(clock::get_biz_day_start_utc_timestamp(0), -28_800);
    assert_eq!(clock::get_biz_day_start_utc_timestamp(57_599), -28_800);
    assert_eq!(clock::get_biz_day_start_utc_timestamp(57_600), 57_600);
    assert_eq!(clock::biz_date_str(57_599), "1970-01-01");
    assert_eq!(clock::biz_date_str(57_600), "1970-01-02");
}

#[test]
fn begun_days_count_whole() {
    let left = |s: &str, now: i64| clock::remaining_days_from_rfc3339(s, now).unwrap();
    assert_eq!(left("1970-01-03T00:00:00Z", 0), 2);
    assert_eq!(left("1970-01-03T00:00:01Z", 0), 3);
    assert_eq!(left("1970-01-03T00:00:00Z", 172_800), 0);
    assert_eq!(left("1970-01-03T00:00:00Z", -86_400), 3);
    assert_eq!(left("1970-01-03T00:00:00Z", i64::MAX), 0);
    assert!(clock::remaining_days_from_rfc3339("soon", 0)
        .unwrap_err()
        .starts_with("failed to parse subscription expiry soon: "));
}

#[test]
fn amounts_have_two_places() {
    assert_eq!(money::amount_text(1234), "12.34");
    assert_eq!(money::amount_text(5), "0.05");
    assert_eq!(money::amount_text(0), "0.00");
    assert_eq!(money::amount_text(-1234), "-12.34");
    assert_eq!(money::amount_text(i64::MIN), "-92233720368547758.08");
    for cents in [1, 99, 100, 101, 999_999_999_999, 7, 30] {
        assert_eq!(money::amount_text(cents), format!("{:.2}", cents as f64 / 100.0));
    }
}

#[test]
fn masks_keep_the_end_of_a_secret() {
    assert_eq!(masking::mask_value("sk_test_1234"), "********1234");
    assert_eq!(masking::mask_value("abcd"), "****");
    assert_eq!(masking::mask_value(""), "****");
    assert_eq!(masking::mask_value("abcdef"), "**cdef");
    assert!(masking::is_masked_value("****"));
    assert!(masking::is_masked_value(&masking::mask_value("12345678")));
    assert!(!masking::is_masked_value(&masking::mask_value("abcdef")));
    assert!(masking::can_mask("密钥abcd"));
    assert!(!masking::can_mask("ab密钥"));
}

#[test]
fn texts_are_cut_and_trimmed() {
    assert_eq!(text::trim(" \u{3000}a b\t\n"), "a b");
    assert_eq!(text::trim_end_matches("http://x//", '/'), "http://x");
    assert_eq!(text::split("a,,b", ','), vec!["a", "", "b"]);
    assert_eq!(text::join(&vec!["a".to_string(), "b".to_string()], ", "), "a, b");
    assert_eq!(text::strip_all_prefixes("xxab", "x"), "ab");
    assert_eq!(text::strip_all_suffixes("abxx", "x"), "ab");
    assert_eq!(text::parse_i64("-42"), Some(-42));
    assert_eq!(text::parse_i64("9223372036854775808"), None);
    assert_eq!(text::parse_u16("65535"), Some(65535));
    assert_eq!(text::parse_u16("65536"), None);
    assert_eq!(text::i64_text(i64::MIN), i64::MIN.to_string());
    assert_eq!(text::to_ascii_uppercase("alipay_é"), "ALIPAY_é");
}

#[test]
fn string_maps_are_read_and_written() {
    let map = json::parse_string_map(r#"{"b":"2","a":"1","b":"3"}"#).unwrap();
    assert_eq!(map.get("a").map(String::as_str), Some("1"));
    assert_eq!(map.get("b").map(String::as_str), Some("3"));
    assert!(json::parse_string_map(r#"{"a":1}"#).is_err());
    let mut entries: TextMap<String> = TextMap::new();
    entries.insert("quote\"".to_string(), "line\nend".to_string());
    let back = json::parse_string_map(&json::write_string_map(&entries)).unwrap();
    assert_eq!(back.get("quote\"").map(String::as_str), Some("line\nend"));
    assert_eq!(json::parse_string_array(Some(r#"["a","b"]"#)), vec!["a", "b"]);
    assert!(json::parse_string_array(Some("no list")).is_empty());
    assert!(json::parse_string_array(None).is_empty());
}

#[test]
fn queries_are_written_and_read_back() {
    let pairs = vec![
        ("a b".to_string(), "1&2=3".to_string()),
        ("é".to_string(), "".to_string()),
    ];
    let query = urlencoded::write_query(&pairs).unwrap();
    assert_eq!(query, "a+b=1%262%3D3&%C3%A9=");
    let map = urlencoded::parse_query(&query).unwrap();
    assert_eq!(map.get("a b").map(String::as_str), Some("1&2=3"));
    assert_eq!(map.get("é").map(String::as_str), Some(""));
    let twice = urlencoded::parse_query("k=1&k=2").unwrap();
    assert_eq!(twice.get("k").map(String::as_str), Some("2"));
}
