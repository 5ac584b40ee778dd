//! Payment methods, gateways and what they notify.
use opay::crypto;
use opay::http::webhooks::{self, Handled};
use opay::json::{JsonData, JsonValue, NumberFacts};
use opay::maps::TextMap;
use opay::payment::{
    self, ActiveInstance, ChannelLimits, FeeRate, FoundInstance, MethodFacts, UsageRow,
};
use opay::db::SqlValue;
use opay::payment_provider::{
    self, CallFault, CreatePaymentRequest, EasyPayCreateResponse, EasyPayRefundResponse,
    EnvValue, PaymentPlan, PaymentProvider, RefundPaymentRequest, StripeCreatePaymentIntentResponse,
    StripeEvent, StripePaymentIntent, StripeRefundResponse, VerifiedPaymentNotification,
};
use opay::provider_instances::ProviderInstanceRecord;
use opay::signing;
use opay::sub2api::Float64;

const ADMIN_TOKEN: &str = "dev-admin-token";
const NOW: i64 = 1_700_000_000;

fn map(entries: &[(&str, &str)]) -> TextMap<String> {
    TextMap::from_entries(
        entries.iter().map(|(k, v)| (k.to_string(), v.to_string())).collect(),
    )
}

fn instance(id: &str, provider_key: &str, enabled: bool, config: &str) -> ProviderInstanceRecord {
    ProviderInstanceRecord {
        id: id.to_string(),
        provider_key: provider_key.to_string(),
        name: format!("{provider_key} test"),
        config: crypto::encrypt(Some(ADMIN_TOKEN), config).unwrap(),
        supported_types: String::new(),
        enabled,
        sort_order: 0,
        limits: None,
        refund_enabled: false,
        created_at: 1,
        updated_at: 1,
    }
}

fn signed_query(params: &[(&str, &str)], extra: &[(&str, &str)], pkey: &str) -> String {
    let signed: Vec<(String, String)> =
        params.iter().map(|(k, v)| (k.to_string(), v.to_string())).collect();
    let sign = signing::generate_easy_pay_sign(&signed, pkey);
    let mut all: Vec<(&str, &str)> = params.to_vec();
    all.extend_from_slice(extra);
    all.push(("sign", &sign));
    all.push(("sign_type", "MD5"));
    serde_urlencoded::to_string(all).unwrap()
}

fn money_cents(params: &TextMap<String>) -> Option<i64> {
    let value: f64 = params.get("money")?.parse().ok()?;
    Some((value * 100.0).round() as i64)
}

fn easypay_notice(
    query: &str,
    instances: &[ProviderInstanceRecord],
) -> Result<VerifiedPaymentNotification, String> {
    let read = payment_provider::read_easypay_query(query)?;
    let config = match &read.instance {
        None => TextMap::new(),
        Some(id) => {
            let found = instances.iter().find(|i| &i.id == id).map(|i| ProviderInstanceRecord {
                id: i.id.clone(),
                provider_key: i.provider_key.clone(),
                name: i.name.clone(),
                config: i.config.clone(),
                supported_types: i.supported_types.clone(),
                limits: i.limits.clone(),
                ..*i
            });
            payment_provider::load_provider_instance_config(
                Some(ADMIN_TOKEN),
                &found,
                Some("easypay"),
            )?
        }
    };
    let cents = money_cents(&read.params);
    payment_provider::verify_easypay_notification(&config, &TextMap::new(), &read.params, cents)
}

fn event(payload: &str) -> Result<StripeEvent, String> {
    let value: serde_json::Value = serde_json::from_str(payload).map_err(|e| e.to_string())?;
    let object = &value["data"]["object"];
    Ok(StripeEvent {
        event_type: value["type"].as_str().unwrap_or_default().to_string(),
        intent: StripePaymentIntent {
            id: object["id"].as_str().unwrap_or_default().to_string(),
            amount: object["amount"].as_i64().unwrap_or_default(),
            order_id: object["metadata"]["orderId"].as_str().map(|s| s.to_string()),
        },
    })
}

fn stripe_header(secret: &str, payload: &str) -> String {
    format!("t={NOW},v1={}", signing::sign_stripe_payload(secret, NOW, payload))
}

fn stripe_notice(
    instances: Vec<ProviderInstanceRecord>,
    payload: &str,
    header: &str,
) -> Result<Option<VerifiedPaymentNotification>, String> {
    let secrets = payment_provider::stripe_webhook_secrets(Some(ADMIN_TOKEN), None, &instances);
    let body = payload.as_bytes();
    payment_provider::verify_stripe_webhook(body, secrets, header, NOW, event(payload))
}

fn intent_payload(event_type: &str, id: &str, amount: i64, order_id: &str) -> String {
    format!(
        r#"{{"id":"evt_test","type":"{event_type}","data":{{"object":{{"id":"{id}","amount":{amount},"metadata":{{"orderId":"{order_id}"}}}}}}}}"#
    )
}

#[test]
fn verify_easypay_notification_accepts_instance_from_query() {
    let instances = [instance(
        "inst_1",
        "easypay",
        true,
        r#"{"pid":"ep_test_pid","pkey":"ep_test_key"}"#,
    )];
    let query = signed_query(
        &[
            ("pid", "ep_test_pid"),
            ("trade_no", "easy_trade_123"),
            ("out_trade_no", "order_easy_123"),
            ("money", "12.34"),
            ("trade_status", "TRADE_SUCCESS"),
        ],
        &[("inst", "inst_1")],
        "ep_test_key",
    );
    let notification = easypay_notice(&query, &instances).unwrap();
    assert_eq!(notification.provider_name, "easy-pay");
    assert_eq!(notification.trade_no, "easy_trade_123");
    assert_eq!(notification.order_id, "order_easy_123");
    assert_eq!(notification.amount_cents, 1234);
    assert!(notification.success);
}

#[test]
fn verify_easypay_notification_rejects_pid_mismatch() {
    let instances = [instance(
        "inst_1",
        "easypay",
        true,
        r#"{"pid":"ep_expected_pid","pkey":"ep_test_key"}"#,
    )];
    let query = signed_query(
        &[
            ("pid", "ep_other_pid"),
            ("trade_no", "easy_trade_bad_pid"),
            ("out_trade_no", "order_easy_bad_pid"),
            ("money", "8.00"),
            ("trade_status", "TRADE_SUCCESS"),
        ],
        &[("inst", "inst_1")],
        "ep_test_key",
    );
    assert_eq!(
        easypay_notice(&query, &instances).unwrap_err(),
        "EasyPay notification pid mismatch"
    );
}

#[test]
fn notify_returns_fail_for_invalid_signature() {
    let instances = [instance(
        "inst_1",
        "easypay",
        true,
        r#"{"pid":"easy_route_pid","pkey":"easy_route_key"}"#,
    )];
    let query = serde_urlencoded::to_string([
        ("pid", "easy_route_pid"),
        ("trade_no", "easy_route_trade_bad"),
        ("out_trade_no", "order_bad"),
        ("money", "12.34"),
        ("trade_status", "TRADE_SUCCESS"),
        ("inst", "inst_1"),
        ("sign", "bad-signature"),
        ("sign_type", "MD5"),
    ])
    .unwrap();
    let notice = easypay_notice(&query, &instances);
    assert!(notice.is_err());
    assert_eq!(webhooks::answer_easypay(&Handled::Failed), "fail");
    assert_eq!(webhooks::parse_inst(&query).as_deref(), Some("inst_1"));
}

#[test]
fn easypay_notices_are_refused_for_a_reason() {
    let config = map(&[("pid", "p"), ("pkey", "k")]);
    let none: TextMap<String> = TextMap::new();
    let verify = |config: &TextMap<String>, params: &[(&str, &str)], cents: Option<i64>| {
        payment_provider::verify_easypay_notification(config, &TextMap::new(), &map(params), cents)
            .unwrap_err()
    };
    assert_eq!(verify(&none, &[], None), "EasyPay pid not configured");
    assert_eq!(verify(&map(&[("pid", "p")]), &[], None), "EasyPay pkey not configured");
    assert_eq!(verify(&config, &[], None), "EasyPay notification missing sign");
    assert_eq!(
        verify(&config, &[("sign", "x")], None),
        "EasyPay notification signature verification failed"
    );
    let signed = |params: &[(&str, &str)]| {
        let sign = signing::sign_params(&map(params), "k");
        let mut all: Vec<(String, String)> =
            params.iter().map(|(k, v)| (k.to_string(), v.to_string())).collect();
        all.push(("sign".to_string(), sign));
        TextMap::from_entries(all)
    };
    let read = |params: &[(&str, &str)], cents: Option<i64>| {
        payment_provider::verify_easypay_notification(&config, &TextMap::new(), &signed(params), cents)
    };
    let full = [("pid", "p"), ("trade_no", "t"), ("out_trade_no", "o"), ("money", "1.00")];
    assert!(!read(&full, Some(100)).unwrap().success);
    assert_eq!(read(&full, None).map(|_| ()).unwrap_err(), "EasyPay notification invalid amount");
    assert_eq!(
        read(&full, Some(0)).map(|_| ()).unwrap_err(),
        "EasyPay notification invalid amount"
    );
    assert!(read(&[("pid", "p"), ("money", "1.00")], Some(100)).is_ok());
}

#[test]
fn instances_of_another_provider_are_refused() {
    let load = |found: Option<ProviderInstanceRecord>, key: Option<&str>| {
        payment_provider::load_provider_instance_config(Some(ADMIN_TOKEN), &found, key)
    };
    assert_eq!(load(None, None).unwrap_err(), "payment provider instance not found");
    assert_eq!(
        load(Some(instance("i", "stripe", true, "{}")), Some("easypay")).unwrap_err(),
        "payment provider instance type mismatch"
    );
    let settings = load(Some(instance("i", "stripe", true, r#"{"a":"b"}"#)), Some("stripe")).unwrap();
    assert_eq!(settings.get("a").map(String::as_str), Some("b"));
}

#[test]
fn verify_stripe_webhook_accepts_enabled_instance_secret() {
    let instances =
        vec![instance("s", "stripe", true, r#"{"webhookSecret":"whsec_enabled_test"}"#)];
    let payload =
        intent_payload("payment_intent.payment_failed", "pi_test_failed", 2099, "order_test_failed");
    let header = stripe_header("whsec_enabled_test", &payload);
    let notification = stripe_notice(instances, &payload, &header).unwrap().unwrap();
    assert_eq!(notification.provider_name, "stripe");
    assert_eq!(notification.trade_no, "pi_test_failed");
    assert_eq!(notification.order_id, "order_test_failed");
    assert_eq!(notification.amount_cents, 2099);
    assert!(!notification.success);
}

#[test]
fn verify_stripe_webhook_ignores_disabled_instance_secret() {
    let instances = vec![
        instance("a", "stripe", false, r#"{"webhookSecret":"whsec_disabled_test"}"#),
        instance("b", "stripe", true, r#"{"webhookSecret":"whsec_enabled_other"}"#),
    ];
    let payload =
        intent_payload("payment_intent.succeeded", "pi_test_succeeded", 1099, "order_test_succeeded");
    let header = stripe_header("whsec_disabled_test", &payload);
    assert_eq!(
        stripe_notice(instances, &payload, &header).unwrap_err(),
        "Stripe webhook signature verification failed"
    );
}

#[test]
fn verify_stripe_webhook_returns_none_for_unhandled_event() {
    let instances =
        vec![instance("s", "stripe", true, r#"{"webhookSecret":"whsec_enabled_test"}"#)];
    let payload = r#"{
  "id": "evt_test_ignored",
  "type": "charge.refunded",
  "data": {
    "object": {
      "id": "ch_test_ignored",
      "amount": 300,
      "metadata": {
        "orderId": "order_ignored"
      }
    }
  }
}"#;
    let header = stripe_header("whsec_enabled_test", payload);
    assert!(stripe_notice(instances, payload, &header).unwrap().is_none());
}

#[test]
fn webhook_returns_bad_request_when_signature_is_invalid() {
    let payload = r#"{"type":"payment_intent.succeeded","data":{"object":{"id":"pi_x","amount":100,"metadata":{"orderId":"order_x"}}}}"#;
    assert!(stripe_notice(Vec::new(), payload, "").is_err());
    let answer = webhooks::answer_stripe(&Handled::Failed);
    assert_eq!(answer.status, 400);
    assert_eq!(answer.error, Some("Webhook processing failed"));
}

#[test]
fn webhook_returns_received_for_unhandled_event() {
    let instances = vec![instance("s", "stripe", true, r#"{"webhookSecret":"whsec_route_ok"}"#)];
    let payload = intent_payload("charge.refunded", "ch_route_ignored", 300, "ignored-order");
    let header = stripe_header("whsec_route_ok", &payload);
    assert!(stripe_notice(instances, &payload, &header).unwrap().is_none());
    let answer = webhooks::answer_stripe(&Handled::Done { done: true });
    assert_eq!(answer.status, 200);
    assert_eq!(answer.error, None);
}

#[test]
fn webhooks_that_are_no_events_are_refused() {
    let verify = |body: &[u8], secrets: Result<Vec<String>, String>, header: &str| {
        payment_provider::verify_stripe_webhook(body, secrets, header, NOW, event("{")).unwrap_err()
    };
    let secrets = || Ok(vec!["s".to_string()]);
    let header = stripe_header("s", "{");
    assert!(verify(b"{", secrets(), &header).starts_with("invalid Stripe event JSON: "));
    assert_eq!(
        verify(b"{", secrets(), "v1=x"),
        "Stripe signature header missing timestamp"
    );
    assert_eq!(verify(b"{", Err("no settings".to_string()), &header), "no settings");
    assert_eq!(
        verify(b"{\xff", Err("no settings".to_string()), &header),
        "invalid Stripe webhook body: invalid utf-8 sequence of 1 bytes from index 1"
    );
    assert_eq!(
        payment_provider::judge_stripe_webhook(
            Err("why".to_string()),
            secrets(),
            &header,
            NOW,
            event("{")
        )
        .unwrap_err(),
        "invalid Stripe webhook body: why"
    );
    assert!(payment_provider::stripe_webhook_secrets(
        Some("other"),
        None,
        &vec![instance("s", "stripe", true, "{}")]
    )
    .is_err());
    assert_eq!(
        payment_provider::stripe_webhook_secrets(Some(ADMIN_TOKEN), Some("env"), &Vec::new())
            .unwrap(),
        vec!["env"]
    );
}

fn request(payment_type: &str, is_mobile: bool) -> CreatePaymentRequest {
    CreatePaymentRequest {
        order_id: "order_1".to_string(),
        amount_cents: 1234,
        payment_type: payment_type.to_string(),
        subject: "Recharge".to_string(),
        client_ip: None,
        is_mobile,
        provider_instance_id: None,
    }
}

#[test]
fn easypay_payments_are_signed() {
    let config = map(&[
        ("pid", "pid_1"),
        ("pkey", "key_1"),
        ("apiBase", "https://pay.test//"),
        ("notifyUrl", "https://shop.test/notify"),
        ("returnUrl", "https://shop.test/return"),
        ("cid", " 1, 2 ,"),
    ]);
    let provider = payment_provider::build_provider("alipay", config, TextMap::new()).unwrap();
    assert_eq!(provider.name(), "easy-pay");
    assert_eq!(provider.supported_types(), vec!["alipay", "wxpay"]);
    let form = match provider.create_payment(&request("alipay", true)).unwrap() {
        PaymentPlan::Send { form } => form,
        PaymentPlan::Ready { .. } => panic!("nothing is sent"),
    };
    assert_eq!(form.url, "https://pay.test/mapi.php");
    assert_eq!(form.bearer, None);
    let param = |key: &str| {
        form.params.iter().find(|(k, _)| k == key).map(|(_, v)| v.as_str())
    };
    assert_eq!(param("pid"), Some("pid_1"));
    assert_eq!(param("money"), Some("12.34"));
    assert_eq!(param("out_trade_no"), Some("order_1"));
    assert_eq!(param("cid"), Some("1,2"));
    assert_eq!(param("sign_type"), Some("MD5"));
    let unsigned: Vec<(String, String)> = form
        .params
        .iter()
        .filter(|(k, _)| k != "sign" && k != "sign_type")
        .cloned()
        .collect();
    assert_eq!(
        param("sign"),
        Some(signing::generate_easy_pay_sign(&unsigned, "key_1").as_str())
    );

    let refund = provider
        .refund(&RefundPaymentRequest {
            trade_no: "t".to_string(),
            order_id: "o".to_string(),
            amount_cents: 50,
            payment_type: "alipay".to_string(),
            reason: "why".to_string(),
            provider_instance_id: None,
        })
        .unwrap();
    assert_eq!(refund.url, "https://pay.test/api.php?act=refund");
    assert!(refund.params.contains(&("money".to_string(), "0.50".to_string())));
}

#[test]
fn gateways_ask_for_their_settings() {
    let build = |t: &str, config: &[(&str, &str)]| {
        payment_provider::build_provider(t, map(config), TextMap::new())
    };
    let refusal = |t: &str, config: &[(&str, &str)]| {
        match build(t, config).unwrap().create_payment(&request(t, false)) {
            Err(e) => e,
            Ok(_) => panic!("a plan without settings"),
        }
    };
    assert_eq!(refusal("alipay", &[]), "EASY_PAY_PID is required for EasyPay");
    assert_eq!(
        refusal("wxpay", &[("pid", "p")]),
        "EASY_PAY_PKEY is required for EasyPay"
    );
    assert!(refusal("stripe", &[]).contains("STRIPE_SECRET_KEY"));
    assert!(build("cash", &[]).is_err());
    let mut env = TextMap::new();
    env.insert("STRIPE_SECRET_KEY".to_string(), "sk_env".to_string());
    let stripe = payment_provider::build_provider("stripe", TextMap::new(), env).unwrap();
    let form = match stripe.create_payment(&request("stripe", false)).unwrap() {
        PaymentPlan::Send { form } => form,
        PaymentPlan::Ready { .. } => panic!("nothing is sent"),
    };
    assert_eq!(form.bearer.as_deref(), Some("sk_env"));
    assert!(form.params.contains(&("amount".to_string(), "1234".to_string())));
    assert!(form.url.ends_with("/v1/payment_intents"));
}

#[test]
fn direct_gateways_do_not_refund() {
    let refund = RefundPaymentRequest {
        trade_no: "t".to_string(),
        order_id: "o".to_string(),
        amount_cents: 50,
        payment_type: "alipay_direct".to_string(),
        reason: "why".to_string(),
        provider_instance_id: None,
    };
    let alipay =
        payment_provider::build_provider("alipay_direct", TextMap::new(), TextMap::new()).unwrap();
    assert_eq!(
        alipay.refund(&refund).map(|_| ()).unwrap_err(),
        "refund is not implemented for alipay-direct in Rust MVP"
    );
    let wxpay =
        payment_provider::build_provider("wxpay_direct", TextMap::new(), TextMap::new()).unwrap();
    assert_eq!(
        wxpay.refund(&refund).map(|_| ()).unwrap_err(),
        "refund is not implemented for wxpay-direct in Rust MVP"
    );
}

#[test]
fn answers_of_easypay_are_read() {
    let answer = |code: i64| EasyPayCreateResponse {
        code,
        msg: Some("no".to_string()),
        trade_no: "t".to_string(),
        payurl: Some("desktop".to_string()),
        payurl2: Some("mobile".to_string()),
        qrcode: None,
    };
    let read = |code: i64, mobile: bool| payment_provider::read_easypay_payment(Ok(answer(code)), mobile);
    assert_eq!(read(1, true).unwrap().pay_url.as_deref(), Some("mobile"));
    assert_eq!(read(1, false).unwrap().pay_url.as_deref(), Some("desktop"));
    assert!(read(0, false).unwrap_err().contains("no"));
    let fault = |fault: CallFault| payment_provider::read_easypay_payment(Err(fault), false).unwrap_err();
    assert!(fault(CallFault::Unsent { reason: "down".to_string() }).ends_with(" request failed: down"));
    assert!(fault(CallFault::Refused { status: "502".to_string(), body: "b".to_string() })
        .ends_with(" failed (502): b"));
    assert!(fault(CallFault::Unreadable { reason: "r".to_string() })
        .ends_with(" response decode failed: r"));
    let refund = |code: i64| {
        payment_provider::read_easypay_refund(
            Ok(EasyPayRefundResponse { code, msg: None }),
            "trade",
        )
    };
    assert_eq!(refund(1).unwrap().refund_id, "trade-refund");
    assert!(refund(0).is_err());
}

#[test]
fn answers_of_stripe_are_read() {
    let payment = payment_provider::read_stripe_payment(Ok(StripeCreatePaymentIntentResponse {
        id: "pi_1".to_string(),
        client_secret: Some("cs".to_string()),
    }))
    .unwrap();
    assert_eq!(payment.trade_no, "pi_1");
    assert_eq!(payment.client_secret.as_deref(), Some("cs"));
    let refund = |status: &str| {
        payment_provider::read_stripe_refund(Ok(StripeRefundResponse {
            id: "re_1".to_string(),
            status: status.to_string(),
        }))
        .unwrap()
    };
    assert_eq!(refund("succeeded").status, "succeeded");
    assert_eq!(refund("pending").status, "pending");
    assert_eq!(refund("succeeded").refund_id, "re_1");
}

#[test]
fn environment_values_may_name_files() {
    assert!(matches!(payment_provider::classify_env_value("  "), EnvValue::Unset));
    match payment_provider::classify_env_value(" key ") {
        EnvValue::Plain { value } => assert_eq!(value, "key"),
        _ => panic!("a file"),
    }
    match payment_provider::classify_env_value("/etc/key") {
        EnvValue::FileOrPlain { value } => assert_eq!(value, "/etc/key"),
        _ => panic!("no file"),
    }
    assert!(payment_provider::looks_like_file_path("C:key"));
    assert!(!payment_provider::looks_like_file_path("key"));
}

fn number(value: f64) -> JsonValue {
    let cents = (value * 100.0).round() as i64;
    JsonValue {
        shown: value.to_string(),
        data: JsonData::Number {
            number: NumberFacts {
                integer: None,
                cents: if value >= 0.0 { Some(cents) } else { None },
                positive_cents: if value > 0.0 { Some(cents) } else { None },
                price_cents: if value > 0.0 { Some(cents) } else { None },
                positive_bps: None,
            },
        },
    }
}

fn object(members: Vec<(&str, JsonValue)>) -> JsonValue {
    JsonValue {
        shown: String::new(),
        data: JsonData::Object {
            members: TextMap::from_entries(
                members.into_iter().map(|(k, v)| (k.to_string(), v)).collect(),
            ),
        },
    }
}

#[test]
fn limits_of_instances_are_read() {
    let limits = object(vec![
        ("alipay", object(vec![("singleMin", number(1.5)), ("dailyLimit", number(-1.0))])),
        ("stripe", number(5.0)),
    ]);
    let mut record = instance("i", "easypay", true, "{}");
    record.supported_types = "alipay, ,wxpay".to_string();
    let mut off = instance("off", "easypay", false, "{}");
    off.sort_order = -1;
    let found = vec![
        FoundInstance { record: off, limits: None },
        FoundInstance { record, limits: Some(limits) },
    ];
    let active = payment::active_instances(&found);
    assert_eq!(active.len(), 1);
    assert_eq!(active[0].id, "i");
    assert_eq!(active[0].supported_types, vec!["alipay", "wxpay"]);
    assert_eq!(
        active[0].limits.get("alipay"),
        Some(&ChannelLimits {
            single_min_cents: Some(150),
            single_max_cents: None,
            daily_limit_cents: None
        })
    );
    assert!(active[0].limits.get("stripe").is_none());
}

fn texts(items: &[&str]) -> Vec<String> {
    items.iter().map(|s| s.to_string()).collect()
}

#[test]
fn get_user_hides_direct_payment_types_in_rust_mvp() {
    let providers = texts(&["easypay", "alipay", "wxpay", "stripe"]);
    let types = payment::resolve_offered_types(false, None, &providers, None, &Vec::new());
    assert_eq!(types, texts(&["alipay", "wxpay", "stripe"]));
    assert!(!types.iter().any(|item| item == "alipay_direct" || item == "wxpay_direct"));
    let methods: Vec<MethodFacts> = types
        .iter()
        .map(|t| MethodFacts {
            payment_type: t.clone(),
            daily_setting_cents: None,
            single_setting_cents: None,
            used_cents: 0,
        })
        .collect();
    let limits = payment::query_method_limits(&methods, &Vec::new(), &TextMap::new(), false);
    assert_eq!(limits.len(), 3);
    assert_eq!(limits[0].daily_limit_cents, 1_000_000);
    assert_eq!(limits[0].single_max_cents, 100_000);
    assert!(limits[0].available);
    assert_eq!(limits[2].daily_limit_cents, 0);
    assert_eq!(limits[2].remaining_cents, None);
}

#[test]
fn provider_keys_are_sorted_out() {
    let keys = texts(&["stripe", "alipay", "stripe", "cash", "alipay", "easypay"]);
    assert_eq!(payment::filter_provider_keys_for_rust_mvp(&keys), texts(&["stripe", "easypay"]));
    assert_eq!(payment::ignored_provider_keys_for_rust_mvp(&keys), texts(&["alipay", "cash"]));
    assert_eq!(
        payment::supported_types_for_provider_keys(&keys),
        texts(&["stripe", "alipay", "wxpay"])
    );
    assert_eq!(
        payment::resolve_enabled_payment_types(&texts(&["alipay", "wxpay"]), Some("wxpay, stripe")),
        texts(&["wxpay"])
    );
    assert_eq!(
        payment::resolve_enabled_payment_types(&texts(&["alipay"]), Some(" , ")),
        texts(&["alipay"])
    );
    assert_eq!(payment::provider_key_for_type("stripe_link"), Some("stripe"));
    assert_eq!(payment::provider_key_for_type("cash"), None);
}

#[test]
fn fees_are_rounded_up() {
    assert_eq!(payment::calculate_pay_amount_cents(1000, 0), 1000);
    assert_eq!(payment::calculate_pay_amount_cents(1000, -5), 1000);
    assert_eq!(payment::calculate_pay_amount_cents(1000, 250), 1025);
    assert_eq!(payment::calculate_pay_amount_cents(1001, 250), 1027);
    assert!(payment::check_pay_amount(1001, 250));
    assert!(!payment::check_pay_amount(i64::MAX, 250));
}

fn active(id: &str, sort_order: i64, limits: ChannelLimits) -> ActiveInstance {
    ActiveInstance {
        id: id.to_string(),
        provider_key: "easypay".to_string(),
        sort_order,
        supported_types: Vec::new(),
        limits: TextMap::from_entries(vec![("alipay".to_string(), limits)]),
        encrypted_config: String::new(),
    }
}

fn bounds(min: i64, max: i64, daily: i64) -> ChannelLimits {
    ChannelLimits {
        single_min_cents: Some(min),
        single_max_cents: Some(max),
        daily_limit_cents: Some(daily),
    }
}

fn rate(bps: i64) -> FeeRate {
    FeeRate { rate: Float64 { bits: ((bps as f64) / 100.0).to_bits() }, bps }
}

#[test]
fn payments_go_to_the_first_instance_that_takes_them() {
    let instances = vec![
        active("late", 2, bounds(0, 0, 0)),
        active("first", 1, bounds(500, 2000, 3000)),
    ];
    let used = |cents: i64| TextMap::from_entries(vec![("first".to_string(), cents)]);
    let select = |amount: i64, used_cents: i64| {
        payment::select_payment("alipay", amount, rate(0), &instances, &used(used_cents))
            .unwrap()
            .provider_instance_id
    };
    assert_eq!(select(1000, 0).as_deref(), Some("first"));
    assert_eq!(select(499, 0).as_deref(), Some("late"));
    assert_eq!(select(2001, 0).as_deref(), Some("late"));
    assert_eq!(select(1000, 2000).as_deref(), Some("first"));
    assert_eq!(select(1000, 2001).as_deref(), Some("late"));

    let refuse = |t: &str, amount: i64, bps: i64, from: usize| {
        let few = vec![active("first", 1, bounds(500, 2000, 3000))];
        let none = Vec::new();
        let instances = if from == 0 { &none } else { &few };
        payment::select_payment(t, amount, rate(bps), instances, &used(0))
    };
    assert_eq!(
        refuse("alipay", 100, 0, 1).map(|_| ()).unwrap_err(),
        "no available payment instance for alipay"
    );
    assert_eq!(refuse("alipay", 0, 0, 0).map(|_| ()).unwrap_err(), "amount must be positive");
    let alone = refuse("stripe", 1000, 250, 1).unwrap();
    assert_eq!(alone.provider_instance_id, None);
    assert_eq!(alone.pay_amount_cents, 1025);
    assert_eq!(alone.fee_rate_bps, 250);
    assert_eq!(alone.fee_rate, rate(250).rate);
}

#[test]
fn limits_of_instances_are_joined() {
    let instances = vec![
        active("a", 1, bounds(500, 2000, 3000)),
        active("b", 2, bounds(200, 1000, 5000)),
    ];
    let usage = TextMap::from_entries(vec![("a".to_string(), 3000), ("b".to_string(), 1000)]);
    let joined = payment::aggregate_instance_limits("alipay", &instances, &usage);
    assert!(joined.has_instances);
    assert!(!joined.all_instances_daily_blocked);
    assert_eq!(joined.max_remaining_capacity_cents, Some(4000));
    let status = payment::method_limit_status(10_000, 0, 2_000, joined);
    assert!(status.available);
    let full = TextMap::from_entries(vec![("a".to_string(), 3000), ("b".to_string(), 5000)]);
    assert!(payment::aggregate_instance_limits("alipay", &instances, &full)
        .all_instances_daily_blocked);
}

#[test]
fn limits_come_from_settings_where_they_are_allowed() {
    assert_eq!(payment::daily_limit_key("alipay"), "MAX_DAILY_AMOUNT_ALIPAY");
    assert_eq!(payment::single_limit_key("stripe"), "MAX_SINGLE_AMOUNT_STRIPE");
    assert_eq!(payment::method_daily_limit("alipay", Some(77), true), 77);
    assert_eq!(payment::method_single_limit("alipay", None, false), 100_000);
    assert_eq!(payment::method_single_limit("alipay", None, true), 0);
    assert!(payment::is_true(Some("true")));
    assert!(!payment::is_true(None));
}

#[test]
fn usage_counts_the_listed_keys() {
    let row = |key: &str, cents: i64| UsageRow {
        key: SqlValue::Text(key.to_string()),
        cents: SqlValue::Integer(cents),
    };
    let rows = vec![row("alipay", 100), row("cash", 7)];
    let all = payment::read_usage(&rows, None).unwrap();
    assert_eq!(payment::usage_of(&all, "cash"), 7);
    let some = payment::read_usage(&rows, Some(&texts(&["alipay"]))).unwrap();
    assert_eq!(payment::usage_of(&some, "alipay"), 100);
    assert_eq!(payment::usage_of(&some, "cash"), 0);
    assert!(payment::read_usage(&vec![UsageRow { key: SqlValue::Null, cents: SqlValue::Null }], None)
        .is_err());
    assert_eq!(payment::usage_params(57_600).len(), 4);
}

#[test]
fn publishable_keys_come_from_instances_first() {
    let seal = |text: &str| crypto::encrypt(Some(ADMIN_TOKEN), text).unwrap();
    let mut stripe = active("s", 0, bounds(0, 0, 0));
    stripe.provider_key = "stripe".to_string();
    stripe.encrypted_config = seal(r#"{"publishableKey":"pk_1"}"#);
    let instances = vec![stripe];
    let key = |types: &[&str], instances: &Vec<ActiveInstance>| {
        payment::resolve_stripe_publishable_key(
            Some(ADMIN_TOKEN),
            &texts(types),
            instances,
            Some("pk_env"),
        )
        .unwrap()
    };
    assert_eq!(key(&["stripe"], &instances).as_deref(), Some("pk_1"));
    assert_eq!(key(&["alipay"], &instances), None);
    assert_eq!(key(&["stripe"], &Vec::new()).as_deref(), Some("pk_env"));
}
