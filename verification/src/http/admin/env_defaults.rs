//! What the environment offers to start with: the providers, their settings, and the limits.
use vstd::prelude::*;

use crate::db;
use crate::maps;
use crate::maps::TextMap;
use crate::payment;
use crate::payment_provider;
use crate::text;

verus! {

/// What a provider is called.
pub open spec fn provider_title(key: Seq<char>) -> Seq<char> {
    if key == "easypay"@ {
        "EasyPay"@
    } else if key == "alipay"@ {
        "Alipay Official"@
    } else if key == "wxpay"@ {
        "WxPay Official"@
    } else if key == "stripe"@ {
        "Stripe"@
    } else {
        "Unknown"@
    }
}

pub fn provider_name(key: &str) -> (r: &'static str)
    ensures
        r@ == provider_title(key@),
{
    if text::same(key, "easypay") {
        "EasyPay"
    } else if text::same(key, "alipay") {
        "Alipay Official"
    } else if text::same(key, "wxpay") {
        "WxPay Official"
    } else if text::same(key, "stripe") {
        "Stripe"
    } else {
        "Unknown"
    }
}

/// The settings with one more, where the environment has it.
pub open spec fn with_env(
    m: Map<Seq<char>, Seq<char>>,
    key: Seq<char>,
    env: Map<Seq<char>, String>,
    env_key: Seq<char>,
) -> Map<Seq<char>, Seq<char>> {
    match payment_provider::held(env, env_key) {
        Some(v) => m.insert(key, v),
        None => m,
    }
}

fn insert_optional(target: &mut TextMap<String>, key: &str, env: &TextMap<String>, env_key: &str)
    requires
        old(target).wf(),
        env.wf(),
    ensures
        final(target).wf(),
        maps::text_map(final(target)@) == with_env(
            maps::text_map(old(target)@),
            key@,
            env@,
            env_key@,
        ),
{
    if let Some(v) = payment_provider::lookup(env, env_key) {
        target.insert(key.to_owned(), v.to_owned());
        assert(maps::text_map(target@) =~= maps::text_map(old(target)@).insert(key@, v@));
    }
}

/// The settings of easypay that the environment holds, where it holds those that are needed.
pub open spec fn easypay_settings(env: Map<Seq<char>, String>) -> Option<Map<Seq<char>, Seq<char>>> {
    if payment_provider::held(env, "EASY_PAY_PID"@) is Some && payment_provider::held(
        env,
        "EASY_PAY_PKEY"@,
    ) is Some {
        let m = Map::<Seq<char>, Seq<char>>::empty();
        let m = with_env(m, "pid"@, env, "EASY_PAY_PID"@);
        let m = with_env(m, "pkey"@, env, "EASY_PAY_PKEY"@);
        let m = with_env(m, "apiBase"@, env, "EASY_PAY_API_BASE"@);
        let m = with_env(m, "notifyUrl"@, env, "EASY_PAY_NOTIFY_URL"@);
        let m = with_env(m, "returnUrl"@, env, "EASY_PAY_RETURN_URL"@);
        let m = with_env(m, "cidAlipay"@, env, "EASY_PAY_CID_ALIPAY"@);
        let m = with_env(m, "cidWxpay"@, env, "EASY_PAY_CID_WXPAY"@);
        Some(m)
    } else {
        None
    }
}

/// The settings of alipay that the environment holds, where it holds those that are needed.
pub open spec fn alipay_settings(env: Map<Seq<char>, String>) -> Option<Map<Seq<char>, Seq<char>>> {
    if payment_provider::held(env, "ALIPAY_APP_ID"@) is Some && payment_provider::held(
        env,
        "ALIPAY_PRIVATE_KEY"@,
    ) is Some {
        let m = Map::<Seq<char>, Seq<char>>::empty();
        let m = with_env(m, "appId"@, env, "ALIPAY_APP_ID"@);
        let m = with_env(m, "privateKey"@, env, "ALIPAY_PRIVATE_KEY"@);
        let m = with_env(m, "publicKey"@, env, "ALIPAY_PUBLIC_KEY"@);
        let m = with_env(m, "notifyUrl"@, env, "ALIPAY_NOTIFY_URL"@);
        let m = with_env(m, "returnUrl"@, env, "ALIPAY_RETURN_URL"@);
        Some(m)
    } else {
        None
    }
}

/// The settings of wxpay that the environment holds, where it holds those that are needed.
pub open spec fn wxpay_settings(env: Map<Seq<char>, String>) -> Option<Map<Seq<char>, Seq<char>>> {
    if payment_provider::held(env, "WXPAY_APP_ID"@) is Some && payment_provider::held(env, "WXPAY_MCH_ID"@) is Some && payment_provider::held(
        env,
        "WXPAY_PRIVATE_KEY"@,
    ) is Some {
        let m = Map::<Seq<char>, Seq<char>>::empty();
        let m = with_env(m, "appId"@, env, "WXPAY_APP_ID"@);
        let m = with_env(m, "mchId"@, env, "WXPAY_MCH_ID"@);
        let m = with_env(m, "privateKey"@, env, "WXPAY_PRIVATE_KEY"@);
        let m = with_env(m, "apiV3Key"@, env, "WXPAY_API_V3_KEY"@);
        let m = with_env(m, "publicKey"@, env, "WXPAY_PUBLIC_KEY"@);
        let m = with_env(m, "publicKeyId"@, env, "WXPAY_PUBLIC_KEY_ID"@);
        let m = with_env(m, "certSerial"@, env, "WXPAY_CERT_SERIAL"@);
        let m = with_env(m, "notifyUrl"@, env, "WXPAY_NOTIFY_URL"@);
        Some(m)
    } else {
        None
    }
}

/// The settings of stripe that the environment holds, where it holds those that are needed.
pub open spec fn stripe_settings(env: Map<Seq<char>, String>) -> Option<Map<Seq<char>, Seq<char>>> {
    if payment_provider::held(env, "STRIPE_SECRET_KEY"@) is Some {
        let m = Map::<Seq<char>, Seq<char>>::empty();
        let m = with_env(m, "secretKey"@, env, "STRIPE_SECRET_KEY"@);
        let m = with_env(m, "publishableKey"@, env, "STRIPE_PUBLISHABLE_KEY"@);
        let m = with_env(m, "webhookSecret"@, env, "STRIPE_WEBHOOK_SECRET"@);
        Some(m)
    } else {
        None
    }
}

/// The settings of a provider that the environment holds.
pub open spec fn default_settings(provider: Seq<char>, env: Map<Seq<char>, String>) -> Option<
    Map<Seq<char>, Seq<char>>,
> {
    if provider == "easypay"@ {
        easypay_settings(env)
    } else if provider == "alipay"@ {
        alipay_settings(env)
    } else if provider == "wxpay"@ {
        wxpay_settings(env)
    } else if provider == "stripe"@ {
        stripe_settings(env)
    } else {
        None
    }
}

pub open spec fn opt_settings(o: Option<TextMap<String>>) -> Option<Map<Seq<char>, Seq<char>>> {
    match o {
        Some(m) => Some(maps::text_map(m@)),
        None => None,
    }
}

pub fn build_instance_config(provider_key: &str, env: &TextMap<String>) -> (r: Option<
    TextMap<String>,
>)
    requires
        env.wf(),
    ensures
        opt_settings(r) == default_settings(provider_key@, env@),
        r matches Some(m) ==> m.wf(),
{
    let mut m: TextMap<String> = TextMap::new();
    assert(maps::text_map(m@) =~= Map::<Seq<char>, Seq<char>>::empty());
    if text::same(provider_key, "easypay") {
        if payment_provider::lookup(env, "EASY_PAY_PID").is_none() || payment_provider::lookup(
            env,
            "EASY_PAY_PKEY",
        ).is_none() {
            return None;
        }
        insert_optional(&mut m, "pid", env, "EASY_PAY_PID");
        insert_optional(&mut m, "pkey", env, "EASY_PAY_PKEY");
        insert_optional(&mut m, "apiBase", env, "EASY_PAY_API_BASE");
        insert_optional(&mut m, "notifyUrl", env, "EASY_PAY_NOTIFY_URL");
        insert_optional(&mut m, "returnUrl", env, "EASY_PAY_RETURN_URL");
        insert_optional(&mut m, "cidAlipay", env, "EASY_PAY_CID_ALIPAY");
        insert_optional(&mut m, "cidWxpay", env, "EASY_PAY_CID_WXPAY");
        Some(m)
    } else if text::same(provider_key, "alipay") {
        if payment_provider::lookup(env, "ALIPAY_APP_ID").is_none() || payment_provider::lookup(
            env,
            "ALIPAY_PRIVATE_KEY",
        ).is_none() {
            return None;
        }
        insert_optional(&mut m, "appId", env, "ALIPAY_APP_ID");
        insert_optional(&mut m, "privateKey", env, "ALIPAY_PRIVATE_KEY");
        insert_optional(&mut m, "publicKey", env, "ALIPAY_PUBLIC_KEY");
        insert_optional(&mut m, "notifyUrl", env, "ALIPAY_NOTIFY_URL");
        insert_optional(&mut m, "returnUrl", env, "ALIPAY_RETURN_URL");
        Some(m)
    } else if text::same(provider_key, "wxpay") {
        if payment_provider::lookup(env, "WXPAY_APP_ID").is_none() || payment_provider::lookup(env, "WXPAY_MCH_ID").is_none() || payment_provider::lookup(
            env,
            "WXPAY_PRIVATE_KEY",
        ).is_none() {
            return None;
        }
        insert_optional(&mut m, "appId", env, "WXPAY_APP_ID");
        insert_optional(&mut m, "mchId", env, "WXPAY_MCH_ID");
        insert_optional(&mut m, "privateKey", env, "WXPAY_PRIVATE_KEY");
        insert_optional(&mut m, "apiV3Key", env, "WXPAY_API_V3_KEY");
        insert_optional(&mut m, "publicKey", env, "WXPAY_PUBLIC_KEY");
        insert_optional(&mut m, "publicKeyId", env, "WXPAY_PUBLIC_KEY_ID");
        insert_optional(&mut m, "certSerial", env, "WXPAY_CERT_SERIAL");
        insert_optional(&mut m, "notifyUrl", env, "WXPAY_NOTIFY_URL");
        Some(m)
    } else if text::same(provider_key, "stripe") {
        if payment_provider::lookup(env, "STRIPE_SECRET_KEY").is_none() {
            return None;
        }
        insert_optional(&mut m, "secretKey", env, "STRIPE_SECRET_KEY");
        insert_optional(&mut m, "publishableKey", env, "STRIPE_PUBLISHABLE_KEY");
        insert_optional(&mut m, "webhookSecret", env, "STRIPE_WEBHOOK_SECRET");
        Some(m)
    } else {
        None
    }
}

/// A provider that can be used, and whether it is switched on.
#[derive(Debug)]
pub struct ProviderAvailability {
    pub key: &'static str,
    pub configured: bool,
    pub types: Vec<&'static str>,
}

/// The providers that can be used.
pub fn provider_availability(configured: &Vec<String>) -> (r: Vec<ProviderAvailability>)
    ensures
        r@.len() == 2,
        r@[0].key@ == "easypay"@,
        r@[0].configured == text::texts(configured@).contains("easypay"@),
        payment::str_texts(r@[0].types@) == seq!["alipay"@, "wxpay"@],
        r@[1].key@ == "stripe"@,
        r@[1].configured == text::texts(configured@).contains("stripe"@),
        payment::str_texts(r@[1].types@) == seq!["stripe"@],
{
    let easypay: Vec<&'static str> = vec!["alipay", "wxpay"];
    let stripe: Vec<&'static str> = vec!["stripe"];
    assert(payment::str_texts(easypay@) =~= seq!["alipay"@, "wxpay"@]);
    assert(payment::str_texts(stripe@) =~= seq!["stripe"@]);
    vec![
        ProviderAvailability {
            key: "easypay",
            configured: payment::contains_text(configured, "easypay"),
            types: easypay,
        },
        ProviderAvailability {
            key: "stripe",
            configured: payment::contains_text(configured, "stripe"),
            types: stripe,
        },
    ]
}

/// The settings with which an instance of a provider can be begun.
#[derive(Debug)]
pub struct InstanceDefault {
    pub provider_key: String,
    pub name: &'static str,
    pub config: TextMap<String>,
    pub supported_types: String,
}

/// The entry is what the environment holds for the provider.
pub open spec fn default_is(d: InstanceDefault, key: Seq<char>, env: Map<Seq<char>, String>) -> bool {
    &&& d.provider_key@ == key
    &&& d.name@ == provider_title(key)
    &&& d.config.wf()
    &&& default_settings(key, env) == Some(maps::text_map(d.config@))
    &&& d.supported_types@ == text::joined(payment::types_of_provider(key), ","@)
}

/// The providers of a list for which the environment holds settings.
pub open spec fn begun(keys: Seq<Seq<char>>, env: Map<Seq<char>, String>) -> Seq<Seq<char>> {
    keys.filter(|k: Seq<char>| default_settings(k, env) is Some)
}

fn join_types(types: &Vec<&'static str>) -> (r: String)
    ensures
        r@ == text::joined(payment::str_texts(types@), ","@),
{
    let mut owned: Vec<String> = Vec::new();
    let mut i: usize = 0;
    while i < types.len()
        invariant
            i <= types@.len(),
            text::texts(owned@) == payment::str_texts(types@).take(i as int),
        decreases types@.len() - i,
    {
        let ghost before = text::texts(owned@);
        owned.push(types[i].to_owned());
        assert(text::texts(owned@) =~= before.push(types@[i as int]@));
        assert(payment::str_texts(types@).take(i + 1) =~= before.push(types@[i as int]@));
        i += 1;
    }
    assert(payment::str_texts(types@).take(i as int) =~= payment::str_texts(types@));
    text::join(&owned, ",")
}

/// What the environment holds for each provider that is switched on.
pub fn instance_defaults(configured: &Vec<String>, env: &TextMap<String>) -> (r: Vec<
    InstanceDefault,
>)
    requires
        env.wf(),
    ensures
        r@.len() == begun(text::texts(configured@), env@).len(),
        forall|i: int|
            0 <= i < r@.len() ==> default_is(
                #[trigger] r@[i],
                begun(text::texts(configured@), env@)[i],
                env@,
            ),
{
    let ghost all = text::texts(configured@);
    let ghost p = |k: Seq<char>| default_settings(k, env@) is Some;
    let mut out: Vec<InstanceDefault> = Vec::new();
    let mut i: usize = 0;
    proof {
        reveal(Seq::filter);
        assert(all.take(0).filter(p).len() == 0);
    }
    while i < configured.len()
        invariant
            i <= configured@.len(),
            all == text::texts(configured@),
            env.wf(),
            p == (|k: Seq<char>| default_settings(k, env@) is Some),
            out@.len() == all.take(i as int).filter(p).len(),
            forall|j: int|
                0 <= j < out@.len() ==> default_is(
                    #[trigger] out@[j],
                    all.take(i as int).filter(p)[j],
                    env@,
                ),
        decreases configured@.len() - i,
    {
        proof {
            reveal(Seq::filter);
            assert(all.take(i + 1).drop_last() =~= all.take(i as int));
            assert(all.take(i + 1).last() == configured@[i as int]@);
        }
        if let Some(config) = build_instance_config(configured[i].as_str(), env) {
            let types = payment::provider_supported_types(configured[i].as_str());
            out.push(
                InstanceDefault {
                    provider_key: configured[i].clone(),
                    name: provider_name(configured[i].as_str()),
                    config,
                    supported_types: join_types(&types),
                },
            );
        }
        i += 1;
    }
    assert(all.take(i as int) =~= all);
    out
}

/// The amounts of the configuration as they are written, and what the environment says.
#[derive(Debug)]
pub struct DefaultFacts {
    pub min_amount: String,
    pub max_amount: String,
    pub max_daily_amount: String,
    pub order_timeout_minutes: Option<String>,
    pub iframe_allow_origins: Option<String>,
}

/// The values with which the settings begin.
pub open spec fn defaults_of(available: Seq<Seq<char>>, facts: DefaultFacts) -> Map<
    Seq<char>,
    Seq<char>,
> {
    Map::<Seq<char>, Seq<char>>::empty().insert(
        "ENABLED_PAYMENT_TYPES"@,
        text::joined(available, ","@),
    ).insert("RECHARGE_MIN_AMOUNT"@, facts.min_amount@).insert(
        "RECHARGE_MAX_AMOUNT"@,
        facts.max_amount@,
    ).insert("DAILY_RECHARGE_LIMIT"@, facts.max_daily_amount@).insert(
        "ORDER_TIMEOUT_MINUTES"@,
        match facts.order_timeout_minutes {
            Some(m) => m@,
            None => "5"@,
        },
    ).insert(
        "IFRAME_ALLOW_ORIGINS"@,
        payment_provider::or_empty(db::opt_text(facts.iframe_allow_origins)),
    ).insert("MAX_PENDING_ORDERS"@, "3"@)
}

fn put(m: &mut TextMap<String>, key: &str, value: String)
    requires
        old(m).wf(),
    ensures
        final(m).wf(),
        maps::text_map(final(m)@) == maps::text_map(old(m)@).insert(key@, value@),
{
    let ghost v = value@;
    m.insert(key.to_owned(), value);
    assert(maps::text_map(m@) =~= maps::text_map(old(m)@).insert(key@, v));
}

pub fn build_defaults(available: &Vec<String>, facts: DefaultFacts) -> (r: TextMap<String>)
    ensures
        r.wf(),
        maps::text_map(r@) == defaults_of(text::texts(available@), facts),
{
    let mut m: TextMap<String> = TextMap::new();
    assert(maps::text_map(m@) =~= Map::<Seq<char>, Seq<char>>::empty());
    put(&mut m, "ENABLED_PAYMENT_TYPES", text::join(available, ","));
    put(&mut m, "RECHARGE_MIN_AMOUNT", facts.min_amount);
    put(&mut m, "RECHARGE_MAX_AMOUNT", facts.max_amount);
    put(&mut m, "DAILY_RECHARGE_LIMIT", facts.max_daily_amount);
    let timeout = match facts.order_timeout_minutes {
        Some(t) => t,
        None => "5".to_owned(),
    };
    put(&mut m, "ORDER_TIMEOUT_MINUTES", timeout);
    let origins = match facts.iframe_allow_origins {
        Some(o) => o,
        None => "".to_owned(),
    };
    put(&mut m, "IFRAME_ALLOW_ORIGINS", origins);
    put(&mut m, "MAX_PENDING_ORDERS", "3".to_owned());
    m
}

/// What the environment offers.
#[derive(Debug)]
pub struct EnvDefaults {
    pub available_payment_types: Vec<String>,
    pub providers: Vec<ProviderAvailability>,
    pub instance_defaults: Vec<InstanceDefault>,
    pub defaults: TextMap<String>,
}

pub fn env_defaults(payment_providers: &Vec<String>, env: &TextMap<String>, facts: DefaultFacts) -> (r:
    EnvDefaults)
    requires
        env.wf(),
    ensures
        ({
            let configured = payment::usable_keys(text::texts(payment_providers@));
            let available = payment::offered_types(configured);
            &&& text::texts(r.available_payment_types@) == available
            &&& r.providers@.len() == 2
            &&& r.providers@[0].key@ == "easypay"@
            &&& r.providers@[0].configured == configured.contains("easypay"@)
            &&& payment::str_texts(r.providers@[0].types@) == seq!["alipay"@, "wxpay"@]
            &&& r.providers@[1].key@ == "stripe"@
            &&& r.providers@[1].configured == configured.contains("stripe"@)
            &&& payment::str_texts(r.providers@[1].types@) == seq!["stripe"@]
            &&& r.instance_defaults@.len() == begun(configured, env@).len()
            &&& forall|i: int|
                0 <= i < r.instance_defaults@.len() ==> default_is(
                    #[trigger] r.instance_defaults@[i],
                    begun(configured, env@)[i],
                    env@,
                )
            &&& r.defaults.wf()
            &&& maps::text_map(r.defaults@) == defaults_of(available, facts)
        }),
{
    let configured = payment::filter_provider_keys_for_rust_mvp(payment_providers);
    let available_payment_types = payment::supported_types_for_provider_keys(&configured);
    let providers = provider_availability(&configured);
    let instance_defaults = instance_defaults(&configured, env);
    let defaults = build_defaults(&available_payment_types, facts);
    EnvDefaults { available_payment_types, providers, instance_defaults, defaults }
}

/// A provider that cannot be used is not offered, whatever the environment holds for it.
pub proof fn law_only_usable_providers_are_begun(
    keys: Seq<Seq<char>>,
    env: Map<Seq<char>, String>,
    key: Seq<char>,
)
    requires
        begun(payment::usable_keys(keys), env).contains(key),
    ensures
        payment::enabled_provider(key),
        keys.contains(key),
{
    payment::usable_keys(keys).lemma_filter_contains_rev(
        |k: Seq<char>| default_settings(k, env) is Some,
        key,
    );
    payment::law_provider_keys_are_split(keys, key);
}

/// A gateway can be begun from the environment exactly where it holds what the gateway cannot
/// do without; its settings are then those of the environment, each under its own name.
pub proof fn law_defaults_are_those_of_the_environment(env: Map<Seq<char>, String>)
    ensures
        default_settings("easypay"@, env) is Some <==> env.dom().contains("EASY_PAY_PID"@)
            && env.dom().contains("EASY_PAY_PKEY"@),
        default_settings("easypay"@, env) matches Some(m) ==> {
            &&& stems(m, "pid"@, env, "EASY_PAY_PID"@)
            &&& stems(m, "pkey"@, env, "EASY_PAY_PKEY"@)
            &&& stems(m, "apiBase"@, env, "EASY_PAY_API_BASE"@)
            &&& stems(m, "notifyUrl"@, env, "EASY_PAY_NOTIFY_URL"@)
            &&& stems(m, "returnUrl"@, env, "EASY_PAY_RETURN_URL"@)
            &&& stems(m, "cidAlipay"@, env, "EASY_PAY_CID_ALIPAY"@)
            &&& stems(m, "cidWxpay"@, env, "EASY_PAY_CID_WXPAY"@)
        },
        default_settings("stripe"@, env) is Some <==> env.dom().contains("STRIPE_SECRET_KEY"@),
        default_settings("stripe"@, env) matches Some(m) ==> {
            &&& stems(m, "secretKey"@, env, "STRIPE_SECRET_KEY"@)
            &&& stems(m, "publishableKey"@, env, "STRIPE_PUBLISHABLE_KEY"@)
            &&& stems(m, "webhookSecret"@, env, "STRIPE_WEBHOOK_SECRET"@)
        },
{
    reveal_strlit("easypay");
    reveal_strlit("alipay");
    reveal_strlit("wxpay");
    reveal_strlit("stripe");
    assert("easypay"@.len() == 7 && "alipay"@.len() == 6 && "wxpay"@.len() == 5 && "stripe"@.len()
        == 6);
    assert("alipay"@[0] == 'a' && "stripe"@[0] == 's');
    reveal_strlit("pid");
    reveal_strlit("pkey");
    reveal_strlit("apiBase");
    reveal_strlit("notifyUrl");
    reveal_strlit("returnUrl");
    reveal_strlit("cidAlipay");
    reveal_strlit("cidWxpay");
    assert("notifyUrl"@[0] == 'n' && "returnUrl"@[0] == 'r' && "cidAlipay"@[0] == 'c');
    reveal_strlit("secretKey");
    reveal_strlit("publishableKey");
    reveal_strlit("webhookSecret");
    assert("pid"@.len() == 3);
    assert("pkey"@.len() == 4);
    assert("apiBase"@.len() == 7);
    assert("notifyUrl"@.len() == 9);
    assert("returnUrl"@.len() == 9);
    assert("cidAlipay"@.len() == 9);
    assert("cidWxpay"@.len() == 8);
    assert("secretKey"@.len() == 9);
    assert("publishableKey"@.len() == 14);
    assert("webhookSecret"@.len() == 13);
}

/// The same of the gateways that are asked directly.
pub proof fn law_direct_defaults_are_those_of_the_environment(env: Map<Seq<char>, String>)
    ensures
        default_settings("alipay"@, env) is Some <==> env.dom().contains("ALIPAY_APP_ID"@)
            && env.dom().contains("ALIPAY_PRIVATE_KEY"@),
        default_settings("alipay"@, env) matches Some(m) ==> {
            &&& stems(m, "appId"@, env, "ALIPAY_APP_ID"@)
            &&& stems(m, "privateKey"@, env, "ALIPAY_PRIVATE_KEY"@)
            &&& stems(m, "publicKey"@, env, "ALIPAY_PUBLIC_KEY"@)
            &&& stems(m, "notifyUrl"@, env, "ALIPAY_NOTIFY_URL"@)
            &&& stems(m, "returnUrl"@, env, "ALIPAY_RETURN_URL"@)
        },
        default_settings("wxpay"@, env) is Some <==> env.dom().contains("WXPAY_APP_ID"@)
            && env.dom().contains("WXPAY_MCH_ID"@) && env.dom().contains("WXPAY_PRIVATE_KEY"@),
        default_settings("wxpay"@, env) matches Some(m) ==> {
            &&& stems(m, "appId"@, env, "WXPAY_APP_ID"@)
            &&& stems(m, "mchId"@, env, "WXPAY_MCH_ID"@)
            &&& stems(m, "privateKey"@, env, "WXPAY_PRIVATE_KEY"@)
            &&& stems(m, "apiV3Key"@, env, "WXPAY_API_V3_KEY"@)
            &&& stems(m, "publicKey"@, env, "WXPAY_PUBLIC_KEY"@)
            &&& stems(m, "publicKeyId"@, env, "WXPAY_PUBLIC_KEY_ID"@)
            &&& stems(m, "certSerial"@, env, "WXPAY_CERT_SERIAL"@)
            &&& stems(m, "notifyUrl"@, env, "WXPAY_NOTIFY_URL"@)
        },
{
    reveal_strlit("easypay");
    reveal_strlit("alipay");
    reveal_strlit("wxpay");
    assert("easypay"@.len() == 7 && "alipay"@.len() == 6 && "wxpay"@.len() == 5);
    reveal_strlit("appId");
    reveal_strlit("mchId");
    reveal_strlit("privateKey");
    reveal_strlit("publicKey");
    reveal_strlit("notifyUrl");
    reveal_strlit("returnUrl");
    reveal_strlit("apiV3Key");
    reveal_strlit("publicKeyId");
    reveal_strlit("certSerial");
    assert("appId"@[0] == 'a' && "mchId"@[0] == 'm');
    assert("publicKey"@[0] == 'p' && "notifyUrl"@[0] == 'n' && "returnUrl"@[0] == 'r');
    assert("privateKey"@[0] == 'p' && "certSerial"@[0] == 'c');
    assert("appId"@.len() == 5);
    assert("mchId"@.len() == 5);
    assert("privateKey"@.len() == 10);
    assert("publicKey"@.len() == 9);
    assert("notifyUrl"@.len() == 9);
    assert("returnUrl"@.len() == 9);
    assert("apiV3Key"@.len() == 8);
    assert("publicKeyId"@.len() == 11);
    assert("certSerial"@.len() == 10);
}

/// Whether a setting is what the environment holds under a name, and is there just where the
/// environment holds it.
pub open spec fn stems(
    m: Map<Seq<char>, Seq<char>>,
    key: Seq<char>,
    env: Map<Seq<char>, String>,
    env_key: Seq<char>,
) -> bool {
    &&& m.dom().contains(key) <==> env.dom().contains(env_key)
    &&& m.dom().contains(key) ==> m[key] == env[env_key]@
}

/// The settings that are begun with offer what is available, keep the bounds that were
/// settled, leave a buyer five minutes unless they are told otherwise, and let three orders
/// stand open.
pub proof fn law_settings_are_begun_with(available: Seq<Seq<char>>, facts: DefaultFacts)
    ensures
        ({
            let m = defaults_of(available, facts);
            &&& m["ENABLED_PAYMENT_TYPES"@] == text::joined(available, ","@)
            &&& m["RECHARGE_MIN_AMOUNT"@] == facts.min_amount@
            &&& m["RECHARGE_MAX_AMOUNT"@] == facts.max_amount@
            &&& m["DAILY_RECHARGE_LIMIT"@] == facts.max_daily_amount@
            &&& facts.order_timeout_minutes is None ==> m["ORDER_TIMEOUT_MINUTES"@] == "5"@
            &&& facts.order_timeout_minutes matches Some(t) ==> m["ORDER_TIMEOUT_MINUTES"@] == t@
            &&& facts.iframe_allow_origins matches Some(t) ==> m["IFRAME_ALLOW_ORIGINS"@] == t@
            &&& facts.iframe_allow_origins is None ==> m["IFRAME_ALLOW_ORIGINS"@].len() == 0
            &&& m["MAX_PENDING_ORDERS"@] == "3"@
        }),
{
    reveal_strlit("ENABLED_PAYMENT_TYPES");
    reveal_strlit("RECHARGE_MIN_AMOUNT");
    reveal_strlit("RECHARGE_MAX_AMOUNT");
    reveal_strlit("DAILY_RECHARGE_LIMIT");
    reveal_strlit("ORDER_TIMEOUT_MINUTES");
    reveal_strlit("IFRAME_ALLOW_ORIGINS");
    reveal_strlit("MAX_PENDING_ORDERS");
    reveal_strlit("");
    assert("ENABLED_PAYMENT_TYPES"@[0] == 'E' && "ORDER_TIMEOUT_MINUTES"@[0] == 'O');
    assert("RECHARGE_MIN_AMOUNT"@[10] == 'I' && "RECHARGE_MAX_AMOUNT"@[10] == 'A');
    assert("DAILY_RECHARGE_LIMIT"@[0] == 'D' && "IFRAME_ALLOW_ORIGINS"@[0] == 'I');
    assert("ENABLED_PAYMENT_TYPES"@.len() == 21);
    assert("RECHARGE_MIN_AMOUNT"@.len() == 19);
    assert("RECHARGE_MAX_AMOUNT"@.len() == 19);
    assert("DAILY_RECHARGE_LIMIT"@.len() == 20);
    assert("ORDER_TIMEOUT_MINUTES"@.len() == 21);
    assert("IFRAME_ALLOW_ORIGINS"@.len() == 20);
    assert("MAX_PENDING_ORDERS"@.len() == 18);
}

/// Both gateways are shown with the types that they serve, each as configured exactly where its
/// name is among those configured.
pub proof fn law_gateways_are_shown_as_configured(
    configured: Vec<String>,
    r: Vec<ProviderAvailability>,
)
    requires
        call_ensures(provider_availability, (&configured,), r),
    ensures
        r@.len() == 2,
        r@[0].key@ == "easypay"@ && r@[1].key@ == "stripe"@,
        r@[0].configured <==> exists|i: int|
            0 <= i < configured@.len() && (#[trigger] configured@[i])@ == "easypay"@,
        r@[1].configured <==> exists|i: int|
            0 <= i < configured@.len() && (#[trigger] configured@[i])@ == "stripe"@,
        r@[0].types@.len() == 2 && r@[0].types@[0]@ == "alipay"@ && r@[0].types@[1]@ == "wxpay"@,
        r@[1].types@.len() == 1 && r@[1].types@[0]@ == "stripe"@,
{
    let names = text::texts(configured@);
    assert(names.len() == configured@.len());
    assert forall|i: int| 0 <= i < names.len() implies #[trigger] names[i] == configured@[i]@ by {}
    if names.contains("easypay"@) {
        let i = choose|i: int| 0 <= i < names.len() && names[i] == "easypay"@;
        assert(configured@[i]@ == "easypay"@);
    }
    if names.contains("stripe"@) {
        let i = choose|i: int| 0 <= i < names.len() && names[i] == "stripe"@;
        assert(configured@[i]@ == "stripe"@);
    }
    assert forall|i: int|
        0 <= i < configured@.len() && (#[trigger] configured@[i])@
            == "easypay"@ implies names.contains("easypay"@) by {
        assert(names[i] == "easypay"@);
    }
    assert forall|i: int|
        0 <= i < configured@.len() && (#[trigger] configured@[i])@
            == "stripe"@ implies names.contains("stripe"@) by {
        assert(names[i] == "stripe"@);
    }
    let a = payment::str_texts(r@[0].types@);
    let b = payment::str_texts(r@[1].types@);
    assert(a.len() == r@[0].types@.len() && b.len() == r@[1].types@.len());
    assert(a[0] == "alipay"@ && a[1] == "wxpay"@ && b[0] == "stripe"@);
}

/// An instance is begun under the name of its gateway, with the types that the gateway serves.
pub proof fn law_instances_are_begun_with_their_types(
    d: InstanceDefault,
    key: Seq<char>,
    env: Map<Seq<char>, String>,
)
    requires
        default_is(d, key, env),
    ensures
        d.provider_key@ == key,
        d.supported_types@ == text::joined(payment::types_of_provider(key), ","@),
        key == "easypay"@ ==> d.name@ == "EasyPay"@,
        key == "stripe"@ ==> d.name@ == "Stripe"@,
        default_settings(key, env) == Some(maps::text_map(d.config@)),
{
    reveal_strlit("easypay");
    reveal_strlit("alipay");
    reveal_strlit("wxpay");
    reveal_strlit("stripe");
    assert("easypay"@.len() == 7 && "alipay"@.len() == 6 && "wxpay"@.len() == 5 && "stripe"@.len()
        == 6);
    assert("alipay"@[0] == 'a' && "stripe"@[0] == 's');
}

}
