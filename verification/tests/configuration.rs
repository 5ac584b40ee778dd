//! What the configuration of the service comes to.
use opay::config::{
    self, AmountTexts, Amounts, AppConfig, FileAppConfig, PathFacts, TomlItem,
};
use opay::maps::TextMap;
use opay::sub2api::Float64;

fn float(value: f64) -> Option<Float64> {
    Some(Float64 { bits: value.to_bits() })
}

fn no_amounts() -> Amounts {
    Amounts { min: None, max: None, max_daily: None }
}

fn empty_file() -> FileAppConfig {
    FileAppConfig {
        host: None,
        port: None,
        db_path: None,
        payment_providers: None,
        admin_token: None,
        system_config_cache_ttl_secs: None,
        sub2api_base_url: None,
        sub2api_timeout_secs: None,
        amounts: no_amounts(),
        pay_help_image_url: None,
        pay_help_text: None,
        stripe_publishable_key: None,
    }
}

fn facts(value: &str, base: &str, exists: bool) -> PathFacts {
    PathFacts {
        absolute: value.starts_with('/'),
        joined: format!("{base}/{value}"),
        joined_exists: exists,
    }
}

fn text(value: &str, base: &str, exists: bool) -> TomlItem {
    TomlItem::Text { value: value.to_string(), path: facts(value, base, exists) }
}

#[test]
fn the_database_stands_below_the_file_unless_its_path_is_absolute() {
    let mut file = empty_file();
    let mut env = TextMap::new();
    let resolve = |file: &FileAppConfig, env: &TextMap<String>, value: &str| {
        config::resolve_db_path(file, env, &facts(value, "/base", false), "/home/opay.db")
    };
    assert_eq!(resolve(&file, &env, ""), "/home/opay.db");
    env.insert("TURSO_DB_PATH".to_string(), "env.db".to_string());
    assert_eq!(resolve(&file, &env, "env.db"), "/base/env.db");
    file.db_path = Some("/abs/file.db".to_string());
    assert_eq!(resolve(&file, &env, "/abs/file.db"), "/abs/file.db");
    file.db_path = Some("file.db".to_string());
    assert_eq!(resolve(&file, &env, "file.db"), "/base/file.db");
}

#[test]
fn loads_structured_config_toml() {
    let mut file = empty_file();
    file.host = Some("127.0.0.1".to_string());
    file.port = Some(9090);
    file.db_path = Some("data/runtime.db".to_string());
    file.payment_providers = Some(vec!["easypay".to_string(), "stripe".to_string()]);
    file.admin_token = Some("secret-token".to_string());
    file.system_config_cache_ttl_secs = Some(99);
    file.sub2api_base_url = Some("https://sub2api.example.com/".to_string());
    file.sub2api_timeout_secs = Some(30);
    file.amounts = Amounts { min: float(5.5), max: float(3000.0), max_daily: float(20000.0) };
    let env = vec![("ORDER_TIMEOUT_MINUTES".to_string(), TomlItem::Integer { number: 7 })];
    let legacy = config::collect_legacy_env(&Vec::new(), &env).unwrap();
    assert_eq!(legacy.get("ORDER_TIMEOUT_MINUTES").map(String::as_str), Some("7"));
    assert_eq!(config::db_path_setting(&file, &legacy), Some("data/runtime.db"));
    let app = AppConfig::from_file_sections(
        &file,
        &legacy,
        no_amounts(),
        &facts("data/runtime.db", "/base", false),
        "/home/data/opay.db",
    );
    assert_eq!(app.host, "127.0.0.1");
    assert_eq!(app.port, 9090);
    assert_eq!(app.db_path, "/base/data/runtime.db");
    assert_eq!(app.payment_providers, vec!["easypay", "stripe"]);
    assert_eq!(app.admin_token.as_deref(), Some("secret-token"));
    assert_eq!(app.system_config_cache_ttl_secs, 99);
    assert_eq!(app.sub2api_base_url.as_deref(), Some("https://sub2api.example.com"));
    assert_eq!(app.sub2api_timeout_secs, 30);
    assert_eq!(f64::from_bits(app.min_recharge_amount.bits), 5.5);
    assert_eq!(f64::from_bits(app.max_recharge_amount.bits), 3000.0);
    assert_eq!(f64::from_bits(app.max_daily_recharge_amount.bits), 20000.0);
}

#[test]
fn supports_legacy_root_keys_and_relative_secret_paths() {
    let root = vec![
        ("APP_HOST".to_string(), text("0.0.0.0", "/base", false)),
        ("APP_PORT".to_string(), TomlItem::Integer { number: 8081 }),
        ("TURSO_DB_PATH".to_string(), text("data/local.db", "/base", false)),
        ("PAYMENT_PROVIDERS".to_string(), text("easypay,stripe", "/base", false)),
        ("ALIPAY_PRIVATE_KEY".to_string(), text("keys/private.pem", "/base", true)),
    ];
    let legacy = config::collect_legacy_env(&root, &Vec::new()).unwrap();
    let file = empty_file();
    assert_eq!(config::db_path_setting(&file, &legacy), Some("/base/data/local.db"));
    let app = AppConfig::from_file_sections(
        &file,
        &legacy,
        no_amounts(),
        &facts("/base/data/local.db", "/base", false),
        "/home/data/opay.db",
    );
    assert_eq!(app.port, 8081);
    assert_eq!(app.db_path, "/base/data/local.db");
    assert_eq!(app.payment_providers, vec!["easypay", "stripe"]);
    assert_eq!(
        legacy.get("ALIPAY_PRIVATE_KEY").map(String::as_str),
        Some("/base/keys/private.pem")
    );
    assert_eq!(app.bind_text(), "0.0.0.0:8081");
}

#[test]
fn defaults_fill_what_is_not_set() {
    let app = AppConfig::from_file_sections(
        &empty_file(),
        &TextMap::new(),
        no_amounts(),
        &facts("", "/base", false),
        "db",
    );
    assert_eq!(app.host, "0.0.0.0");
    assert_eq!(app.port, 8080);
    assert_eq!(app.db_path, "db");
    assert_eq!(app.admin_token, None);
    assert_eq!(f64::from_bits(app.min_recharge_amount.bits), 1.0);
    assert_eq!(f64::from_bits(app.max_recharge_amount.bits), 1000.0);
    assert_eq!(f64::from_bits(app.max_daily_recharge_amount.bits), 10000.0);
    assert_eq!(f64::from_bits(config::TEN_THOUSAND), 10000.0);
}

#[test]
fn keys_may_be_paths_and_nothing_else() {
    assert!(config::supports_file_path_value("ALIPAY_PRIVATE_KEY"));
    assert!(!config::supports_file_path_value("APP_HOST"));
    let kept = config::toml_scalar_to_string("APP_HOST", &text("keys/a.pem", "/base", true));
    assert_eq!(kept.as_deref(), Some("keys/a.pem"));
    let absent =
        config::toml_scalar_to_string("ALIPAY_PRIVATE_KEY", &text("keys/a.pem", "/base", false));
    assert_eq!(absent.as_deref(), Some("keys/a.pem"));
    assert_eq!(
        config::toml_scalar_to_string("A", &TomlItem::Boolean { flag: true }).as_deref(),
        Some("true")
    );
    assert_eq!(config::toml_scalar_to_string("A", &TomlItem::Nested), None);
    let bad = vec![("A".to_string(), TomlItem::Nested)];
    assert!(config::collect_legacy_env(&Vec::new(), &bad).is_err());
}

#[test]
fn the_environment_repeats_the_configuration() {
    let app = AppConfig::from_file_sections(
        &empty_file(),
        &TextMap::new(),
        no_amounts(),
        &facts("", "/base", false),
        "db",
    );
    let amounts = AmountTexts {
        min: "1".to_string(),
        max: "1000".to_string(),
        max_daily: "10000".to_string(),
    };
    let mut legacy = TextMap::new();
    legacy.insert("EXTRA".to_string(), "kept".to_string());
    let env = config::runtime_env(legacy, &app, &amounts, Some("debug"));
    assert_eq!(env.get("EXTRA").map(String::as_str), Some("kept"));
    assert_eq!(env.get("RUST_LOG").map(String::as_str), Some("debug"));
    assert_eq!(env.get("MIN_RECHARGE_AMOUNT").map(String::as_str), Some("1"));
    assert_eq!(config::parse_payment_providers(" EasyPay,,Stripe "), vec!["easypay", "stripe"]);
}
