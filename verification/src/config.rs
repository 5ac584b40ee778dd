//! How the service is configured: by a file, whose sections come before the values that stand
//! for environment variables.
use vstd::prelude::*;

use crate::admin_auth;
use crate::db;
use crate::maps;
use crate::maps::TextMap;
use crate::payment;
use crate::payment_provider;
use crate::sub2api::Float64;
use crate::text;

verus! {

#[derive(Debug)]
pub struct AppConfig {
    pub host: String,
    pub port: u16,
    pub db_path: String,
    pub payment_providers: Vec<String>,
    pub admin_token: Option<String>,
    pub system_config_cache_ttl_secs: u64,
    pub sub2api_base_url: Option<String>,
    pub sub2api_timeout_secs: u64,
    pub min_recharge_amount: Float64,
    pub max_recharge_amount: Float64,
    pub max_daily_recharge_amount: Float64,
    pub pay_help_image_url: Option<String>,
    pub pay_help_text: Option<String>,
    pub stripe_publishable_key: Option<String>,
}

/// What the section `app` of the file says.
#[derive(Debug)]
pub struct FileAppConfig {
    pub host: Option<String>,
    pub port: Option<u16>,
    pub db_path: Option<String>,
    pub payment_providers: Option<Vec<String>>,
    pub admin_token: Option<String>,
    pub system_config_cache_ttl_secs: Option<u64>,
    pub sub2api_base_url: Option<String>,
    pub sub2api_timeout_secs: Option<u64>,
    pub amounts: Amounts,
    pub pay_help_image_url: Option<String>,
    pub pay_help_text: Option<String>,
    pub stripe_publishable_key: Option<String>,
}

/// The least and the greatest amount of an order, and the greatest of a day.
#[derive(Debug, Clone, Copy, PartialEq, Eq, Structural)]
pub struct Amounts {
    pub min: Option<Float64>,
    pub max: Option<Float64>,
    pub max_daily: Option<Float64>,
}

/// The numbers 1, 1000 and 10000, by their bits.
pub const ONE: u64 = 4607182418800017408;

pub const THOUSAND: u64 = 4652007308841189376;

pub const TEN_THOUSAND: u64 = 4666723172467343360;

// ---------------------------------------------------------------------------
// Values that stand for environment variables
// ---------------------------------------------------------------------------
/// What the file system makes of a value as a path below the directory of the file.
#[derive(Debug)]
pub struct PathFacts {
    pub absolute: bool,
    pub joined: String,
    pub joined_exists: bool,
}

/// A value of the file.
#[derive(Debug)]
pub enum TomlItem {
    Text { value: String, path: PathFacts },
    Integer { number: i64 },
    Float { shown: String },
    Boolean { flag: bool },
    Datetime { written: String },
    /// An array or a table.
    Nested,
}

pub open spec fn names_a_key_file(key: Seq<char>) -> bool {
    key == "ALIPAY_PRIVATE_KEY"@ || key == "ALIPAY_PUBLIC_KEY"@ || key == "WXPAY_PRIVATE_KEY"@
        || key == "WXPAY_PUBLIC_KEY"@
}

pub fn supports_file_path_value(key: &str) -> (r: bool)
    ensures
        r == names_a_key_file(key@),
{
    text::same(key, "ALIPAY_PRIVATE_KEY") || text::same(key, "ALIPAY_PUBLIC_KEY") || text::same(
        key,
        "WXPAY_PRIVATE_KEY",
    ) || text::same(key, "WXPAY_PUBLIC_KEY")
}

/// A path that is not absolute is taken below the directory of the file: the path of the
/// database always, that of a key where there is such a file.
pub open spec fn resolved(key: Seq<char>, value: Seq<char>, path: PathFacts) -> Seq<char> {
    if path.absolute {
        value
    } else if key == "TURSO_DB_PATH"@ || (names_a_key_file(key) && path.joined_exists) {
        path.joined@
    } else {
        value
    }
}

pub fn maybe_resolve_value_as_path(key: &str, value: &str, path: &PathFacts) -> (r: String)
    ensures
        r@ == resolved(key@, value@, *path),
{
    if path.absolute {
        value.to_owned()
    } else if text::same(key, "TURSO_DB_PATH") || (supports_file_path_value(key)
        && path.joined_exists) {
        path.joined.clone()
    } else {
        value.to_owned()
    }
}

/// The text of a value that is not nested.
pub open spec fn scalar(key: Seq<char>, item: TomlItem) -> Option<Seq<char>> {
    match item {
        TomlItem::Text { value, path } => Some(resolved(key, value@, path)),
        TomlItem::Integer { number } => Some(text::decimal(number as int)),
        TomlItem::Float { shown } => Some(shown@),
        TomlItem::Boolean { flag } => Some(
            if flag {
                "true"@
            } else {
                "false"@
            },
        ),
        TomlItem::Datetime { written } => Some(written@),
        TomlItem::Nested => None,
    }
}

pub fn toml_scalar_to_string(key: &str, item: &TomlItem) -> (r: Option<String>)
    ensures
        db::opt_text(r) == scalar(key@, *item),
{
    match item {
        TomlItem::Text { value, path } => Some(
            maybe_resolve_value_as_path(key, value.as_str(), path),
        ),
        TomlItem::Integer { number } => Some(text::i64_text(*number)),
        TomlItem::Float { shown } => Some(shown.clone()),
        TomlItem::Boolean { flag } => Some(
            if *flag {
                "true".to_owned()
            } else {
                "false".to_owned()
            },
        ),
        TomlItem::Datetime { written } => Some(written.clone()),
        TomlItem::Nested => None,
    }
}

/// The texts of a section on top of those before it, or the first key that is nested.
pub open spec fn texts_of(items: Seq<(String, TomlItem)>, before: Map<Seq<char>, Seq<char>>) -> Result<
    Map<Seq<char>, Seq<char>>,
    Seq<char>,
>
    decreases items.len(),
{
    if items.len() == 0 {
        Ok(before)
    } else {
        match scalar(items[0].0@, items[0].1) {
            None => Err(items[0].0@),
            Some(t) => texts_of(items.drop_first(), before.insert(items[0].0@, t)),
        }
    }
}

fn add_texts(items: &Vec<(String, TomlItem)>, texts: &mut TextMap<String>) -> (r: Option<String>)
    requires
        old(texts).wf(),
    ensures
        final(texts).wf(),
        match r {
            None => texts_of(items@, maps::text_map(old(texts)@)) == Ok::<
                Map<Seq<char>, Seq<char>>,
                Seq<char>,
            >(maps::text_map(final(texts)@)),
            Some(key) => texts_of(items@, maps::text_map(old(texts)@)) == Err::<
                Map<Seq<char>, Seq<char>>,
                Seq<char>,
            >(key@),
        },
{
    let ghost first = maps::text_map(texts@);
    let ghost all = items@;
    let mut i: usize = 0;
    assert(all.skip(0) =~= all);
    while i < items.len()
        invariant
            i <= items@.len(),
            all == items@,
            first == maps::text_map(old(texts)@),
            texts.wf(),
            texts_of(all, first) == texts_of(all.skip(i as int), maps::text_map(texts@)),
        decreases items@.len() - i,
    {
        assert(all.skip(i as int)[0] == all[i as int]);
        assert(all.skip(i as int).drop_first() =~= all.skip(i + 1));
        match toml_scalar_to_string(items[i].0.as_str(), &items[i].1) {
            None => {
                return Some(items[i].0.clone());
            },
            Some(t) => {
                let ghost before = texts@;
                let ghost v = t@;
                texts.insert(items[i].0.clone(), t);
                assert(
                    maps::text_map(texts@) =~= maps::text_map(before).insert(all[i as int].0@, v)
                );
            },
        }
        i += 1;
    }
    None
}

pub open spec fn legacy_env(root: Seq<(String, TomlItem)>, env: Seq<(String, TomlItem)>) -> Result<
    Map<Seq<char>, Seq<char>>,
    Seq<char>,
> {
    match texts_of(root, Map::empty()) {
        Err(key) => Err(
            "root key `"@ + key
                + "` must be a scalar value; move nested config into [app], [runtime], or [env]"@,
        ),
        Ok(m) => match texts_of(env, m) {
            Err(key) => Err(
                "[env]."@ + key
                    + " must be a scalar value; arrays/tables are not supported there"@,
            ),
            Ok(all) => Ok(all),
        },
    }
}

/// The values of the file that stand for environment variables: those at its root, and
/// those of the section `env`, which come before them.
pub fn collect_legacy_env(root: &Vec<(String, TomlItem)>, env: &Vec<(String, TomlItem)>) -> (r:
    Result<TextMap<String>, String>)
    ensures
        match r {
            Ok(m) => m.wf() && legacy_env(root@, env@) == Ok::<
                Map<Seq<char>, Seq<char>>,
                Seq<char>,
            >(maps::text_map(m@)),
            Err(e) => legacy_env(root@, env@) == Err::<Map<Seq<char>, Seq<char>>, Seq<char>>(e@),
        },
{
    let mut texts: TextMap<String> = TextMap::new();
    assert(maps::text_map(texts@) =~= Map::<Seq<char>, Seq<char>>::empty());
    if let Some(key) = add_texts(root, &mut texts) {
        return Err(
            text::cat3(
                "root key `",
                key.as_str(),
                "` must be a scalar value; move nested config into [app], [runtime], or [env]",
            ),
        );
    }
    if let Some(key) = add_texts(env, &mut texts) {
        return Err(
            text::cat3(
                "[env].",
                key.as_str(),
                " must be a scalar value; arrays/tables are not supported there",
            ),
        );
    }
    Ok(texts)
}

// ---------------------------------------------------------------------------
// The configuration
// ---------------------------------------------------------------------------
/// The names of the providers in a list with commas, in lower case.
pub open spec fn provider_names(value: Seq<char>) -> Seq<Seq<char>> {
    payment::csv_items(value).map_values(|s: Seq<char>| text::lowered(s))
}

pub fn parse_payment_providers(value: &str) -> (r: Vec<String>)
    ensures
        text::texts(r@) == provider_names(value@),
{
    let items = payment::split_csv(value);
    let ghost all = payment::csv_items(value@);
    let mut out: Vec<String> = Vec::new();
    let mut i: usize = 0;
    while i < items.len()
        invariant
            i <= items@.len(),
            all == text::texts(items@),
            text::texts(out@) == all.take(i as int).map_values(|s: Seq<char>| text::lowered(s)),
        decreases items@.len() - i,
    {
        let ghost before = text::texts(out@);
        out.push(text::to_ascii_lowercase(items[i].as_str()));
        assert(text::texts(out@) =~= before.push(text::lowered(all[i as int])));
        assert(all.take(i + 1).map_values(|s: Seq<char>| text::lowered(s)) =~= before.push(
            text::lowered(all[i as int]),
        ));
        i += 1;
    }
    assert(all.take(i as int) =~= all);
    out
}

/// A text of the file, or else of the environment.
pub open spec fn given(file: Option<String>, env: Map<Seq<char>, String>, key: Seq<char>) -> Option<
    Seq<char>,
> {
    payment_provider::either(db::opt_text(file), payment_provider::held(env, key))
}

fn find_given<'a>(file: &'a Option<String>, env: &'a TextMap<String>, key: &str) -> (r: Option<
    &'a str,
>)
    requires
        env.wf(),
    ensures
        db::opt_str(r) == given(*file, env@, key@),
{
    match file {
        Some(s) => Some(s.as_str()),
        None => payment_provider::lookup(env, key),
    }
}

fn find_filled(file: &Option<String>, env: &TextMap<String>, key: &str) -> (r: Option<String>)
    requires
        env.wf(),
    ensures
        db::opt_text(r) == admin_auth::filled_trimmed(given(*file, env@, key@)),
{
    match admin_auth::trim_filled(find_given(file, env, key)) {
        Some(s) => Some(s.to_owned()),
        None => None,
    }
}

/// A number of the file, else of the environment, else the default.
pub open spec fn given_number(
    file: Option<u64>,
    env: Map<Seq<char>, String>,
    key: Seq<char>,
    max: int,
    default: int,
) -> int {
    match file {
        Some(n) => n as int,
        None => match payment_provider::held(env, key) {
            Some(s) => match text::unsigned_in(s, max) {
                Some(n) => n,
                None => default,
            },
            None => default,
        },
    }
}

fn find_u64(file: Option<u64>, env: &TextMap<String>, key: &str, default: u64) -> (r: u64)
    requires
        env.wf(),
    ensures
        r == given_number(file, env@, key@, u64::MAX as int, default as int),
{
    match file {
        Some(n) => n,
        None => match payment_provider::lookup(env, key) {
            Some(s) => match text::parse_u64(s) {
                Some(n) => n,
                None => default,
            },
            None => default,
        },
    }
}

fn find_port(file: Option<u16>, env: &TextMap<String>) -> (r: u16)
    requires
        env.wf(),
    ensures
        r == given_number(widened(file), env@, "APP_PORT"@, u16::MAX as int, 8080),
{
    match file {
        Some(n) => n,
        None => match payment_provider::lookup(env, "APP_PORT") {
            Some(s) => match text::parse_u16(s) {
                Some(n) => n,
                None => 8080,
            },
            None => 8080,
        },
    }
}

pub open spec fn widened(n: Option<u16>) -> Option<u64> {
    match n {
        Some(v) => Some(v as u64),
        None => None,
    }
}

pub open spec fn first_of(a: Option<Float64>, b: Option<Float64>, bits: u64) -> Float64 {
    match a {
        Some(x) => x,
        None => match b {
            Some(x) => x,
            None => Float64 { bits },
        },
    }
}

fn find_first(a: Option<Float64>, b: Option<Float64>, bits: u64) -> (r: Float64)
    ensures
        r == first_of(a, b, bits),
{
    match a {
        Some(x) => x,
        None => match b {
            Some(x) => x,
            None => Float64 { bits },
        },
    }
}

/// The host to listen on.
pub open spec fn host_of(file: FileAppConfig, env: Map<Seq<char>, String>) -> Seq<char> {
    match admin_auth::filled_trimmed(given(file.host, env, "APP_HOST"@)) {
        Some(h) => h,
        None => "0.0.0.0"@,
    }
}

pub open spec fn providers_of(file: FileAppConfig, env: Map<Seq<char>, String>) -> Seq<Seq<char>> {
    match file.payment_providers {
        Some(v) => text::texts(v@),
        None => match payment_provider::held(env, "PAYMENT_PROVIDERS"@) {
            Some(s) => provider_names(s),
            None => seq![],
        },
    }
}

pub open spec fn base_url_of(file: FileAppConfig, env: Map<Seq<char>, String>) -> Option<Seq<char>> {
    match admin_auth::filled_trimmed(given(file.sub2api_base_url, env, "SUB2API_BASE_URL"@)) {
        Some(u) => Some(text::without_trailing(u, '/')),
        None => None,
    }
}

/// The path of the database: that of the file, else of the environment, below the directory
/// of the file unless it is absolute; else the default.
pub open spec fn db_path_of(
    file: FileAppConfig,
    env: Map<Seq<char>, String>,
    path: PathFacts,
    default_path: Seq<char>,
) -> Seq<char> {
    match given(file.db_path, env, "TURSO_DB_PATH"@) {
        Some(written) => resolved("TURSO_DB_PATH"@, written, path),
        None => default_path,
    }
}

/// The configuration that the file and the environment add up to. The facts are those of the
/// path of the database as it is written.
pub open spec fn config_is(
    c: AppConfig,
    file: FileAppConfig,
    env: Map<Seq<char>, String>,
    env_amounts: Amounts,
    path: PathFacts,
    default_path: Seq<char>,
) -> bool {
    &&& c.host@ == host_of(file, env)
    &&& c.port == given_number(widened(file.port), env, "APP_PORT"@, u16::MAX as int, 8080)
    &&& c.db_path@ == db_path_of(file, env, path, default_path)
    &&& text::texts(c.payment_providers@) == providers_of(file, env)
    &&& db::opt_text(c.admin_token) == admin_auth::filled_trimmed(
        given(file.admin_token, env, "ADMIN_TOKEN"@),
    )
    &&& c.system_config_cache_ttl_secs == given_number(
        file.system_config_cache_ttl_secs,
        env,
        "SYSTEM_CONFIG_CACHE_TTL_SECS"@,
        u64::MAX as int,
        30,
    )
    &&& db::opt_text(c.sub2api_base_url) == base_url_of(file, env)
    &&& c.sub2api_timeout_secs == given_number(
        file.sub2api_timeout_secs,
        env,
        "SUB2API_TIMEOUT_SECS"@,
        u64::MAX as int,
        10,
    )
    &&& c.min_recharge_amount == first_of(file.amounts.min, env_amounts.min, ONE)
    &&& c.max_recharge_amount == first_of(file.amounts.max, env_amounts.max, THOUSAND)
    &&& c.max_daily_recharge_amount == first_of(
        file.amounts.max_daily,
        env_amounts.max_daily,
        TEN_THOUSAND,
    )
    &&& db::opt_text(c.pay_help_image_url) == admin_auth::filled_trimmed(
        given(file.pay_help_image_url, env, "PAY_HELP_IMAGE_URL"@),
    )
    &&& db::opt_text(c.pay_help_text) == admin_auth::filled_trimmed(
        given(file.pay_help_text, env, "PAY_HELP_TEXT"@),
    )
    &&& db::opt_text(c.stripe_publishable_key) == admin_auth::filled_trimmed(
        given(file.stripe_publishable_key, env, "STRIPE_PUBLISHABLE_KEY"@),
    )
}

/// The path of the database as it is written, where it is.
pub fn db_path_setting<'a>(file: &'a FileAppConfig, legacy_env: &'a TextMap<String>) -> (r: Option<
    &'a str,
>)
    requires
        legacy_env.wf(),
    ensures
        db::opt_str(r) == given(file.db_path, legacy_env@, "TURSO_DB_PATH"@),
{
    find_given(&file.db_path, legacy_env, "TURSO_DB_PATH")
}

/// The path of the database, given what the file system makes of it as it is written.
pub fn resolve_db_path(
    file: &FileAppConfig,
    legacy_env: &TextMap<String>,
    path: &PathFacts,
    default_path: &str,
) -> (r: String)
    requires
        legacy_env.wf(),
    ensures
        r@ == db_path_of(*file, legacy_env@, *path, default_path@),
{
    match db_path_setting(file, legacy_env) {
        Some(written) => maybe_resolve_value_as_path("TURSO_DB_PATH", written, path),
        None => default_path.to_owned(),
    }
}

impl AppConfig {
    /// Puts the configuration together. The amounts of the environment are given as the
    /// numbers that they are, and the path of the database, where one is written, with what
    /// the file system makes of it.
    pub fn from_file_sections(
        file: &FileAppConfig,
        legacy_env: &TextMap<String>,
        env_amounts: Amounts,
        path: &PathFacts,
        default_path: &str,
    ) -> (r: AppConfig)
        requires
            legacy_env.wf(),
        ensures
            config_is(r, *file, legacy_env@, env_amounts, *path, default_path@),
    {
        let host = match find_filled(&file.host, legacy_env, "APP_HOST") {
            Some(h) => h,
            None => "0.0.0.0".to_owned(),
        };
        let payment_providers = match &file.payment_providers {
            Some(v) => payment::copy_texts(v),
            None => match payment_provider::lookup(legacy_env, "PAYMENT_PROVIDERS") {
                Some(s) => parse_payment_providers(s),
                None => Vec::new(),
            },
        };
        assert(text::texts(payment_providers@) =~= providers_of(*file, legacy_env@));
        let sub2api_base_url = match find_filled(
            &file.sub2api_base_url,
            legacy_env,
            "SUB2API_BASE_URL",
        ) {
            Some(u) => Some(text::trim_end_matches(u.as_str(), '/').to_owned()),
            None => None,
        };
        AppConfig {
            host,
            port: find_port(file.port, legacy_env),
            db_path: resolve_db_path(file, legacy_env, path, default_path),
            payment_providers,
            admin_token: find_filled(&file.admin_token, legacy_env, "ADMIN_TOKEN"),
            system_config_cache_ttl_secs: find_u64(
                file.system_config_cache_ttl_secs,
                legacy_env,
                "SYSTEM_CONFIG_CACHE_TTL_SECS",
                30,
            ),
            sub2api_base_url,
            sub2api_timeout_secs: find_u64(
                file.sub2api_timeout_secs,
                legacy_env,
                "SUB2API_TIMEOUT_SECS",
                10,
            ),
            min_recharge_amount: find_first(file.amounts.min, env_amounts.min, ONE),
            max_recharge_amount: find_first(file.amounts.max, env_amounts.max, THOUSAND),
            max_daily_recharge_amount: find_first(
                file.amounts.max_daily,
                env_amounts.max_daily,
                TEN_THOUSAND,
            ),
            pay_help_image_url: find_filled(
                &file.pay_help_image_url,
                legacy_env,
                "PAY_HELP_IMAGE_URL",
            ),
            pay_help_text: find_filled(&file.pay_help_text, legacy_env, "PAY_HELP_TEXT"),
            stripe_publishable_key: find_filled(
                &file.stripe_publishable_key,
                legacy_env,
                "STRIPE_PUBLISHABLE_KEY",
            ),
        }
    }

    /// The address to listen on, as text.
    pub fn bind_text(&self) -> (r: String)
        ensures
            r@ == self.host@ + ":"@ + text::decimal(self.port as int),
    {
        text::cat3(self.host.as_str(), ":", text::u64_text(self.port as u64).as_str())
    }
}

// ---------------------------------------------------------------------------
// The environment of the process
// ---------------------------------------------------------------------------
/// The three amounts of the configuration as they are written.
#[derive(Debug)]
pub struct AmountTexts {
    pub min: String,
    pub max: String,
    pub max_daily: String,
}

pub open spec fn put(
    env: Map<Seq<char>, Seq<char>>,
    key: Seq<char>,
    value: Option<Seq<char>>,
) -> Map<Seq<char>, Seq<char>> {
    match value {
        Some(v) => env.insert(key, v),
        None => env,
    }
}

fn put_env(env: &mut TextMap<String>, key: &str, value: &Option<String>)
    requires
        old(env).wf(),
    ensures
        final(env).wf(),
        maps::text_map(final(env)@) == put(maps::text_map(old(env)@), key@, db::opt_text(*value)),
{
    if let Some(v) = value {
        env.insert(key.to_owned(), v.clone());
        assert(maps::text_map(env@) =~= maps::text_map(old(env)@).insert(key@, v@));
    }
}

fn put_text(env: &mut TextMap<String>, key: &str, value: &str)
    requires
        old(env).wf(),
    ensures
        final(env).wf(),
        maps::text_map(final(env)@) == maps::text_map(old(env)@).insert(key@, value@),
{
    env.insert(key.to_owned(), value.to_owned());
    assert(maps::text_map(env@) =~= maps::text_map(old(env)@).insert(key@, value@));
}

/// The values of the file with those that the configuration settled.
pub open spec fn settled_env(
    legacy: Map<Seq<char>, Seq<char>>,
    c: AppConfig,
    amounts: AmountTexts,
    rust_log: Option<Seq<char>>,
) -> Map<Seq<char>, Seq<char>> {
    let env = legacy.insert("APP_HOST"@, c.host@).insert(
        "APP_PORT"@,
        text::decimal(c.port as int),
    ).insert("TURSO_DB_PATH"@, c.db_path@).insert(
        "PAYMENT_PROVIDERS"@,
        text::joined(text::texts(c.payment_providers@), ","@),
    ).insert(
        "SYSTEM_CONFIG_CACHE_TTL_SECS"@,
        text::decimal(c.system_config_cache_ttl_secs as int),
    ).insert("SUB2API_TIMEOUT_SECS"@, text::decimal(c.sub2api_timeout_secs as int)).insert(
        "MIN_RECHARGE_AMOUNT"@,
        amounts.min@,
    ).insert("MAX_RECHARGE_AMOUNT"@, amounts.max@).insert(
        "MAX_DAILY_RECHARGE_AMOUNT"@,
        amounts.max_daily@,
    );
    let env = put(env, "ADMIN_TOKEN"@, db::opt_text(c.admin_token));
    let env = put(env, "SUB2API_BASE_URL"@, db::opt_text(c.sub2api_base_url));
    let env = put(env, "PAY_HELP_IMAGE_URL"@, db::opt_text(c.pay_help_image_url));
    let env = put(env, "PAY_HELP_TEXT"@, db::opt_text(c.pay_help_text));
    let env = put(env, "STRIPE_PUBLISHABLE_KEY"@, db::opt_text(c.stripe_publishable_key));
    put(env, "RUST_LOG"@, admin_auth::filled_trimmed(rust_log))
}

/// The environment that the process is given: the values of the file, and over them what
/// the configuration settled.
pub fn runtime_env(
    legacy_env: TextMap<String>,
    c: &AppConfig,
    amounts: &AmountTexts,
    rust_log: Option<&str>,
) -> (r: TextMap<String>)
    requires
        legacy_env.wf(),
    ensures
        r.wf(),
        maps::text_map(r@) == settled_env(
            maps::text_map(legacy_env@),
            *c,
            *amounts,
            db::opt_str(rust_log),
        ),
{
    let mut env = legacy_env;
    put_text(&mut env, "APP_HOST", c.host.as_str());
    put_text(&mut env, "APP_PORT", text::u64_text(c.port as u64).as_str());
    put_text(&mut env, "TURSO_DB_PATH", c.db_path.as_str());
    put_text(&mut env, "PAYMENT_PROVIDERS", text::join(&c.payment_providers, ",").as_str());
    put_text(
        &mut env,
        "SYSTEM_CONFIG_CACHE_TTL_SECS",
        text::u64_text(c.system_config_cache_ttl_secs).as_str(),
    );
    put_text(
        &mut env,
        "SUB2API_TIMEOUT_SECS",
        text::u64_text(c.sub2api_timeout_secs).as_str(),
    );
    put_text(&mut env, "MIN_RECHARGE_AMOUNT", amounts.min.as_str());
    put_text(&mut env, "MAX_RECHARGE_AMOUNT", amounts.max.as_str());
    put_text(&mut env, "MAX_DAILY_RECHARGE_AMOUNT", amounts.max_daily.as_str());
    put_env(&mut env, "ADMIN_TOKEN", &c.admin_token);
    put_env(&mut env, "SUB2API_BASE_URL", &c.sub2api_base_url);
    put_env(&mut env, "PAY_HELP_IMAGE_URL", &c.pay_help_image_url);
    put_env(&mut env, "PAY_HELP_TEXT", &c.pay_help_text);
    put_env(&mut env, "STRIPE_PUBLISHABLE_KEY", &c.stripe_publishable_key);
    let log = match admin_auth::trim_filled(rust_log) {
        Some(s) => Some(s.to_owned()),
        None => None,
    };
    put_env(&mut env, "RUST_LOG", &log);
    env
}

/// What the file says of the service comes before what its environment values say: the
/// latter decide nothing that the former names.
pub proof fn law_file_comes_before_env(
    c: AppConfig,
    d: AppConfig,
    file: FileAppConfig,
    env_c: Map<Seq<char>, String>,
    env_d: Map<Seq<char>, String>,
    amounts_c: Amounts,
    amounts_d: Amounts,
    path: PathFacts,
    default_c: Seq<char>,
    default_d: Seq<char>,
)
    requires
        config_is(c, file, env_c, amounts_c, path, default_c),
        config_is(d, file, env_d, amounts_d, path, default_d),
    ensures
        file.host is Some ==> c.host@ == d.host@,
        file.port is Some ==> c.port == d.port && Some(c.port) == file.port,
        file.db_path is Some ==> c.db_path@ == d.db_path@,
        file.payment_providers is Some ==> text::texts(c.payment_providers@) == text::texts(
            d.payment_providers@,
        ),
        file.admin_token is Some ==> db::opt_text(c.admin_token) == db::opt_text(d.admin_token),
        file.system_config_cache_ttl_secs is Some ==> c.system_config_cache_ttl_secs
            == d.system_config_cache_ttl_secs,
        file.sub2api_base_url is Some ==> db::opt_text(c.sub2api_base_url) == db::opt_text(
            d.sub2api_base_url,
        ),
        file.sub2api_timeout_secs is Some ==> c.sub2api_timeout_secs == d.sub2api_timeout_secs,
        file.amounts.min is Some ==> c.min_recharge_amount == d.min_recharge_amount,
        file.amounts.max is Some ==> c.max_recharge_amount == d.max_recharge_amount,
        file.amounts.max_daily is Some ==> c.max_daily_recharge_amount
            == d.max_daily_recharge_amount,
        file.pay_help_image_url is Some ==> db::opt_text(c.pay_help_image_url) == db::opt_text(
            d.pay_help_image_url,
        ),
        file.pay_help_text is Some ==> db::opt_text(c.pay_help_text) == db::opt_text(
            d.pay_help_text,
        ),
        file.stripe_publishable_key is Some ==> db::opt_text(c.stripe_publishable_key)
            == db::opt_text(d.stripe_publishable_key),
{
}

/// The host and the token are never blank, and there is no space around the token.
pub proof fn law_settled_texts_are_not_blank(
    c: AppConfig,
    file: FileAppConfig,
    env: Map<Seq<char>, String>,
    amounts: Amounts,
    path: PathFacts,
    default_path: Seq<char>,
)
    requires
        config_is(c, file, env, amounts, path, default_path),
    ensures
        c.host@.len() > 0,
        c.admin_token matches Some(t) ==> t@.len() > 0 && t@ == text::trimmed(t@),
{
    reveal_strlit("0.0.0.0");
    match given(file.admin_token, env, "ADMIN_TOKEN"@) {
        Some(raw) => {
            text::lemma_trimmed(raw);
        },
        None => {},
    }
}

/// What the file does not give is taken from the environment under its own name, and what
/// neither gives has its default: every address, port 8080, a cache of half a minute, ten
/// seconds for the platform, recharges of 1 to 1000 and of 10000 a day.
pub proof fn law_settings_have_their_sources(
    c: AppConfig,
    file: FileAppConfig,
    env: Map<Seq<char>, String>,
    amounts: Amounts,
    path: PathFacts,
    default_path: Seq<char>,
)
    requires
        config_is(c, file, env, amounts, path, default_path),
    ensures
        file.port matches Some(p) ==> c.port == p,
        file.port is None && env.dom().contains("APP_PORT"@) ==> (match text::unsigned_in(
            env["APP_PORT"@]@,
            65535,
        ) {
            Some(n) => c.port == n,
            None => c.port == 8080,
        }),
        file.port is None && !env.dom().contains("APP_PORT"@) ==> c.port == 8080,
        file.host is None && !env.dom().contains("APP_HOST"@) ==> c.host@ == "0.0.0.0"@,
        file.host matches Some(h) ==> text::trimmed(h@).len() > 0 ==> c.host@ == text::trimmed(h@),
        file.host is None && env.dom().contains("APP_HOST"@) && text::trimmed(
            env["APP_HOST"@]@,
        ).len() > 0 ==> c.host@ == text::trimmed(env["APP_HOST"@]@),
        file.system_config_cache_ttl_secs matches Some(n) ==> c.system_config_cache_ttl_secs == n,
        file.system_config_cache_ttl_secs is None && !env.dom().contains(
            "SYSTEM_CONFIG_CACHE_TTL_SECS"@,
        ) ==> c.system_config_cache_ttl_secs == 30,
        file.sub2api_timeout_secs matches Some(n) ==> c.sub2api_timeout_secs == n,
        file.sub2api_timeout_secs is None && !env.dom().contains("SUB2API_TIMEOUT_SECS"@)
            ==> c.sub2api_timeout_secs == 10,
        file.admin_token is None && !env.dom().contains("ADMIN_TOKEN"@) ==> c.admin_token is None,
        file.admin_token matches Some(t) ==> text::trimmed(t@).len() > 0 ==> (
        c.admin_token matches Some(u) && u@ == text::trimmed(t@)),
        file.admin_token is None && env.dom().contains("ADMIN_TOKEN"@) && text::trimmed(
            env["ADMIN_TOKEN"@]@,
        ).len() > 0 ==> (c.admin_token matches Some(u) && u@ == text::trimmed(
            env["ADMIN_TOKEN"@]@,
        )),
        file.db_path is None && !env.dom().contains("TURSO_DB_PATH"@) ==> c.db_path@
            == default_path,
        file.db_path matches Some(p) ==> c.db_path@ == (if path.absolute {
            p@
        } else {
            path.joined@
        }),
        file.db_path is None && env.dom().contains("TURSO_DB_PATH"@) ==> c.db_path@ == (
        if path.absolute {
            env["TURSO_DB_PATH"@]@
        } else {
            path.joined@
        }),
        file.amounts.min matches Some(x) ==> c.min_recharge_amount == x,
        file.amounts.max matches Some(x) ==> c.max_recharge_amount == x,
        file.amounts.max_daily matches Some(x) ==> c.max_daily_recharge_amount == x,
        file.amounts.min is None && amounts.min is None ==> c.min_recharge_amount.bits
            == 0x3FF0_0000_0000_0000u64,
        file.amounts.max is None && amounts.max is None ==> c.max_recharge_amount.bits
            == 0x408F_4000_0000_0000u64,
        file.amounts.max_daily is None && amounts.max_daily is None
            ==> c.max_daily_recharge_amount.bits == 0x40C3_8800_0000_0000u64,
{
}

/// The address of the platform ends in no stroke: it is the text given, with strokes only taken
/// off its end.
pub proof fn law_base_addresses_end_in_no_stroke(
    c: AppConfig,
    file: FileAppConfig,
    env: Map<Seq<char>, String>,
    amounts: Amounts,
    path: PathFacts,
    default_path: Seq<char>,
)
    requires
        config_is(c, file, env, amounts, path, default_path),
        file.sub2api_base_url is Some,
    ensures
        c.sub2api_base_url is Some <==> text::trimmed(file.sub2api_base_url->0@).len() > 0,
        c.sub2api_base_url matches Some(u) ==> {
            let written = text::trimmed(file.sub2api_base_url->0@);
            &&& u@.is_prefix_of(written)
            &&& forall|i: int| u@.len() <= i < written.len() ==> #[trigger] written[i] == '/'
            &&& u@.len() > 0 ==> u@.last() != '/'
        },
{
    let written = text::trimmed(file.sub2api_base_url->0@);
    text::law_only_the_end_is_taken_off(written, '/');
}

/// The settings that later parts read are those that were settled, each under its own name.
pub proof fn law_settled_settings_are_read_back(
    legacy: Map<Seq<char>, Seq<char>>,
    c: AppConfig,
    amounts: AmountTexts,
    rust_log: Option<Seq<char>>,
)
    ensures
        ({
            let env = settled_env(legacy, c, amounts, rust_log);
            &&& env["APP_HOST"@] == c.host@ && env["TURSO_DB_PATH"@] == c.db_path@
            &&& env["APP_PORT"@] == text::decimal(c.port as int)
            &&& env["PAYMENT_PROVIDERS"@] == text::joined(
                text::texts(c.payment_providers@),
                ","@,
            )
            &&& env["SYSTEM_CONFIG_CACHE_TTL_SECS"@] == text::decimal(
                c.system_config_cache_ttl_secs as int,
            )
            &&& env["SUB2API_TIMEOUT_SECS"@] == text::decimal(c.sub2api_timeout_secs as int)
            &&& env["MIN_RECHARGE_AMOUNT"@] == amounts.min@
            &&& env["MAX_RECHARGE_AMOUNT"@] == amounts.max@
            &&& env["MAX_DAILY_RECHARGE_AMOUNT"@] == amounts.max_daily@
            &&& c.admin_token matches Some(t) ==> env["ADMIN_TOKEN"@] == t@
            &&& c.sub2api_base_url matches Some(t) ==> env["SUB2API_BASE_URL"@] == t@
            &&& c.pay_help_image_url matches Some(t) ==> env["PAY_HELP_IMAGE_URL"@] == t@
            &&& c.pay_help_text matches Some(t) ==> env["PAY_HELP_TEXT"@] == t@
            &&& c.stripe_publishable_key matches Some(t) ==> env["STRIPE_PUBLISHABLE_KEY"@] == t@
        }),
{
    reveal_strlit("APP_HOST");
    reveal_strlit("APP_PORT");
    reveal_strlit("TURSO_DB_PATH");
    reveal_strlit("PAYMENT_PROVIDERS");
    reveal_strlit("SYSTEM_CONFIG_CACHE_TTL_SECS");
    reveal_strlit("SUB2API_TIMEOUT_SECS");
    reveal_strlit("MIN_RECHARGE_AMOUNT");
    reveal_strlit("MAX_RECHARGE_AMOUNT");
    reveal_strlit("MAX_DAILY_RECHARGE_AMOUNT");
    reveal_strlit("ADMIN_TOKEN");
    reveal_strlit("SUB2API_BASE_URL");
    reveal_strlit("PAY_HELP_IMAGE_URL");
    reveal_strlit("PAY_HELP_TEXT");
    reveal_strlit("STRIPE_PUBLISHABLE_KEY");
    reveal_strlit("RUST_LOG");
    assert("APP_HOST"@[4] == 'H' && "APP_PORT"@[4] == 'P' && "RUST_LOG"@[4] == '_');
    assert("TURSO_DB_PATH"@[0] == 'T' && "PAY_HELP_TEXT"@[0] == 'P');
    assert("MIN_RECHARGE_AMOUNT"@[1] == 'I' && "MAX_RECHARGE_AMOUNT"@[1] == 'A');
    assert("APP_HOST"@.len() == 8);
    assert("APP_PORT"@.len() == 8);
    assert("TURSO_DB_PATH"@.len() == 13);
    assert("PAYMENT_PROVIDERS"@.len() == 17);
    assert("SYSTEM_CONFIG_CACHE_TTL_SECS"@.len() == 28);
    assert("SUB2API_TIMEOUT_SECS"@.len() == 20);
    assert("MIN_RECHARGE_AMOUNT"@.len() == 19);
    assert("MAX_RECHARGE_AMOUNT"@.len() == 19);
    assert("MAX_DAILY_RECHARGE_AMOUNT"@.len() == 25);
    assert("ADMIN_TOKEN"@.len() == 11);
    assert("SUB2API_BASE_URL"@.len() == 16);
    assert("PAY_HELP_IMAGE_URL"@.len() == 18);
    assert("PAY_HELP_TEXT"@.len() == 13);
    assert("STRIPE_PUBLISHABLE_KEY"@.len() == 22);
    assert("RUST_LOG"@.len() == 8);
}

/// A text of the file stands for itself, but that the name of a database or of a key that is a
/// file beside it stands for that file; a number is written out, and a list or a table is
/// refused.
pub proof fn law_items_are_read_as_written(key: Seq<char>, item: TomlItem)
    ensures
        scalar(key, item) is None <==> item is Nested,
        item matches TomlItem::Integer { number } ==> scalar(key, item) == Some(
            text::decimal(number as int),
        ),
        item matches TomlItem::Boolean { flag } ==> scalar(key, item) == Some(
            if flag {
                "true"@
            } else {
                "false"@
            },
        ),
        item matches TomlItem::Text { value, path } ==> {
            let names_file = key == "ALIPAY_PRIVATE_KEY"@ || key == "ALIPAY_PUBLIC_KEY"@ || key
                == "WXPAY_PRIVATE_KEY"@ || key == "WXPAY_PUBLIC_KEY"@;
            &&& path.absolute ==> scalar(key, item) == Some(value@)
            &&& !path.absolute && key == "TURSO_DB_PATH"@ ==> scalar(key, item) == Some(
                path.joined@,
            )
            &&& !path.absolute && names_file && path.joined_exists ==> scalar(key, item) == Some(
                path.joined@,
            )
            &&& !path.joined_exists && key != "TURSO_DB_PATH"@ ==> scalar(key, item) == Some(
                value@,
            )
            &&& !names_file && key != "TURSO_DB_PATH"@ ==> scalar(key, item) == Some(value@)
        },
{
}

/// Of two items of one name the later counts, and one of the table of settings counts over one
/// of the file itself.
pub proof fn law_later_items_count(
    root: Seq<(String, TomlItem)>,
    env: Seq<(String, TomlItem)>,
    key: Seq<char>,
    i: int,
)
    requires
        legacy_env(root, env) is Ok,
    ensures
        0 <= i < env.len() && env[i].0@ == key && (forall|j: int|
            i < j < env.len() ==> (#[trigger] env[j]).0@ != key) ==> legacy_env(
            root,
            env,
        )->Ok_0.dom().contains(key) && scalar(key, env[i].1) == Some(
            legacy_env(root, env)->Ok_0[key],
        ),
        0 <= i < root.len() && root[i].0@ == key && (forall|j: int|
            i < j < root.len() ==> (#[trigger] root[j]).0@ != key) && (forall|j: int|
            0 <= j < env.len() ==> (#[trigger] env[j]).0@ != key) ==> legacy_env(
            root,
            env,
        )->Ok_0.dom().contains(key) && scalar(key, root[i].1) == Some(
            legacy_env(root, env)->Ok_0[key],
        ),
{
    let m = texts_of(root, Map::empty())->Ok_0;
    lemma_last_text(root, Map::empty(), key, i);
    lemma_last_text(env, m, key, i);
}

proof fn lemma_last_text(
    items: Seq<(String, TomlItem)>,
    before: Map<Seq<char>, Seq<char>>,
    key: Seq<char>,
    i: int,
)
    requires
        texts_of(items, before) is Ok,
    ensures
        0 <= i < items.len() && items[i].0@ == key && (forall|j: int|
            i < j < items.len() ==> (#[trigger] items[j]).0@ != key) ==> texts_of(
            items,
            before,
        )->Ok_0.dom().contains(key) && scalar(key, items[i].1) == Some(
            texts_of(items, before)->Ok_0[key],
        ),
        (forall|j: int| 0 <= j < items.len() ==> (#[trigger] items[j]).0@ != key) ==> (texts_of(
            items,
            before,
        )->Ok_0.dom().contains(key) <==> before.dom().contains(key)) && texts_of(
            items,
            before,
        )->Ok_0[key] == before[key],
    decreases items.len(),
{
    if items.len() > 0 {
        let rest = items.drop_first();
        let value = scalar(items[0].0@, items[0].1)->0;
        lemma_last_text(rest, before.insert(items[0].0@, value), key, i - 1);
        assert forall|j: int| 0 <= j < rest.len() implies #[trigger] rest[j] == items[j + 1] by {}
        if forall|j: int| 0 <= j < items.len() ==> (#[trigger] items[j]).0@ != key {
            assert(items[0].0@ != key);
            assert forall|j: int| 0 <= j < rest.len() implies (#[trigger] rest[j]).0@ != key by {
                assert(items[j + 1].0@ != key);
            }
        }
        if 0 <= i < items.len() && (forall|j: int|
            i < j < items.len() ==> (#[trigger] items[j]).0@ != key) {
            assert forall|j: int| i - 1 < j < rest.len() && 0 <= j implies (
            #[trigger] rest[j]).0@ != key by {
                assert(items[j + 1].0@ != key);
            }
        }
    }
}

/// The service listens on its address and port.
pub proof fn law_service_listens_where_it_is_told(c: AppConfig, r: String)
    requires
        call_ensures(AppConfig::bind_text, (&c,), r),
    ensures
        r@ == c.host@ + ":"@ + text::decimal(c.port as int),
{
}

/// What is settled is settled from the file, the environment and the defaults.
pub proof fn law_settings_are_settled_from_their_sources(
    file: FileAppConfig,
    env: TextMap<String>,
    amounts: Amounts,
    path: PathFacts,
    default_path: &str,
    r: AppConfig,
)
    requires
        call_ensures(
            AppConfig::from_file_sections,
            (&file, &env, amounts, &path, default_path),
            r,
        ),
    ensures
        config_is(r, file, env@, amounts, path, default_path@),
        file.port is None && !env@.dom().contains("APP_PORT"@) ==> r.port == 8080,
        file.port matches Some(p) ==> r.port == p,
{
    law_settings_have_their_sources(r, file, env@, amounts, path, default_path@);
}


/// What the shop tells its buyers is taken from the file, or else from the environment, each
/// under its own name.
pub proof fn law_help_is_taken_from_its_sources(
    c: AppConfig,
    file: FileAppConfig,
    env: Map<Seq<char>, String>,
    amounts: Amounts,
    path: PathFacts,
    default_path: Seq<char>,
)
    requires
        config_is(c, file, env, amounts, path, default_path),
    ensures
        ({
            let from = |own: Option<String>, key: Seq<char>, settled: Option<String>|
                {
                    let given = match own {
                        Some(s) => Some(s@),
                        None => if env.dom().contains(key) {
                            Some(env[key]@)
                        } else {
                            None
                        },
                    };
                    &&& given is None ==> settled is None
                    &&& given matches Some(s) ==> (settled is Some <==> text::trimmed(s).len() > 0)
                    &&& given matches Some(s) ==> (settled matches Some(t) ==> t@ == text::trimmed(
                        s,
                    ))
                };
            &&& from(file.pay_help_image_url, "PAY_HELP_IMAGE_URL"@, c.pay_help_image_url)
            &&& from(file.pay_help_text, "PAY_HELP_TEXT"@, c.pay_help_text)
            &&& from(
                file.stripe_publishable_key,
                "STRIPE_PUBLISHABLE_KEY"@,
                c.stripe_publishable_key,
            )
            &&& from(file.admin_token, "ADMIN_TOKEN"@, c.admin_token)
        }),
        file.payment_providers matches Some(v) ==> text::texts(c.payment_providers@)
            == text::texts(v@),
        file.payment_providers is None && !env.dom().contains("PAYMENT_PROVIDERS"@)
            ==> c.payment_providers@.len() == 0,
{
    assert(text::texts(c.payment_providers@).len() == c.payment_providers@.len());
}

}
