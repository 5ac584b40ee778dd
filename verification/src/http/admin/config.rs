//! Settings, as administrators see and change them.
use vstd::prelude::*;

use crate::error;
use crate::error::{AppError, ErrorKind, Refusal};
use crate::lists;
use crate::masking;
use crate::payment;
use crate::provider_instances;
use crate::provider_instances::ProviderInstanceRecord;
use crate::system_config::{SystemConfigEntry, UpsertSystemConfig};
use crate::text;

verus! {

/// Whether a setting is a secret, by its name.
pub open spec fn sensitive(key: Seq<char>) -> bool {
    let upper = text::uppered(key);
    text::occurs_in("KEY"@, upper) || text::occurs_in("SECRET"@, upper) || text::occurs_in(
        "PASSWORD"@,
        upper,
    ) || text::occurs_in("PRIVATE"@, upper)
}

pub fn is_sensitive(key: &str) -> (r: bool)
    ensures
        r == sensitive(key@),
{
    let upper = text::to_ascii_uppercase(key);
    let upper = upper.as_str();
    text::contains(upper, "KEY") || text::contains(upper, "SECRET") || text::contains(
        upper,
        "PASSWORD",
    ) || text::contains(upper, "PRIVATE")
}

/// A setting as it is shown.
pub open spec fn shown(key: Seq<char>, value: Seq<char>) -> Seq<char> {
    if sensitive(key) {
        masking::masked(value)
    } else {
        value
    }
}

pub fn mask_sensitive_value(key: &str, value: &str) -> (r: String)
    requires
        sensitive(key@) ==> masking::maskable(value@),
    ensures
        r@ == shown(key@, value@),
{
    if is_sensitive(key) {
        masking::mask_value(value)
    } else {
        value.to_owned()
    }
}

/// Shows a setting.
pub fn mask_config(config: SystemConfigEntry) -> (r: SystemConfigEntry)
    requires
        sensitive(config.key@) ==> masking::maskable(config.value@),
    ensures
        r.key == config.key,
        r.value@ == shown(config.key@, config.value@),
        r.group == config.group,
        r.label == config.label,
        r.updated_at == config.updated_at,
{
    let value = mask_sensitive_value(config.key.as_str(), config.value.as_str());
    SystemConfigEntry {
        key: config.key,
        value,
        group: config.group,
        label: config.label,
        updated_at: config.updated_at,
    }
}

/// Whether a value is the mask of a secret, and no new one.
pub open spec fn is_mask(key: Seq<char>, value: Seq<char>) -> bool {
    sensitive(key) && masking::looks_masked(value)
}

pub fn is_masked_sensitive_value(key: &str, value: &str) -> (r: bool)
    ensures
        r == is_mask(key@, value@),
{
    is_sensitive(key) && masking::is_masked_value(value)
}

/// The settings that may be changed.
pub open spec fn allowed(key: Seq<char>) -> bool {
    ||| key == "ENABLED_PAYMENT_TYPES"@
    ||| key == "RECHARGE_MIN_AMOUNT"@
    ||| key == "RECHARGE_MAX_AMOUNT"@
    ||| key == "DAILY_RECHARGE_LIMIT"@
    ||| key == "ORDER_TIMEOUT_MINUTES"@
    ||| key == "IFRAME_ALLOW_ORIGINS"@
    ||| key == "PRODUCT_NAME_PREFIX"@
    ||| key == "PRODUCT_NAME_SUFFIX"@
    ||| key == "BALANCE_PAYMENT_DISABLED"@
    ||| key == "CANCEL_RATE_LIMIT_ENABLED"@
    ||| key == "CANCEL_RATE_LIMIT_WINDOW"@
    ||| key == "CANCEL_RATE_LIMIT_UNIT"@
    ||| key == "CANCEL_RATE_LIMIT_MAX"@
    ||| key == "CANCEL_RATE_LIMIT_WINDOW_MODE"@
    ||| key == "MAX_PENDING_ORDERS"@
    ||| key == "LOAD_BALANCE_STRATEGY"@
    ||| key == "ENABLED_PROVIDERS"@
    ||| key == "SUB2API_ADMIN_API_KEY"@
    ||| key == "OVERRIDE_ENV_ENABLED"@
    ||| key == "DEFAULT_DEDUCT_BALANCE"@
}

pub fn is_allowed(key: &str) -> (r: bool)
    ensures
        r == allowed(key@),
{
    text::same(key, "ENABLED_PAYMENT_TYPES") || text::same(key, "RECHARGE_MIN_AMOUNT")
        || text::same(key, "RECHARGE_MAX_AMOUNT") || text::same(key, "DAILY_RECHARGE_LIMIT")
        || text::same(key, "ORDER_TIMEOUT_MINUTES") || text::same(key, "IFRAME_ALLOW_ORIGINS")
        || text::same(key, "PRODUCT_NAME_PREFIX") || text::same(key, "PRODUCT_NAME_SUFFIX")
        || text::same(key, "BALANCE_PAYMENT_DISABLED") || text::same(
        key,
        "CANCEL_RATE_LIMIT_ENABLED",
    ) || text::same(key, "CANCEL_RATE_LIMIT_WINDOW") || text::same(key, "CANCEL_RATE_LIMIT_UNIT")
        || text::same(key, "CANCEL_RATE_LIMIT_MAX") || text::same(
        key,
        "CANCEL_RATE_LIMIT_WINDOW_MODE",
    ) || text::same(key, "MAX_PENDING_ORDERS") || text::same(key, "LOAD_BALANCE_STRATEGY")
        || text::same(key, "ENABLED_PROVIDERS") || text::same(key, "SUB2API_ADMIN_API_KEY")
        || text::same(key, "OVERRIDE_ENV_ENABLED") || text::same(key, "DEFAULT_DEDUCT_BALANCE")
}

/// Why one setting cannot be changed, if it cannot.
pub open spec fn item_failure(item: UpsertSystemConfig) -> Option<Refusal> {
    if text::trimmed(item.key@).len() == 0 {
        Some((ErrorKind::BadRequest, "每条配置必须包含 key 和 value"@))
    } else if !allowed(item.key@) {
        Some((ErrorKind::BadRequest, "不允许修改配置项: "@ + item.key@))
    } else {
        None
    }
}

/// The refusal of the first setting that cannot be changed.
pub open spec fn first_failure(items: Seq<UpsertSystemConfig>) -> Option<Refusal>
    decreases items.len(),
{
    if items.len() == 0 {
        None
    } else if item_failure(items[0]) is Some {
        item_failure(items[0])
    } else {
        first_failure(items.drop_first())
    }
}

/// Why a change of settings is refused, if it is: there must be some, and each must be one
/// that may be changed.
pub open spec fn change_failure(items: Seq<UpsertSystemConfig>) -> Option<Refusal> {
    if items.len() == 0 {
        Some((ErrorKind::BadRequest, "缺少必填字段: configs 数组"@))
    } else {
        first_failure(items)
    }
}

pub fn check_change(items: &Vec<UpsertSystemConfig>) -> (r: Result<(), AppError>)
    ensures
        error::refusal_of(r) == change_failure(items@),
{
    if items.len() == 0 {
        return Err(AppError::bad_request("缺少必填字段: configs 数组"));
    }
    let ghost all = items@;
    let mut i: usize = 0;
    assert(all.skip(0) =~= all);
    while i < items.len()
        invariant
            i <= items@.len(),
            items@.len() > 0,
            all == items@,
            first_failure(all) == first_failure(all.skip(i as int)),
        decreases items@.len() - i,
    {
        assert(all.skip(i as int)[0] == all[i as int]);
        assert(all.skip(i as int).drop_first() =~= all.skip(i + 1));
        if text::trim(items[i].key.as_str()).is_empty() {
            return Err(AppError::bad_request("每条配置必须包含 key 和 value"));
        }
        if !is_allowed(items[i].key.as_str()) {
            let message = text::cat("不允许修改配置项: ", items[i].key.as_str());
            return Err(AppError::bad_request(message.as_str()));
        }
        i += 1;
    }
    Ok(())
}

/// The providers that a change switches on, where it says so: the first such setting counts.
pub open spec fn providers_wanted(items: Seq<UpsertSystemConfig>) -> Option<Seq<char>>
    decreases items.len(),
{
    if items.len() == 0 {
        None
    } else if items[0].key@ == "ENABLED_PROVIDERS"@ {
        Some(items[0].value@)
    } else {
        providers_wanted(items.drop_first())
    }
}

pub fn find_providers_wanted<'a>(items: &'a Vec<UpsertSystemConfig>) -> (r: Option<&'a str>)
    ensures
        crate::db::opt_str(r) == providers_wanted(items@),
{
    let ghost all = items@;
    let mut i: usize = 0;
    assert(all.skip(0) =~= all);
    while i < items.len()
        invariant
            i <= items@.len(),
            all == items@,
            providers_wanted(all) == providers_wanted(all.skip(i as int)),
        decreases items@.len() - i,
    {
        assert(all.skip(i as int)[0] == all[i as int]);
        assert(all.skip(i as int).drop_first() =~= all.skip(i + 1));
        if text::same(items[i].key.as_str(), "ENABLED_PROVIDERS") {
            return Some(items[i].value.as_str());
        }
        i += 1;
    }
    None
}

/// The providers that a change switches off.
pub open spec fn removed_providers(next: Seq<char>, current: Seq<char>) -> Seq<Seq<char>> {
    payment::csv_items(current).filter(|p: Seq<char>| !payment::csv_items(next).contains(p))
}

pub fn find_removed_providers(next: &str, current: &str) -> (r: Vec<String>)
    ensures
        text::texts(r@) == removed_providers(next@, current@),
{
    let wanted = payment::split_csv(next);
    let before = payment::split_csv(current);
    let ghost all = payment::csv_items(current@);
    let ghost p = |p: Seq<char>| !payment::csv_items(next@).contains(p);
    let mut out: Vec<String> = Vec::new();
    let mut i: usize = 0;
    proof {
        reveal(Seq::filter);
        assert(text::texts(out@) =~= all.take(0).filter(p));
    }
    while i < before.len()
        invariant
            i <= before@.len(),
            all == text::texts(before@),
            text::texts(wanted@) == payment::csv_items(next@),
            p == (|p: Seq<char>| !payment::csv_items(next@).contains(p)),
            text::texts(out@) == all.take(i as int).filter(p),
        decreases before@.len() - i,
    {
        proof {
            reveal(Seq::filter);
            assert(all.take(i + 1).drop_last() =~= all.take(i as int));
            assert(all.take(i + 1).last() == before@[i as int]@);
        }
        if !payment::contains_text(&wanted, before[i].as_str()) {
            let ghost kept = text::texts(out@);
            out.push(before[i].clone());
            assert(text::texts(out@) =~= kept.push(before@[i as int]@));
        }
        i += 1;
    }
    assert(all.take(i as int) =~= all);
    out
}

/// Why providers cannot be switched off, if they cannot: they have instances.
pub open spec fn blocked_refusal(blocked: Seq<Seq<char>>) -> Option<Refusal> {
    if blocked.len() == 0 {
        None
    } else {
        Some(
            (
                ErrorKind::Conflict,
                "无法关闭服务商类型 ["@ + text::joined(blocked, ", "@)
                    + "]：存在关联实例，请先删除所有实例"@,
            ),
        )
    }
}

/// Checks that no provider is switched off that has instances. Those that have were looked
/// up among the providers that are switched off.
pub fn check_blocked(blocked: &Vec<String>) -> (r: Result<(), AppError>)
    ensures
        error::refusal_of(r) == blocked_refusal(text::texts(blocked@)),
{
    assert(text::texts(blocked@).len() == blocked@.len());
    if blocked.len() == 0 {
        return Ok(());
    }
    let message = text::cat3(
        "无法关闭服务商类型 [",
        text::join(blocked, ", ").as_str(),
        "]：存在关联实例，请先删除所有实例",
    );
    Err(AppError::conflict(message.as_str()))
}

/// Why a change is refused, if it is: of the providers that were on and are to be off, some
/// have instances. `current` is what was on, where it is set.
pub open spec fn providers_refusal(
    items: Seq<UpsertSystemConfig>,
    current: Option<Seq<char>>,
    all: Seq<ProviderInstanceRecord>,
) -> Option<Refusal> {
    match (providers_wanted(items), current) {
        (Some(next), Some(before)) => blocked_refusal(
            provider_instances::keys_among(all, removed_providers(next, before)),
        ),
        _ => None,
    }
}

/// Checks a change of the settings against the instances that are stored.
pub fn validate_enabled_providers_change(
    items: &Vec<UpsertSystemConfig>,
    current: Option<&str>,
    all: &Vec<ProviderInstanceRecord>,
) -> (r: Result<(), AppError>)
    ensures
        error::refusal_of(r) == providers_refusal(items@, crate::db::opt_str(current), all@),
{
    match (find_providers_wanted(items), current) {
        (Some(next), Some(before)) => {
            let removed = find_removed_providers(next, before);
            check_blocked(&provider_instances::find_existing_provider_keys(all, &removed))
        },
        _ => Ok(()),
    }
}

/// The settings of a change that are written: a mask of a secret is not.
pub open spec fn written(items: Seq<UpsertSystemConfig>) -> Seq<UpsertSystemConfig> {
    items.filter(|item: UpsertSystemConfig| !is_mask(item.key@, item.value@))
}

pub fn filter_written(items: Vec<UpsertSystemConfig>) -> (r: Vec<UpsertSystemConfig>)
    ensures
        r@ == written(items@),
{
    let ghost all = items@;
    let ghost p = |item: UpsertSystemConfig| !is_mask(item.key@, item.value@);
    let mut rest = lists::reversed(items);
    let mut out: Vec<UpsertSystemConfig> = Vec::new();
    proof {
        reveal(Seq::filter);
        assert(out@ =~= all.take(0).filter(p));
    }
    while rest.len() > 0
        invariant
            rest@.len() <= all.len(),
            rest@ == all.skip(all.len() - rest@.len()).reverse(),
            p == (|item: UpsertSystemConfig| !is_mask(item.key@, item.value@)),
            out@ == all.take(all.len() - rest@.len()).filter(p),
        decreases rest@.len(),
    {
        let ghost n = all.len() - rest@.len();
        let ghost before = rest@;
        if let Some(item) = rest.pop() {
            proof {
                reveal(Seq::filter);
                assert(before.last() == all[n]);
                assert(all.take(n + 1).drop_last() =~= all.take(n));
                assert(all.take(n + 1).last() == item);
                assert(rest@ =~= all.skip(n + 1).reverse());
            }
            if !is_masked_sensitive_value(item.key.as_str(), item.value.as_str()) {
                out.push(item);
            }
        }
    }
    assert(all.take(all.len() as int) =~= all);
    out
}

/// Settings that are shown, when they come back unchanged, change no secret; unless the secret
/// has five, six or seven bytes, of which too few are masked for the mask to be known.
pub proof fn law_shown_secrets_are_not_written(
    items: Seq<UpsertSystemConfig>,
    i: int,
    secret: Seq<char>,
)
    requires
        0 <= i < items.len(),
        sensitive(items[i].key@),
        items[i].value@ == shown(items[i].key@, secret),
        !(5 <= vstd::utf8::encode_utf8(secret).len() <= 7),
    ensures
        !written(items).contains(items[i]),
{
    masking::law_masks_are_known(secret);
    let p = |item: UpsertSystemConfig| !is_mask(item.key@, item.value@);
    assert(!p(items[i]));
    if written(items).contains(items[i]) {
        let j = choose|j: int| 0 <= j < written(items).len() && written(items)[j] == items[i];
        items.lemma_filter_pred(p, j);
    }
}

/// What is written of a change that is let through may be changed, in the order in which it
/// came.
pub proof fn law_written_settings_are_allowed(items: Seq<UpsertSystemConfig>, j: int)
    requires
        change_failure(items) is None,
        0 <= j < written(items).len(),
    ensures
        allowed(written(items)[j].key@),
{
    let p = |item: UpsertSystemConfig| !is_mask(item.key@, item.value@);
    assert(written(items).contains(written(items)[j]));
    items.lemma_filter_contains_rev(p, written(items)[j]);
    let i = choose|i: int| 0 <= i < items.len() && items[i] == written(items)[j];
    lemma_all_allowed(items, i);
}

proof fn lemma_all_allowed(items: Seq<UpsertSystemConfig>, i: int)
    requires
        first_failure(items) is None,
        0 <= i < items.len(),
    ensures
        allowed(items[i].key@),
    decreases items.len(),
{
    if i > 0 {
        lemma_all_allowed(items.drop_first(), i - 1);
        assert(items.drop_first()[i - 1] == items[i]);
    }
}

proof fn lemma_among(all: Seq<ProviderInstanceRecord>, keys: Seq<Seq<char>>, i: int)
    requires
        0 <= i < all.len(),
        keys.contains(all[i].provider_key@),
    ensures
        provider_instances::keys_among(all, keys).len() > 0,
    decreases all.len(),
{
    if i < all.len() - 1 {
        lemma_among(all.drop_last(), keys, i);
    }
}

/// A provider that was on and has an instance is not switched off by a change that is
/// accepted.
pub proof fn law_providers_with_instances_stay_on(
    items: Seq<UpsertSystemConfig>,
    current: Seq<char>,
    all: Seq<ProviderInstanceRecord>,
    i: int,
)
    requires
        providers_refusal(items, Some(current), all) is None,
        0 <= i < all.len(),
        payment::csv_items(current).contains(all[i].provider_key@),
    ensures
        providers_wanted(items) matches Some(next) ==> payment::csv_items(next).contains(
            all[i].provider_key@,
        ),
{
    if let Some(next) = providers_wanted(items) {
        let key = all[i].provider_key@;
        let off = |p: Seq<char>| !payment::csv_items(next).contains(p);
        if off(key) {
            let before = payment::csv_items(current);
            let k = choose|k: int| 0 <= k < before.len() && before[k] == key;
            before.lemma_filter_contains(off, k);
            lemma_among(all, removed_providers(next, current), i);
        }
    }
}

/// A setting is a secret where its name speaks of a key, a secret, a password or something
/// private, in capitals or not; a secret is shown masked, and anything else as it is.
pub proof fn law_secrets_are_shown_masked(key: Seq<char>, value: Seq<char>, at: int)
    ensures
        ({
            let name = text::uppered(key);
            let speaks = |word: Seq<char>|
                exists|i: int|
                    0 <= i <= name.len() - word.len() && #[trigger] name.subrange(
                        i,
                        i + word.len(),
                    ) == word;
            sensitive(key) <==> speaks("KEY"@) || speaks("SECRET"@) || speaks("PASSWORD"@)
                || speaks("PRIVATE"@)
        }),
        sensitive(key) ==> shown(key, value) == masking::masked(value),
        !sensitive(key) ==> shown(key, value) == value,
        is_mask(key, value) <==> sensitive(key) && text::occurrences(value, '*') >= 4,
{
    let name = text::uppered(key);
    lemma_occurs("KEY"@, name);
    lemma_occurs("SECRET"@, name);
    lemma_occurs("PASSWORD"@, name);
    lemma_occurs("PRIVATE"@, name);
}

proof fn lemma_occurs(word: Seq<char>, name: Seq<char>)
    ensures
        text::occurs_in(word, name) <==> exists|i: int|
            0 <= i <= name.len() - word.len() && #[trigger] name.subrange(i, i + word.len())
                == word,
{
    if text::occurs_in(word, name) {
        let i = choose|i: int| text::occurs_at(word, name, i);
        assert(name.subrange(i, i + word.len()) == word);
    }
    assert forall|i: int|
        0 <= i <= name.len() - word.len() && #[trigger] name.subrange(i, i + word.len())
            == word implies text::occurs_in(word, name) by {
        assert(text::occurs_at(word, name, i));
    }
}

/// A change of settings is let through exactly where it names some, and only such as may be
/// changed; what is written of it is all but the masks of secrets.
pub proof fn law_changes_write_all_but_masks(items: Seq<UpsertSystemConfig>, i: int)
    requires
        0 <= i < items.len(),
    ensures
        change_failure(items) is None ==> text::trimmed(items[i].key@).len() > 0 && allowed(
            items[i].key@,
        ),
        !allowed(items[i].key@) ==> change_failure(items) is Some,
        written(items).contains(items[i]) <==> !(sensitive(items[i].key@) && text::occurrences(
            items[i].value@,
            '*',
        ) >= 4),
        change_failure(Seq::empty()) is Some,
{
    if change_failure(items) is None {
        lemma_no_failure(items, i);
    }
    let p = |item: UpsertSystemConfig| !is_mask(item.key@, item.value@);
    if p(items[i]) {
        items.lemma_filter_contains(p, i);
    } else if written(items).contains(items[i]) {
        let j = choose|j: int| 0 <= j < written(items).len() && written(items)[j] == items[i];
        items.lemma_filter_pred(p, j);
    }
}

proof fn lemma_no_failure(items: Seq<UpsertSystemConfig>, i: int)
    requires
        first_failure(items) is None,
        0 <= i < items.len(),
    ensures
        item_failure(items[i]) is None,
    decreases items.len(),
{
    if i > 0 {
        lemma_no_failure(items.drop_first(), i - 1);
        assert(items.drop_first()[i - 1] == items[i]);
    }
}

/// These settings may be changed, and no other.
pub proof fn law_only_these_settings_are_changed(key: &str, r: bool)
    requires
        call_ensures(is_allowed, (key,), r),
    ensures
        r <==> seq![
            "ENABLED_PAYMENT_TYPES"@,
            "RECHARGE_MIN_AMOUNT"@,
            "RECHARGE_MAX_AMOUNT"@,
            "DAILY_RECHARGE_LIMIT"@,
            "ORDER_TIMEOUT_MINUTES"@,
            "IFRAME_ALLOW_ORIGINS"@,
            "PRODUCT_NAME_PREFIX"@,
            "PRODUCT_NAME_SUFFIX"@,
            "BALANCE_PAYMENT_DISABLED"@,
            "CANCEL_RATE_LIMIT_ENABLED"@,
            "CANCEL_RATE_LIMIT_WINDOW"@,
            "CANCEL_RATE_LIMIT_UNIT"@,
            "CANCEL_RATE_LIMIT_MAX"@,
            "CANCEL_RATE_LIMIT_WINDOW_MODE"@,
            "MAX_PENDING_ORDERS"@,
            "LOAD_BALANCE_STRATEGY"@,
            "ENABLED_PROVIDERS"@,
            "SUB2API_ADMIN_API_KEY"@,
            "OVERRIDE_ENV_ENABLED"@,
            "DEFAULT_DEDUCT_BALANCE"@,
        ].contains(key@),
{
    let all = seq![
        "ENABLED_PAYMENT_TYPES"@,
        "RECHARGE_MIN_AMOUNT"@,
        "RECHARGE_MAX_AMOUNT"@,
        "DAILY_RECHARGE_LIMIT"@,
        "ORDER_TIMEOUT_MINUTES"@,
        "IFRAME_ALLOW_ORIGINS"@,
        "PRODUCT_NAME_PREFIX"@,
        "PRODUCT_NAME_SUFFIX"@,
        "BALANCE_PAYMENT_DISABLED"@,
        "CANCEL_RATE_LIMIT_ENABLED"@,
        "CANCEL_RATE_LIMIT_WINDOW"@,
        "CANCEL_RATE_LIMIT_UNIT"@,
        "CANCEL_RATE_LIMIT_MAX"@,
        "CANCEL_RATE_LIMIT_WINDOW_MODE"@,
        "MAX_PENDING_ORDERS"@,
        "LOAD_BALANCE_STRATEGY"@,
        "ENABLED_PROVIDERS"@,
        "SUB2API_ADMIN_API_KEY"@,
        "OVERRIDE_ENV_ENABLED"@,
        "DEFAULT_DEDUCT_BALANCE"@,
    ];
    assert(all[0] == "ENABLED_PAYMENT_TYPES"@ && all[1] == "RECHARGE_MIN_AMOUNT"@ && all[2]
        == "RECHARGE_MAX_AMOUNT"@ && all[3] == "DAILY_RECHARGE_LIMIT"@ && all[4]
        == "ORDER_TIMEOUT_MINUTES"@);
    assert(all[5] == "IFRAME_ALLOW_ORIGINS"@ && all[6] == "PRODUCT_NAME_PREFIX"@ && all[7]
        == "PRODUCT_NAME_SUFFIX"@ && all[8] == "BALANCE_PAYMENT_DISABLED"@ && all[9]
        == "CANCEL_RATE_LIMIT_ENABLED"@);
    assert(all[10] == "CANCEL_RATE_LIMIT_WINDOW"@ && all[11] == "CANCEL_RATE_LIMIT_UNIT"@
        && all[12] == "CANCEL_RATE_LIMIT_MAX"@ && all[13] == "CANCEL_RATE_LIMIT_WINDOW_MODE"@
        && all[14] == "MAX_PENDING_ORDERS"@);
    assert(all[15] == "LOAD_BALANCE_STRATEGY"@ && all[16] == "ENABLED_PROVIDERS"@ && all[17]
        == "SUB2API_ADMIN_API_KEY"@ && all[18] == "OVERRIDE_ENV_ENABLED"@ && all[19]
        == "DEFAULT_DEDUCT_BALANCE"@);
}

/// A change may switch a provider off exactly where no instance of it is stored: where the
/// settings name the providers and the change names them anew, every provider that was named
/// and is no longer must have no instance.
pub proof fn law_providers_with_instances_cannot_be_switched_off(
    items: Seq<UpsertSystemConfig>,
    current: Seq<char>,
    all: Seq<ProviderInstanceRecord>,
    at: int,
    i: int,
)
    requires
        0 <= at < items.len(),
        items[at].key@ == "ENABLED_PROVIDERS"@,
        forall|j: int| 0 <= j < at ==> (#[trigger] items[j]).key@ != "ENABLED_PROVIDERS"@,
        0 <= i < all.len(),
    ensures
        payment::csv_items(current).contains(all[i].provider_key@) && !payment::csv_items(
            items[at].value@,
        ).contains(all[i].provider_key@) ==> providers_refusal(items, Some(current), all) is Some,
        providers_refusal(items, None, all) is None,
{
    lemma_wanted(items, at);
    let next = items[at].value@;
    let key = all[i].provider_key@;
    let p = |p: Seq<char>| !payment::csv_items(next).contains(p);
    if payment::csv_items(current).contains(key) && !payment::csv_items(next).contains(key) {
        let before = payment::csv_items(current);
        let k = choose|k: int| 0 <= k < before.len() && before[k] == key;
        before.lemma_filter_contains(p, k);
        let removed = removed_providers(next, current);
        assert(removed.contains(key));
        provider_instances::law_keys_are_those_of_instances(all, removed, key);
        assert(provider_instances::keys_among(all, removed).contains(key));
    }
}

proof fn lemma_wanted(items: Seq<UpsertSystemConfig>, at: int)
    requires
        0 <= at < items.len(),
        items[at].key@ == "ENABLED_PROVIDERS"@,
        forall|j: int| 0 <= j < at ==> (#[trigger] items[j]).key@ != "ENABLED_PROVIDERS"@,
    ensures
        providers_wanted(items) == Some(items[at].value@),
    decreases items.len(),
{
    if at > 0 {
        assert(items[0].key@ != "ENABLED_PROVIDERS"@);
        let rest = items.drop_first();
        assert forall|j: int| 0 <= j < at - 1 implies (#[trigger] rest[j]).key@
            != "ENABLED_PROVIDERS"@ by {
            assert(items[j + 1].key@ != "ENABLED_PROVIDERS"@);
        }
        lemma_wanted(rest, at - 1);
    }
}

/// A setting is shown as it is, but that the value of a secret is masked.
pub proof fn law_settings_are_shown_as_they_are(c: SystemConfigEntry, r: SystemConfigEntry)
    requires
        call_ensures(mask_config, (c,), r),
    ensures
        r.key == c.key && r.group == c.group && r.label == c.label && r.updated_at == c.updated_at,
        sensitive(c.key@) ==> r.value@ == masking::masked(c.value@),
        !sensitive(c.key@) ==> r.value@ == c.value@,
{
}

}
