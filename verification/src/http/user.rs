//! What a user is told of themselves and of the shop.
use vstd::prelude::*;

use crate::admin_auth;
use crate::config::{Amounts, AppConfig};
use crate::db;
use crate::error;
use crate::error::{AppError, ErrorKind, Refusal};
use crate::http::common;
use crate::http::common::said;
use crate::http::gate;
use crate::http::gate::Service;
use crate::order::create;
use crate::payment::MethodLimit;
use crate::sub2api::{Float64, Sub2ApiUser};
use crate::text;

verus! {

pub open spec fn user_id_refusal(user_id: i64, locale: Seq<char>) -> Option<Refusal> {
    if user_id <= 0 {
        Some((ErrorKind::BadRequest, said(locale, "无效的用户 ID"@, "Invalid user ID"@)))
    } else {
        None
    }
}

/// Checks that a user's number can be one.
pub fn check_user_id(user_id: i64, locale: &str) -> (r: Result<(), AppError>)
    ensures
        error::refusal_of(r) == user_id_refusal(user_id, locale@),
{
    if user_id <= 0 {
        Err(AppError::bad_request(common::message(locale, "无效的用户 ID", "Invalid user ID")))
    } else {
        Ok(())
    }
}

/// A user is told of nobody but themselves.
pub open spec fn other_user_refusal(token_user_id: i64, user_id: i64, locale: Seq<char>) -> Option<
    Refusal,
> {
    if token_user_id != user_id {
        Some(
            (
                ErrorKind::Forbidden,
                said(locale, "无权访问该用户信息"@, "Forbidden to access this user"@),
            ),
        )
    } else {
        None
    }
}

pub fn check_same_user(token_user_id: i64, user_id: i64, locale: &str) -> (r: Result<(), AppError>)
    ensures
        error::refusal_of(r) == other_user_refusal(token_user_id, user_id, locale@),
{
    if token_user_id != user_id {
        Err(
            AppError::forbidden(
                common::message(locale, "无权访问该用户信息", "Forbidden to access this user"),
            ),
        )
    } else {
        Ok(())
    }
}

/// The settings of the shop that a user is told, but for its amounts.
#[derive(Debug, Clone, Copy, PartialEq, Eq, Structural)]
pub struct ShopRules {
    pub balance_disabled: bool,
    pub max_pending_orders: i64,
}

/// Reads the settings: recharges are on unless switched off, and three orders may await
/// payment unless another number is set.
pub fn read_shop_rules(balance_payment_disabled: Option<&str>, max_pending_orders: Option<&str>) -> (r:
    ShopRules)
    ensures
        r.balance_disabled == (db::opt_str(balance_payment_disabled) == Some("true"@)),
        r.max_pending_orders == create::setting_number(db::opt_str(max_pending_orders), 3),
{
    let balance_disabled = match balance_payment_disabled {
        Some(v) => text::same(v, "true"),
        None => false,
    };
    let max_pending_orders: i64 = match max_pending_orders {
        Some(v) => match text::parse_i64(v) {
            Some(n) => n,
            None => 3,
        },
        None => 3,
    };
    ShopRules { balance_disabled, max_pending_orders }
}

/// What a user is told of pending orders is what placing an order goes by.
pub proof fn law_told_limits_are_those_in_force(value: Option<Seq<char>>)
    ensures
        create::setting_number(value, 3) == create::setting_number(
            value,
            create::DEFAULT_MAX_PENDING_ORDERS as int,
        ),
{
}

// ---------------------------------------------------------------------------
// What is told, and in which order it is found out
// ---------------------------------------------------------------------------
/// A request of a user to be told of themselves and of the shop.
#[derive(Debug)]
pub struct UserQuery {
    pub user_id: i64,
    pub token: Option<String>,
    pub lang: Option<String>,
}

/// The settings that the shop is told by. The amounts are given as the numbers that they
/// hold, where they hold any.
#[derive(Debug)]
pub struct ShopSettings {
    pub balance_payment_disabled: Option<String>,
    pub max_pending_orders: Option<String>,
    pub amounts: Amounts,
}

/// Under which keys the settings of the shop stand.
#[derive(Debug)]
pub struct ShopKeys {
    pub balance_payment_disabled: &'static str,
    pub max_pending_orders: &'static str,
    pub min: &'static str,
    pub max: &'static str,
    pub max_daily: &'static str,
}

pub open spec fn are_shop_keys(keys: ShopKeys) -> bool {
    &&& keys.balance_payment_disabled@ == "BALANCE_PAYMENT_DISABLED"@
    &&& keys.max_pending_orders@ == "MAX_PENDING_ORDERS"@
    &&& keys.min@ == "RECHARGE_MIN_AMOUNT"@
    &&& keys.max@ == "RECHARGE_MAX_AMOUNT"@
    &&& keys.max_daily@ == "DAILY_RECHARGE_LIMIT"@
}

fn shop_keys() -> (r: ShopKeys)
    ensures
        are_shop_keys(r),
{
    ShopKeys {
        balance_payment_disabled: "BALANCE_PAYMENT_DISABLED",
        max_pending_orders: "MAX_PENDING_ORDERS",
        min: "RECHARGE_MIN_AMOUNT",
        max: "RECHARGE_MAX_AMOUNT",
        max_daily: "DAILY_RECHARGE_LIMIT",
    }
}

/// A payment type on offer, within its limits and at its rate.
#[derive(Debug)]
pub struct OfferedMethod {
    pub payment_type: String,
    pub limit: MethodLimit,
    pub fee_rate: Float64,
}

/// How the shop can be paid.
#[derive(Debug)]
pub struct PaymentOffer {
    pub enabled_payment_types: Vec<String>,
    pub methods: Vec<OfferedMethod>,
    pub stripe_publishable_key: Option<String>,
}

/// What the user is told.
#[derive(Debug)]
pub struct UserResponse {
    pub id: i64,
    pub status: String,
    pub offer: PaymentOffer,
    pub min_amount: Float64,
    pub max_amount: Float64,
    pub max_daily_amount: Float64,
    pub help_image_url: Option<String>,
    pub help_text: Option<String>,
    pub balance_disabled: bool,
    pub max_pending_orders: i64,
}

/// What is to be done next.
#[derive(Debug)]
pub enum UserAction {
    /// Ask the platform whose token it is.
    GetCurrentUser { token: String },
    /// Read the settings of the shop.
    ReadShopSettings { keys: ShopKeys },
    /// Work out how the shop can be paid.
    ResolvePaymentConfig,
}

/// What came of it.
#[derive(Debug)]
pub enum UserReply {
    Error { message: String },
    User { user: Sub2ApiUser },
    Settings { settings: ShopSettings },
    Offer { offer: PaymentOffer },
}

/// How far the work has come.
#[derive(Debug)]
pub enum UserInfo {
    Identifying { user_id: i64, locale: &'static str },
    ReadingSettings { user: Sub2ApiUser },
    Configuring { user: Sub2ApiUser, settings: ShopSettings },
}

#[derive(Debug)]
pub enum UserStep {
    Act { action: UserAction, next: UserInfo },
    Done { result: Result<UserResponse, AppError> },
}

pub open spec fn refuses(out: UserStep, refusal: Refusal) -> bool {
    out matches UserStep::Done { result: Err(e) } && e@ == refusal
}

fn refuse(e: AppError) -> (r: UserStep)
    ensures
        refuses(r, e@),
{
    UserStep::Done { result: Err(e) }
}

/// Why a request is refused before the platform is asked, if it is: the user's number is
/// looked at first, then the token, then whether there is a platform.
pub open spec fn query_refusal(query: UserQuery, locale: Seq<char>, platform: bool) -> Option<
    Refusal,
> {
    match user_id_refusal(query.user_id, locale) {
        Some(refusal) => Some(refusal),
        None => gate::door_refusal(
            Service::UserInfo,
            db::opt_text(query.token),
            locale,
            platform,
        ),
    }
}

/// Begins to tell a user.
pub fn begin_user_info(query: &UserQuery, platform: bool) -> (r: UserStep)
    ensures
        match query_refusal(*query, common::locale(db::opt_text(query.lang)), platform) {
            Some(refusal) => refuses(r, refusal),
            None => {
                &&& r matches UserStep::Act { action, next }
                &&& action matches UserAction::GetCurrentUser { token }
                &&& admin_auth::filled_trimmed(db::opt_text(query.token)) == Some(token@)
                &&& next matches UserInfo::Identifying { user_id, locale }
                &&& user_id == query.user_id
                &&& locale@ == common::locale(db::opt_text(query.lang))
            },
        },
{
    let locale = common::resolve_locale(db::as_deref(&query.lang));
    if let Err(e) = check_user_id(query.user_id, locale) {
        return refuse(e);
    }
    match gate::require_user_token(Service::UserInfo, db::as_deref(&query.token), locale) {
        Err(e) => refuse(e),
        Ok(token) => if !platform {
            refuse(gate::platform_missing_error(Service::UserInfo, locale))
        } else {
            UserStep::Act {
                action: UserAction::GetCurrentUser { token: token.to_owned() },
                next: UserInfo::Identifying { user_id: query.user_id, locale },
            }
        },
    }
}

/// The amount of a setting, else of the configuration.
pub open spec fn set_or(setting: Option<Float64>, configured: Float64) -> Float64 {
    match setting {
        Some(x) => x,
        None => configured,
    }
}

fn pick_amount(setting: Option<Float64>, configured: Float64) -> (r: Float64)
    ensures
        r == set_or(setting, configured),
{
    match setting {
        Some(x) => x,
        None => configured,
    }
}

/// The user is told who they are, how the shop can be paid, and by which rules.
pub open spec fn told(
    r: UserResponse,
    user: Sub2ApiUser,
    settings: ShopSettings,
    offer: PaymentOffer,
    config: AppConfig,
) -> bool {
    &&& r.id == user.id
    &&& r.status@ == user.status@
    &&& r.offer == offer
    &&& r.min_amount == set_or(settings.amounts.min, config.min_recharge_amount)
    &&& r.max_amount == set_or(settings.amounts.max, config.max_recharge_amount)
    &&& r.max_daily_amount == set_or(settings.amounts.max_daily, config.max_daily_recharge_amount)
    &&& db::opt_text(r.help_image_url) == db::opt_text(config.pay_help_image_url)
    &&& db::opt_text(r.help_text) == db::opt_text(config.pay_help_text)
    &&& r.balance_disabled == (db::opt_text(settings.balance_payment_disabled) == Some("true"@))
    &&& r.max_pending_orders == create::setting_number(db::opt_text(settings.max_pending_orders), 3)
}

/// What one step does.
pub open spec fn user_next(
    state: UserInfo,
    reply: UserReply,
    config: AppConfig,
    out: UserStep,
) -> bool {
    match state {
        UserInfo::Identifying { user_id, locale } => match reply {
            UserReply::Error { message } => refuses(
                out,
                gate::user_unknown(Service::UserInfo, locale@, message@),
            ),
            UserReply::User { user } => match other_user_refusal(user.id, user_id, locale@) {
                Some(refusal) => refuses(out, refusal),
                None => {
                    &&& out matches UserStep::Act { action, next }
                    &&& action matches UserAction::ReadShopSettings { keys }
                    &&& are_shop_keys(keys)
                    &&& next == (UserInfo::ReadingSettings { user })
                },
            },
            _ => refuses(out, gate::unexpected()),
        },
        UserInfo::ReadingSettings { user } => match reply {
            UserReply::Error { message } => refuses(out, (ErrorKind::Internal, message@)),
            UserReply::Settings { settings } => {
                &&& out matches UserStep::Act { action, next }
                &&& action is ResolvePaymentConfig
                &&& next == (UserInfo::Configuring { user, settings })
            },
            _ => refuses(out, gate::unexpected()),
        },
        UserInfo::Configuring { user, settings } => match reply {
            UserReply::Error { message } => refuses(out, (ErrorKind::Internal, message@)),
            UserReply::Offer { offer } => {
                &&& out matches UserStep::Done { result: Ok(r) }
                &&& told(r, user, settings, offer, config)
            },
            _ => refuses(out, gate::unexpected()),
        },
    }
}

fn unexpected_reply() -> (r: UserStep)
    ensures
        refuses(r, gate::unexpected()),
{
    refuse(AppError::internal("unexpected reply"))
}

/// Goes one step on from a reply.
pub fn get_user_step(state: UserInfo, reply: UserReply, config: &AppConfig) -> (r: UserStep)
    ensures
        user_next(state, reply, *config, r),
{
    match state {
        UserInfo::Identifying { user_id, locale } => match reply {
            UserReply::Error { message } => refuse(
                gate::user_unknown_error(Service::UserInfo, locale, message.as_str()),
            ),
            UserReply::User { user } => match check_same_user(user.id, user_id, locale) {
                Err(e) => refuse(e),
                Ok(()) => UserStep::Act {
                    action: UserAction::ReadShopSettings { keys: shop_keys() },
                    next: UserInfo::ReadingSettings { user },
                },
            },
            _ => unexpected_reply(),
        },
        UserInfo::ReadingSettings { user } => match reply {
            UserReply::Error { message } => refuse(AppError::internal(message.as_str())),
            UserReply::Settings { settings } => UserStep::Act {
                action: UserAction::ResolvePaymentConfig,
                next: UserInfo::Configuring { user, settings },
            },
            _ => unexpected_reply(),
        },
        UserInfo::Configuring { user, settings } => match reply {
            UserReply::Error { message } => refuse(AppError::internal(message.as_str())),
            UserReply::Offer { offer } => {
                let rules = read_shop_rules(
                    db::as_deref(&settings.balance_payment_disabled),
                    db::as_deref(&settings.max_pending_orders),
                );
                let amounts = settings.amounts;
                UserStep::Done {
                    result: Ok(
                        UserResponse {
                            id: user.id,
                            status: user.status,
                            offer,
                            min_amount: pick_amount(amounts.min, config.min_recharge_amount),
                            max_amount: pick_amount(amounts.max, config.max_recharge_amount),
                            max_daily_amount: pick_amount(
                                amounts.max_daily,
                                config.max_daily_recharge_amount,
                            ),
                            help_image_url: db::copy_opt(&config.pay_help_image_url),
                            help_text: db::copy_opt(&config.pay_help_text),
                            balance_disabled: rules.balance_disabled,
                            max_pending_orders: rules.max_pending_orders,
                        },
                    ),
                }
            },
            _ => unexpected_reply(),
        },
    }
}

/// Whoever is told anything is told of the user whom they asked about, who is the one whom
/// the platform named for their token.
pub proof fn law_users_are_told_only_of_themselves(
    user_id: i64,
    locale: &'static str,
    replies: (UserReply, UserReply, UserReply),
    steps: (UserStep, UserStep, UserStep),
    config: AppConfig,
    response: UserResponse,
)
    requires
        user_next(UserInfo::Identifying { user_id, locale }, replies.0, config, steps.0),
        steps.0 matches UserStep::Act { next, .. } ==> user_next(
            next,
            replies.1,
            config,
            steps.1,
        ),
        steps.0 is Done ==> steps.1 == steps.0,
        steps.1 matches UserStep::Act { next, .. } ==> user_next(
            next,
            replies.2,
            config,
            steps.2,
        ),
        steps.1 is Done ==> steps.2 == steps.1,
        steps.2 == (UserStep::Done { result: Ok(response) }),
    ensures
        response.id == user_id,
        replies.0 matches UserReply::User { user } && user.id == user_id,
{
}

/// A user is told of by steps.
pub proof fn law_users_are_told_by_steps(
    state: UserInfo,
    reply: UserReply,
    config: AppConfig,
    out: UserStep,
)
    requires
        call_ensures(get_user_step, (state, reply, &config), out),
    ensures
        user_next(state, reply, config, out),
{
}

/// A user is told what they may pay: the bounds that are set, or else those configured, that
/// recharges are off only where they are set off, and how many orders may stand open, three
/// unless set otherwise.
pub proof fn law_users_are_told_the_rules(
    user: Sub2ApiUser,
    settings: ShopSettings,
    offer: PaymentOffer,
    config: AppConfig,
    out: UserStep,
)
    requires
        call_ensures(
            get_user_step,
            (UserInfo::Configuring { user, settings }, UserReply::Offer { offer }, &config),
            out,
        ),
    ensures
        out matches UserStep::Done { result: Ok(r) } && {
            &&& r.id == user.id && r.status@ == user.status@ && r.offer == offer
            &&& settings.amounts.min matches Some(x) ==> r.min_amount == x
            &&& settings.amounts.min is None ==> r.min_amount == config.min_recharge_amount
            &&& settings.amounts.max matches Some(x) ==> r.max_amount == x
            &&& settings.amounts.max is None ==> r.max_amount == config.max_recharge_amount
            &&& settings.amounts.max_daily matches Some(x) ==> r.max_daily_amount == x
            &&& settings.amounts.max_daily is None ==> r.max_daily_amount
                == config.max_daily_recharge_amount
            &&& r.balance_disabled <==> (settings.balance_payment_disabled matches Some(s) && s@
                == "true"@)
            &&& settings.max_pending_orders is None ==> r.max_pending_orders == 3
            &&& settings.max_pending_orders matches Some(s) ==> (match text::i64_in(s@) {
                Some(n) => r.max_pending_orders == n,
                None => r.max_pending_orders == 3,
            })
        },
{
}

/// The rules are read from the settings of their names.
pub proof fn law_rules_are_read_by_name(
    user: Sub2ApiUser,
    locale: &'static str,
    config: AppConfig,
    out: UserStep,
)
    requires
        call_ensures(
            get_user_step,
            (
                UserInfo::Identifying { user_id: user.id, locale },
                UserReply::User { user },
                &config,
            ),
            out,
        ),
    ensures
        out matches UserStep::Act { action: UserAction::ReadShopSettings { keys }, .. }
            && keys.balance_payment_disabled@ == "BALANCE_PAYMENT_DISABLED"@
            && keys.max_pending_orders@ == "MAX_PENDING_ORDERS"@ && keys.min@
            == "RECHARGE_MIN_AMOUNT"@ && keys.max@ == "RECHARGE_MAX_AMOUNT"@ && keys.max_daily@
            == "DAILY_RECHARGE_LIMIT"@,
{
}

/// A user is told of exactly where they have a number above zero and the token is their own.
pub proof fn law_only_own_tokens_are_answered(
    token_user_id: i64,
    user_id: i64,
    locale: &str,
    numbered: Result<(), AppError>,
    own: Result<(), AppError>,
)
    requires
        call_ensures(check_user_id, (user_id, locale), numbered),
        call_ensures(check_same_user, (token_user_id, user_id, locale), own),
    ensures
        numbered is Ok <==> user_id > 0,
        numbered matches Err(e) ==> e.kind is BadRequest,
        own is Ok <==> token_user_id == user_id,
        own matches Err(e) ==> e.kind is Forbidden,
{
}

}
