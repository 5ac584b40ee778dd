//! Who is let in to what users ask for, and what the others are told.
use vstd::prelude::*;

use crate::admin_auth;
use crate::db;
use crate::error::{AppError, ErrorKind, Refusal};
use crate::http::common;
use crate::http::common::said;
use crate::sub2api::Sub2ApiUser;

verus! {

/// What a user asks for.
#[derive(Debug, Clone, Copy, PartialEq, Eq, Structural)]
pub enum Service {
    MyOrders,
    CancelOrder,
    RefundRequest,
    UserInfo,
    Channels,
    SubscriptionPlans,
    MySubscriptions,
}

/// What is said to a request without a token.
pub open spec fn token_missing(service: Service, locale: Seq<char>) -> Refusal {
    match service {
        Service::MyOrders => (
            ErrorKind::BadRequest,
            said(locale, "缺少 token 参数"@, "token is required"@),
        ),
        Service::CancelOrder => (ErrorKind::BadRequest, "缺少 token 参数"@),
        Service::RefundRequest => (
            ErrorKind::Unauthorized,
            said(locale, "缺少 token 参数"@, "Missing token parameter"@),
        ),
        Service::UserInfo => (
            ErrorKind::Unauthorized,
            said(locale, "缺少 token 参数"@, "Missing token parameter"@),
        ),
        Service::Channels => (
            ErrorKind::Unauthorized,
            said(locale, "缺少 token"@, "Missing token"@),
        ),
        Service::SubscriptionPlans => (
            ErrorKind::Unauthorized,
            said(locale, "缺少 token"@, "Missing token"@),
        ),
        Service::MySubscriptions => (
            ErrorKind::Unauthorized,
            said(locale, "缺少 token"@, "Missing token"@),
        ),
    }
}

/// The token of the user that a request must carry.
pub fn require_user_token<'a>(service: Service, token: Option<&'a str>, locale: &str) -> (r: Result<
    &'a str,
    AppError,
>)
    ensures
        match admin_auth::filled_trimmed(db::opt_str(token)) {
            Some(t) => r matches Ok(s) && s@ == t,
            None => r matches Err(e) && e@ == token_missing(service, locale@),
        },
{
    match service {
        Service::MyOrders => common::require_token(
            token,
            ErrorKind::BadRequest,
            common::message(locale, "缺少 token 参数", "token is required"),
        ),
        Service::CancelOrder => common::require_token(
            token,
            ErrorKind::BadRequest,
            "缺少 token 参数",
        ),
        Service::RefundRequest => common::require_token(
            token,
            ErrorKind::Unauthorized,
            common::message(locale, "缺少 token 参数", "Missing token parameter"),
        ),
        Service::UserInfo => common::require_token(
            token,
            ErrorKind::Unauthorized,
            common::message(locale, "缺少 token 参数", "Missing token parameter"),
        ),
        Service::Channels => common::require_token(
            token,
            ErrorKind::Unauthorized,
            common::message(locale, "缺少 token", "Missing token"),
        ),
        Service::SubscriptionPlans => common::require_token(
            token,
            ErrorKind::Unauthorized,
            common::message(locale, "缺少 token", "Missing token"),
        ),
        Service::MySubscriptions => common::require_token(
            token,
            ErrorKind::Unauthorized,
            common::message(locale, "缺少 token", "Missing token"),
        ),
    }
}

/// What is said where there is no platform to ask, or it cannot be asked.
pub open spec fn platform_missing(service: Service, locale: Seq<char>) -> Refusal {
    match service {
        Service::MyOrders => (
            ErrorKind::PublicInternal,
            said(locale, "获取订单失败"@, "Failed to load orders"@),
        ),
        Service::CancelOrder => (ErrorKind::PublicInternal, "取消订单失败"@),
        Service::RefundRequest => (
            ErrorKind::PublicInternal,
            said(locale, "退款申请失败"@, "Refund request failed"@),
        ),
        Service::UserInfo => (ErrorKind::Internal, "SUB2API_BASE_URL is not configured"@),
        Service::Channels => (
            ErrorKind::PublicInternal,
            said(locale, "获取渠道列表失败"@, "Failed to list channels"@),
        ),
        Service::SubscriptionPlans => (
            ErrorKind::PublicInternal,
            said(locale, "获取订阅套餐失败"@, "Failed to list subscription plans"@),
        ),
        Service::MySubscriptions => (
            ErrorKind::PublicInternal,
            said(locale, "获取订阅信息失败"@, "Failed to get subscriptions"@),
        ),
    }
}

pub fn platform_missing_error(service: Service, locale: &str) -> (r: AppError)
    ensures
        r@ == platform_missing(service, locale@),
{
    match service {
        Service::MyOrders => AppError::new(
            ErrorKind::PublicInternal,
            common::message(locale, "获取订单失败", "Failed to load orders"),
        ),
        Service::CancelOrder => AppError::new(
            ErrorKind::PublicInternal,
            "取消订单失败",
        ),
        Service::RefundRequest => AppError::new(
            ErrorKind::PublicInternal,
            common::message(locale, "退款申请失败", "Refund request failed"),
        ),
        Service::UserInfo => AppError::new(
            ErrorKind::Internal,
            "SUB2API_BASE_URL is not configured",
        ),
        Service::Channels => AppError::new(
            ErrorKind::PublicInternal,
            common::message(locale, "获取渠道列表失败", "Failed to list channels"),
        ),
        Service::SubscriptionPlans => AppError::new(
            ErrorKind::PublicInternal,
            common::message(locale, "获取订阅套餐失败", "Failed to list subscription plans"),
        ),
        Service::MySubscriptions => AppError::new(
            ErrorKind::PublicInternal,
            common::message(locale, "获取订阅信息失败", "Failed to get subscriptions"),
        ),
    }
}

/// What is said to a user whose token the platform refused.
pub open spec fn token_invalid(service: Service, locale: Seq<char>) -> Seq<char> {
    match service {
        Service::MyOrders => said(locale, "未授权"@, "unauthorized"@),
        Service::CancelOrder => "登录态已失效，无法取消订单"@,
        Service::RefundRequest => said(locale, "无效的 token"@, "Invalid token"@),
        Service::UserInfo => said(locale, "无效的 token"@, "Invalid token"@),
        Service::Channels => said(locale, "无效的 token"@, "Invalid token"@),
        Service::SubscriptionPlans => said(locale, "无效的 token"@, "Invalid token"@),
        Service::MySubscriptions => said(locale, "无效的 token"@, "Invalid token"@),
    }
}

fn token_invalid_text(service: Service, locale: &str) -> (r: &'static str)
    ensures
        r@ == token_invalid(service, locale@),
{
    match service {
        Service::MyOrders => common::message(locale, "未授权", "unauthorized"),
        Service::CancelOrder => "登录态已失效，无法取消订单",
        Service::RefundRequest => common::message(locale, "无效的 token", "Invalid token"),
        Service::UserInfo => common::message(locale, "无效的 token", "Invalid token"),
        Service::Channels => common::message(locale, "无效的 token", "Invalid token"),
        Service::SubscriptionPlans => common::message(locale, "无效的 token", "Invalid token"),
        Service::MySubscriptions => common::message(locale, "无效的 token", "Invalid token"),
    }
}

/// What is said to a user whom the platform did not name.
pub open spec fn user_unknown(service: Service, locale: Seq<char>, error: Seq<char>) -> Refusal {
    common::unknown_user(
        error,
        token_invalid(service, locale),
        if service is UserInfo {
            (ErrorKind::Internal, error)
        } else {
            platform_missing(service, locale)
        },
    )
}

pub fn user_unknown_error(service: Service, locale: &str, error: &str) -> (r: AppError)
    ensures
        r@ == user_unknown(service, locale@, error@),
{
    let other = match service {
        Service::UserInfo => AppError::internal(error),
        _ => platform_missing_error(service, locale),
    };
    common::map_user_error(error, token_invalid_text(service, locale), other)
}

/// A request without a token is never let in, nor one whose token is blank.
pub proof fn law_blank_tokens_are_refused(service: Service, token: Option<Seq<char>>, locale: Seq<char>)
    requires
        token is None || crate::text::trimmed(token->0).len() == 0,
    ensures
        admin_auth::filled_trimmed(token) is None,
        token_missing(service, locale).0 == ErrorKind::BadRequest || token_missing(
            service,
            locale,
        ).0 == ErrorKind::Unauthorized,
{
}

// ---------------------------------------------------------------------------
// The order of the checks
// ---------------------------------------------------------------------------
/// What is to be done next to let a user in.
#[derive(Debug)]
pub enum EntryAction {
    /// Ask the platform whose token it is.
    GetCurrentUser { token: String },
    /// Read a setting.
    ReadSetting { key: &'static str },
}

/// What came of it.
#[derive(Debug)]
pub enum EntryReply {
    Error { message: String },
    User { user: Sub2ApiUser },
    Setting { value: Option<String> },
}

/// How far the checks have come.
#[derive(Debug)]
pub enum Entry {
    Identifying { service: Service, locale: &'static str },
    FindingKey { service: Service, user: Sub2ApiUser },
}

/// A user who was let in, with the platform's key where the service needs it.
#[derive(Debug)]
pub struct Admitted {
    pub user: Sub2ApiUser,
    pub admin_key: Option<String>,
}

#[derive(Debug)]
pub enum EntryStep {
    Act { action: EntryAction, next: Entry },
    Done { result: Result<Admitted, AppError> },
}

pub open spec fn turns_away(out: EntryStep, refusal: Refusal) -> bool {
    out matches EntryStep::Done { result: Err(e) } && e@ == refusal
}

fn turn_away(e: AppError) -> (r: EntryStep)
    ensures
        turns_away(r, e@),
{
    EntryStep::Done { result: Err(e) }
}

/// What is listed for users is looked up under the platform's key.
pub open spec fn needs_key(service: Service) -> bool {
    service is Channels || service is SubscriptionPlans || service is MySubscriptions
}

/// Why a request is turned away before the platform is asked, if it is: the token is looked
/// at before the platform.
pub open spec fn door_refusal(
    service: Service,
    token: Option<Seq<char>>,
    locale: Seq<char>,
    platform: bool,
) -> Option<Refusal> {
    if admin_auth::filled_trimmed(token) is None {
        Some(token_missing(service, locale))
    } else if !platform {
        Some(platform_missing(service, locale))
    } else {
        None
    }
}

/// The platform is asked whose the token is.
pub open spec fn asks_for_user(
    out: EntryStep,
    service: Service,
    token: Seq<char>,
    locale: Seq<char>,
) -> bool {
    &&& out matches EntryStep::Act { action, next }
    &&& action matches EntryAction::GetCurrentUser { token: t }
    &&& t@ == token
    &&& next matches Entry::Identifying { service: s, locale: l }
    &&& s == service
    &&& l@ == locale
}

/// Begins to let a user in.
pub fn begin_entry(
    service: Service,
    token: Option<&str>,
    locale: &'static str,
    platform: bool,
) -> (r: EntryStep)
    ensures
        match door_refusal(service, db::opt_str(token), locale@, platform) {
            Some(refusal) => turns_away(r, refusal),
            None => asks_for_user(
                r,
                service,
                admin_auth::filled_trimmed(db::opt_str(token))->0,
                locale@,
            ),
        },
{
    match require_user_token(service, token, locale) {
        Err(e) => turn_away(e),
        Ok(t) => if !platform {
            turn_away(platform_missing_error(service, locale))
        } else {
            EntryStep::Act {
                action: EntryAction::GetCurrentUser { token: t.to_owned() },
                next: Entry::Identifying { service, locale },
            }
        },
    }
}

/// A reply that answers something else.
pub open spec fn unexpected() -> Refusal {
    (ErrorKind::Internal, "unexpected reply"@)
}

/// What one step does: the user is looked at before the platform's key.
pub open spec fn entry_next(state: Entry, reply: EntryReply, out: EntryStep) -> bool {
    match state {
        Entry::Identifying { service, locale } => match reply {
            EntryReply::Error { message } => turns_away(
                out,
                user_unknown(service, locale@, message@),
            ),
            EntryReply::User { user } => if needs_key(service) {
                &&& out matches EntryStep::Act { action, next }
                &&& action matches EntryAction::ReadSetting { key }
                &&& key@ == "SUB2API_ADMIN_API_KEY"@
                &&& next == (Entry::FindingKey { service, user })
            } else {
                out == (EntryStep::Done { result: Ok(Admitted { user, admin_key: None }) })
            },
            _ => turns_away(out, unexpected()),
        },
        Entry::FindingKey { service, user } => match reply {
            EntryReply::Error { message } => turns_away(out, (ErrorKind::Internal, message@)),
            EntryReply::Setting { value } => match admin_auth::filled_trimmed(
                db::opt_text(value),
            ) {
                None => turns_away(out, platform_missing(service, "en"@)),
                Some(key) => {
                    &&& out matches EntryStep::Done { result: Ok(a) }
                    &&& a.user == user
                    &&& db::opt_text(a.admin_key) == Some(key)
                },
            },
            _ => turns_away(out, unexpected()),
        },
    }
}

/// Goes one step on from a reply.
pub fn entry_step(state: Entry, reply: EntryReply) -> (r: EntryStep)
    ensures
        entry_next(state, reply, r),
{
    match state {
        Entry::Identifying { service, locale } => match reply {
            EntryReply::Error { message } => turn_away(
                user_unknown_error(service, locale, message.as_str()),
            ),
            EntryReply::User { user } => match service {
                Service::Channels | Service::SubscriptionPlans | Service::MySubscriptions =>
                EntryStep::Act {
                    action: EntryAction::ReadSetting { key: "SUB2API_ADMIN_API_KEY" },
                    next: Entry::FindingKey { service, user },
                },
                _ => EntryStep::Done { result: Ok(Admitted { user, admin_key: None }) },
            },
            _ => turn_away(AppError::internal("unexpected reply")),
        },
        Entry::FindingKey { service, user } => match reply {
            EntryReply::Error { message } => turn_away(AppError::internal(message.as_str())),
            EntryReply::Setting { value } => match common::require_admin_key(
                db::as_deref(&value),
                platform_missing_error(service, "en"),
            ) {
                Err(e) => turn_away(e),
                Ok(key) => EntryStep::Done { result: Ok(Admitted { user, admin_key: Some(key) }) },
            },
            _ => turn_away(AppError::internal("unexpected reply")),
        },
    }
}

/// Nobody is let in but whom the platform named when it was asked about the token, and to
/// what is listed only with a key of the platform.
pub proof fn law_only_named_users_are_let_in(
    service: Service,
    locale: &'static str,
    first: EntryReply,
    second: EntryReply,
    between: EntryStep,
    out: EntryStep,
    admitted: Admitted,
)
    requires
        entry_next(Entry::Identifying { service, locale }, first, between),
        between matches EntryStep::Act { next, .. } ==> entry_next(next, second, out),
        between is Done ==> out == between,
        out == (EntryStep::Done { result: Ok(admitted) }),
    ensures
        first == (EntryReply::User { user: admitted.user }),
        needs_key(service) <==> admitted.admin_key is Some,
        admitted.admin_key matches Some(key) ==> key@.len() > 0,
{
    if between is Act {
        let value = second->value;
        match value {
            Some(v) => {
                crate::text::lemma_trimmed(v@);
            },
            None => {},
        }
    }
}

/// A visitor is let past the door exactly where they show a token and there is a platform to
/// ask; the platform is then asked whose that token is.
pub proof fn law_tokens_are_shown_at_the_door(
    service: Service,
    token: Option<Seq<char>>,
    locale: Seq<char>,
    platform: bool,
)
    ensures
        door_refusal(service, token, locale, platform) is None <==> token is Some
            && crate::text::trimmed(token->0).len() > 0 && platform,
{
}

/// The platform's own key is looked up exactly for what is asked of it in the visitor's stead,
/// and the visitor goes on as the user whom the platform named.
pub proof fn law_visitors_go_on_as_themselves(
    service: Service,
    locale: &'static str,
    user: Sub2ApiUser,
    out: EntryStep,
)
    requires
        entry_next(Entry::Identifying { service, locale }, EntryReply::User { user }, out),
    ensures
        service is Channels || service is SubscriptionPlans || service is MySubscriptions <==> out
            is Act,
        out is Done ==> (out->result matches Ok(a) && a.user == user && a.admin_key is None),
        out is Act ==> (out->action matches EntryAction::ReadSetting { key } && key@
            == "SUB2API_ADMIN_API_KEY"@),
        out is Act ==> (out->next matches Entry::FindingKey { user: u, .. } && u == user),
{
}

/// A visitor is let in by steps.
pub proof fn law_visitors_enter_by_steps(state: Entry, reply: EntryReply, out: EntryStep)
    requires
        call_ensures(entry_step, (state, reply), out),
    ensures
        entry_next(state, reply, out),
{
}

/// A visitor whom the platform does not know by their token is told so, and a fault of the
/// platform is no fault of theirs.
pub proof fn law_unknown_visitors_are_told_apart(
    service: Service,
    locale: Seq<char>,
    error: Seq<char>,
)
    ensures
        "Failed to get current user:"@.is_prefix_of(error) <==> user_unknown(
            service,
            locale,
            error,
        ).0 == ErrorKind::Unauthorized,
        !"Failed to get current user:"@.is_prefix_of(error) ==> user_unknown(
            service,
            locale,
            error,
        ).0.code() == 500,
        platform_missing(service, locale).0.code() == 500,
        service is MyOrders || service is CancelOrder <==> token_missing(service, locale).0
            == ErrorKind::BadRequest,
        token_missing(service, locale).0 == ErrorKind::BadRequest || token_missing(
            service,
            locale,
        ).0 == ErrorKind::Unauthorized,
{
}

}
