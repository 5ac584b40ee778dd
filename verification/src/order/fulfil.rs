//! Crediting a paid order: the user's balance is recharged, or a subscription is
//! granted or renewed.
use vstd::prelude::*;

use crate::clock;
use crate::db;
use crate::json;
use crate::order::flow;
use crate::order::flow::{Action, Reply, Step};
use crate::order::repository::OrderRecord;
use crate::order::status::{is_status, OrderStatus};
use crate::sub2api;
use crate::sub2api::{Sub2ApiGroup, Sub2ApiSubscription};
use crate::subscription_plan;
use crate::subscription_plan::SubscriptionPlanRecord;
use crate::text;

verus! {

/// What an order grants.
pub enum Grant {
    Balance,
    Subscription {
        group_id: i64,
        /// The days that the order was sold for.
        days: i64,
        /// The days that are granted.
        granted_days: i64,
        /// The subscription that is renewed, if one is.
        renewed: Option<i64>,
    },
}

/// Where the crediting of an order stands.
pub enum Fulfil {
    Loading { platform: bool },
    Claiming { order: OrderRecord, platform: bool },
    /// Another claim won.
    Rechecking,
    ReadingKey { order: OrderRecord, now: i64, platform: bool },
    GettingGroup { order: OrderRecord, now: i64, key: String, group_id: i64, days: i64 },
    GettingSubscriptions { order: OrderRecord, now: i64, key: String, group_id: i64, days: i64 },
    LoadingPlan {
        order: OrderRecord,
        now: i64,
        key: String,
        group_id: i64,
        days: i64,
        renewed: i64,
        expires_at: String,
    },
    Granting { order: OrderRecord, now: i64, grant: Grant },
    Completing { order: OrderRecord, grant: Grant },
    /// The order had been moved on while it was credited.
    Reloading,
    LoggingSuccess,
    Failing { order_id: String, subscription: bool, reason: String },
    LoggingFailure,
}

// ---------------------------------------------------------------------------
// What the steps decide
// ---------------------------------------------------------------------------
/// The platform's administration key, if one is set.
pub open spec fn admin_key(value: Option<Seq<char>>) -> Option<Seq<char>> {
    match value {
        Some(v) => if text::trimmed(v).len() > 0 {
            Some(text::trimmed(v))
        } else {
            None
        },
        None => None,
    }
}

pub fn read_admin_key(value: &Option<String>) -> (r: Option<String>)
    ensures
        db::opt_text(r) == admin_key(db::opt_text(*value)),
{
    match value {
        Some(v) => {
            let key = text::trim(v.as_str());
            if key.is_empty() {
                None
            } else {
                Some(key.to_owned())
            }
        },
        None => None,
    }
}

pub open spec fn is_subscription(order: OrderRecord) -> bool {
    order.order_type@ == "subscription"@
}

/// The crediting is given up: the order fails, for the given reason.
pub open spec fn gives_up(
    out: Step<Fulfil, bool>,
    order: OrderRecord,
    reason: Seq<char>,
    now: i64,
) -> bool {
    &&& out matches Step::Act { action: Action::MarkFailed { order_id: id, reason: why, at }, next }
    &&& id@ == order.id@
    &&& why@ == reason
    &&& at == now
    &&& next matches Fulfil::Failing { order_id, subscription, reason: kept }
    &&& order_id@ == order.id@
    &&& subscription == is_subscription(order)
    &&& kept@ == reason
}

/// The order is credited with the grant.
pub open spec fn redeems(
    out: Step<Fulfil, bool>,
    order: OrderRecord,
    now: i64,
    key: Seq<char>,
    grant: Grant,
) -> bool {
    out matches Step::Act { action, next } && next == (Fulfil::Granting { order, now, grant })
        && match grant {
        Grant::Balance => action matches Action::RedeemBalance {
            code,
            amount_cents,
            user_id,
            notes,
            admin_key,
        } && {
            &&& code@ == order.recharge_code@
            &&& amount_cents == order.amount_cents
            &&& user_id == order.user_id
            &&& notes@ == "sub2apipay recharge order:"@ + order.id@
            &&& admin_key@ == key
        },
        Grant::Subscription { group_id: group, granted_days, .. } => action matches
            Action::RedeemSubscription {
            code,
            amount_cents,
            user_id,
            notes,
            group_id,
            days,
            admin_key,
        } && {
            &&& code@ == order.recharge_code@
            &&& amount_cents == order.amount_cents
            &&& user_id == order.user_id
            &&& notes@ == "sub2apipay subscription order:"@ + order.id@
            &&& group_id == group
            &&& days == granted_days
            &&& admin_key@ == key
        },
    }
}

/// What follows once the key is known: the balance is recharged, or the group of the
/// subscription is looked up.
pub open spec fn after_key(
    out: Step<Fulfil, bool>,
    order: OrderRecord,
    now: i64,
    key: Seq<char>,
) -> bool {
    if order.order_type@ == "balance"@ {
        redeems(out, order, now, key, Grant::Balance)
    } else if is_subscription(order) {
        match (order.subscription_group_id, order.subscription_days) {
            (Some(group), Some(length)) => if group <= 0 {
                gives_up(out, order, "Missing subscription group info on order"@, now)
            } else if length <= 0 {
                gives_up(out, order, "Missing subscription validity on order"@, now)
            } else {
                &&& out matches Step::Act {
                    action: Action::GetGroup { group_id: g, admin_key },
                    next,
                }
                &&& g == group
                &&& admin_key@ == key
                &&& next matches Fulfil::GettingGroup { order: o, now: t, key: k, group_id, days }
                &&& o == order
                &&& t == now
                &&& k@ == key
                &&& group_id == group
                &&& days == length
            },
            (Some(group), None) => if group <= 0 {
                gives_up(out, order, "Missing subscription group info on order"@, now)
            } else {
                gives_up(out, order, "Missing subscription validity on order"@, now)
            },
            (None, _) => gives_up(out, order, "Missing subscription group info on order"@, now),
        }
    } else {
        gives_up(
            out,
            order,
            "unsupported order type "@ + order.order_type@ + " in Rust fulfillment"@,
            now,
        )
    }
}

pub open spec fn after_group(
    out: Step<Fulfil, bool>,
    order: OrderRecord,
    now: i64,
    key: Seq<char>,
    group_id: i64,
    days: i64,
    group: Option<Sub2ApiGroup>,
) -> bool {
    if group is None || group->0.status@ != "active"@ {
        gives_up(
            out,
            order,
            "SUBSCRIPTION_GROUP_GONE: Subscription group "@ + text::decimal(group_id as int)
                + " no longer exists or inactive"@,
            now,
        )
    } else if db::opt_text(group->0.subscription_type) != Some("subscription"@) {
        gives_up(
            out,
            order,
            "Subscription group "@ + text::decimal(group_id as int)
                + " is not a subscription type"@,
            now,
        )
    } else {
        &&& out matches Step::Act { action: Action::GetSubscriptions { user_id, admin_key }, next }
        &&& user_id == order.user_id
        &&& admin_key@ == key
        &&& next matches Fulfil::GettingSubscriptions {
            order: o,
            now: t,
            key: k,
            group_id: g,
            days: d,
        }
        &&& o == order
        &&& t == now
        &&& k@ == key
        &&& g == group_id
        &&& d == days
    }
}

pub open spec fn after_subscriptions(
    out: Step<Fulfil, bool>,
    order: OrderRecord,
    now: i64,
    key: Seq<char>,
    group_id: i64,
    days: i64,
    items: Seq<Sub2ApiSubscription>,
) -> bool {
    match sub2api::first_active(items, group_id) {
        None => redeems(
            out,
            order,
            now,
            key,
            Grant::Subscription { group_id, days, granted_days: days, renewed: None },
        ),
        Some(active) => match order.plan_id {
            None => redeems(
                out,
                order,
                now,
                key,
                Grant::Subscription { group_id, days, granted_days: days, renewed: Some(active.id) },
            ),
            Some(plan) => {
                &&& out matches Step::Act { action: Action::LoadPlan { plan_id }, next }
                &&& plan_id@ == plan@
                &&& next matches Fulfil::LoadingPlan {
                    order: o,
                    now: t,
                    key: k,
                    group_id: g,
                    days: d,
                    renewed,
                    expires_at,
                }
                &&& o == order
                &&& t == now
                &&& k@ == key
                &&& g == group_id
                &&& d == days
                &&& renewed == active.id
                &&& expires_at@ == active.expires_at@
            },
        },
    }
}

/// A subscription is renewed for as long as its plan says, counted from its end; or
/// for the days that were sold, where the plan is gone.
pub open spec fn after_plan(
    out: Step<Fulfil, bool>,
    order: OrderRecord,
    now: i64,
    key: Seq<char>,
    group_id: i64,
    days: i64,
    renewed: i64,
    expires_at: Seq<char>,
    plan: Option<SubscriptionPlanRecord>,
) -> bool {
    match plan {
        None => redeems(
            out,
            order,
            now,
            key,
            Grant::Subscription { group_id, days, granted_days: days, renewed: Some(renewed) },
        ),
        Some(p) => match subscription_plan::validity(
            p.validity_days as int,
            p.validity_unit@,
            clock::rfc3339_moment(expires_at),
            expires_at,
        ) {
            Ok(granted) => redeems(
                out,
                order,
                now,
                key,
                Grant::Subscription {
                    group_id,
                    days,
                    granted_days: granted as i64,
                    renewed: Some(renewed),
                },
            ),
            Err(e) => gives_up(out, order, e, now),
        },
    }
}

/// The entry that is logged once an order is credited.
pub open spec fn success_logged(a: Action, order: OrderRecord, grant: Grant) -> bool {
    match grant {
        Grant::Balance => flow::audits(
            a,
            order.id@,
            "RECHARGE_SUCCESS"@,
            json::object_text(
                seq![
                    ("amountCents"@, text::decimal(order.amount_cents as int)),
                    ("rechargeCode"@, json::json_quoted(order.recharge_code@)),
                ],
            ),
            "system"@,
        ),
        Grant::Subscription { group_id, days, granted_days, renewed } => flow::audits(
            a,
            order.id@,
            "SUBSCRIPTION_SUCCESS"@,
            json::object_text(
                seq![
                    ("amountCents"@, text::decimal(order.amount_cents as int)),
                    ("days"@, text::decimal(days as int)),
                    ("grantedDays"@, text::decimal(granted_days as int)),
                    ("groupId"@, text::decimal(group_id as int)),
                    (
                        "method"@,
                        json::json_quoted(
                            if renewed is Some {
                                "renew"@
                            } else {
                                "new"@
                            },
                        ),
                    ),
                    ("renewedSubscriptionId"@, json::opt_number_text(renewed)),
                ],
            ),
            "system"@,
        ),
    }
}

pub open spec fn failure_kind(subscription: bool) -> Seq<char> {
    if subscription {
        "SUBSCRIPTION_FAILED"@
    } else {
        "RECHARGE_FAILED"@
    }
}

/// The step that follows a reply.
pub open spec fn fulfil_step(s: Fulfil, reply: Reply, now: i64, out: Step<Fulfil, bool>) -> bool {
    match (s, reply) {
        (Fulfil::Loading { platform }, Reply::Order { order: None }) => flow::done(out, false),
        (Fulfil::Loading { platform }, Reply::Order { order: Some(order) }) => {
            if order.status@ == OrderStatus::Paid.name() || order.status@
                == OrderStatus::Failed.name() {
                out matches Step::Act { action: Action::ClaimRecharge { order_id }, next }
                    && order_id@ == order.id@ && next == (Fulfil::Claiming { order, platform })
            } else {
                flow::done(out, order.status@ != OrderStatus::Recharging.name())
            }
        },
        (Fulfil::Claiming { order, platform }, Reply::Changed { changed: true }) => {
            out matches Step::Act { action, next } && flow::reads_key(action) && next == (
            Fulfil::ReadingKey { order, now, platform })
        },
        (Fulfil::Claiming { order, platform }, Reply::Changed { changed: false }) => {
            out matches Step::Act { action, next: Fulfil::Rechecking } && flow::loads(
                action,
                order.id@,
            )
        },
        (Fulfil::Rechecking, Reply::Order { order }) => flow::done(
            out,
            order is Some && (order->0.status@ == OrderStatus::Completed.name()
                || order->0.status@ == OrderStatus::Refunded.name()),
        ),
        (Fulfil::ReadingKey { order, now: at, platform }, Reply::Setting { value }) => {
            match admin_key(db::opt_text(value)) {
                None => gives_up(out, order, "SUB2API_ADMIN_API_KEY is not configured"@, at),
                Some(key) => if !platform {
                    gives_up(out, order, "SUB2API_BASE_URL is not configured"@, at)
                } else {
                    after_key(out, order, at, key)
                },
            }
        },
        (Fulfil::ReadingKey { order, now: at, platform }, Reply::Error { message }) => gives_up(
            out,
            order,
            message@,
            at,
        ),
        (
            Fulfil::GettingGroup { order, now: at, key, group_id, days },
            Reply::Group { group },
        ) => after_group(out, order, at, key@, group_id, days, group),
        (
            Fulfil::GettingGroup { order, now: at, key, group_id, days },
            Reply::Error { message },
        ) => gives_up(out, order, message@, at),
        (
            Fulfil::GettingSubscriptions { order, now: at, key, group_id, days },
            Reply::Subscriptions { items },
        ) => after_subscriptions(out, order, at, key@, group_id, days, items@),
        (
            Fulfil::GettingSubscriptions { order, now: at, key, group_id, days },
            Reply::Error { message },
        ) => gives_up(out, order, message@, at),
        (
            Fulfil::LoadingPlan { order, now: at, key, group_id, days, renewed, expires_at },
            Reply::Plan { plan },
        ) => after_plan(out, order, at, key@, group_id, days, renewed, expires_at@, plan),
        (
            Fulfil::LoadingPlan { order, now: at, key, group_id, days, renewed, expires_at },
            Reply::Error { message },
        ) => gives_up(out, order, message@, at),
        (Fulfil::Granting { order, now: at, grant }, Reply::Done) => {
            out matches Step::Act { action: Action::MarkCompleted { order_id, at: when }, next }
                && order_id@ == order.id@ && when == at && next == (Fulfil::Completing {
                order,
                grant,
            })
        },
        (Fulfil::Granting { order, now: at, grant }, Reply::Error { message }) => gives_up(
            out,
            order,
            message@,
            at,
        ),
        (Fulfil::Completing { order, grant }, Reply::Changed { changed: true }) => {
            out matches Step::Act { action, next: Fulfil::LoggingSuccess } && success_logged(
                action,
                order,
                grant,
            )
        },
        (Fulfil::Completing { order, grant }, Reply::Changed { changed: false }) => {
            out matches Step::Act { action, next: Fulfil::Reloading } && flow::loads(
                action,
                order.id@,
            )
        },
        (Fulfil::Reloading, Reply::Order { order }) => flow::done(
            out,
            order is Some && order->0.status@ == OrderStatus::Completed.name(),
        ),
        (Fulfil::LoggingSuccess, Reply::Done) => flow::done(out, true),
        (Fulfil::Failing { order_id, subscription, reason }, Reply::Changed { changed }) => {
            out matches Step::Act { action, next: Fulfil::LoggingFailure } && flow::audits(
                action,
                order_id@,
                failure_kind(subscription),
                reason@,
                "system"@,
            )
        },
        (Fulfil::LoggingFailure, Reply::Done) => flow::done(out, false),
        (Fulfil::ReadingKey { order, now: at, .. }, _) => gives_up(
            out,
            order,
            flow::unexpected(),
            at,
        ),
        (Fulfil::GettingGroup { order, now: at, .. }, _) => gives_up(
            out,
            order,
            flow::unexpected(),
            at,
        ),
        (Fulfil::GettingSubscriptions { order, now: at, .. }, _) => gives_up(
            out,
            order,
            flow::unexpected(),
            at,
        ),
        (Fulfil::LoadingPlan { order, now: at, .. }, _) => gives_up(
            out,
            order,
            flow::unexpected(),
            at,
        ),
        (Fulfil::Granting { order, now: at, .. }, _) => gives_up(
            out,
            order,
            flow::unexpected(),
            at,
        ),
        (_, Reply::Error { message }) => flow::fails(out, message@),
        _ => flow::fails(out, flow::unexpected()),
    }
}

// ---------------------------------------------------------------------------
// The steps
// ---------------------------------------------------------------------------
fn give_up(order: OrderRecord, reason: String, now: i64) -> (r: Step<Fulfil, bool>)
    ensures
        gives_up(r, order, reason@, now),
{
    let subscription = text::same(order.order_type.as_str(), "subscription");
    let order_id = order.id;
    Step::Act {
        action: Action::MarkFailed { order_id: order_id.clone(), reason: reason.clone(), at: now },
        next: Fulfil::Failing { order_id, subscription, reason },
    }
}

fn redeem(order: OrderRecord, now: i64, key: String, grant: Grant) -> (r: Step<Fulfil, bool>)
    ensures
        redeems(r, order, now, key@, grant),
{
    let code = order.recharge_code.clone();
    let amount_cents: i64 = order.amount_cents;
    let user_id: i64 = order.user_id;
    let action = match &grant {
        Grant::Balance => {
            let mut notes = "sub2apipay recharge order:".to_owned();
            notes.append(order.id.as_str());
            Action::RedeemBalance { code, amount_cents, user_id, notes, admin_key: key }
        },
        Grant::Subscription { group_id, days: _, granted_days, renewed: _ } => {
            let mut notes = "sub2apipay subscription order:".to_owned();
            notes.append(order.id.as_str());
            Action::RedeemSubscription {
                code,
                amount_cents,
                user_id,
                notes,
                group_id: *group_id,
                days: *granted_days,
                admin_key: key,
            }
        },
    };
    Step::Act { action, next: Fulfil::Granting { order, now, grant } }
}

fn with_key(order: OrderRecord, now: i64, key: String) -> (r: Step<Fulfil, bool>)
    ensures
        after_key(r, order, now, key@),
{
    if text::same(order.order_type.as_str(), "balance") {
        return redeem(order, now, key, Grant::Balance);
    }
    if !text::same(order.order_type.as_str(), "subscription") {
        let mut reason = "unsupported order type ".to_owned();
        reason.append(order.order_type.as_str());
        reason.append(" in Rust fulfillment");
        return give_up(order, reason, now);
    }
    let group_id: i64 = match order.subscription_group_id {
        Some(v) => v,
        None => 0,
    };
    if group_id <= 0 {
        return give_up(order, "Missing subscription group info on order".to_owned(), now);
    }
    let days: i64 = match order.subscription_days {
        Some(v) => v,
        None => 0,
    };
    if days <= 0 {
        return give_up(order, "Missing subscription validity on order".to_owned(), now);
    }
    Step::Act {
        action: Action::GetGroup { group_id, admin_key: key.clone() },
        next: Fulfil::GettingGroup { order, now, key, group_id, days },
    }
}

fn with_group(
    order: OrderRecord,
    now: i64,
    key: String,
    group_id: i64,
    days: i64,
    group: Option<Sub2ApiGroup>,
) -> (r: Step<Fulfil, bool>)
    ensures
        after_group(r, order, now, key@, group_id, days, group),
{
    let (active, fits) = match &group {
        Some(g) => (
            text::same(g.status.as_str(), "active"),
            match &g.subscription_type {
                Some(t) => text::same(t.as_str(), "subscription"),
                None => false,
            },
        ),
        None => (false, false),
    };
    if !active {
        let mut reason = "SUBSCRIPTION_GROUP_GONE: Subscription group ".to_owned();
        reason.append(text::i64_text(group_id).as_str());
        reason.append(" no longer exists or inactive");
        return give_up(order, reason, now);
    }
    if !fits {
        let mut reason = "Subscription group ".to_owned();
        reason.append(text::i64_text(group_id).as_str());
        reason.append(" is not a subscription type");
        return give_up(order, reason, now);
    }
    Step::Act {
        action: Action::GetSubscriptions { user_id: order.user_id, admin_key: key.clone() },
        next: Fulfil::GettingSubscriptions { order, now, key, group_id, days },
    }
}

fn with_subscriptions(
    order: OrderRecord,
    now: i64,
    key: String,
    group_id: i64,
    days: i64,
    items: Vec<Sub2ApiSubscription>,
) -> (r: Step<Fulfil, bool>)
    ensures
        after_subscriptions(r, order, now, key@, group_id, days, items@),
{
    match sub2api::find_active(&items, group_id) {
        None => redeem(
            order,
            now,
            key,
            Grant::Subscription { group_id, days, granted_days: days, renewed: None },
        ),
        Some(i) => {
            let renewed: i64 = items[i].id;
            let expires_at = items[i].expires_at.clone();
            match &order.plan_id {
                None => redeem(
                    order,
                    now,
                    key,
                    Grant::Subscription { group_id, days, granted_days: days, renewed: Some(renewed) },
                ),
                Some(plan_id) => {
                    let plan_id = plan_id.clone();
                    Step::Act {
                        action: Action::LoadPlan { plan_id },
                        next: Fulfil::LoadingPlan {
                            order,
                            now,
                            key,
                            group_id,
                            days,
                            renewed,
                            expires_at,
                        },
                    }
                },
            }
        },
    }
}

fn with_plan(
    order: OrderRecord,
    now: i64,
    key: String,
    group_id: i64,
    days: i64,
    renewed: i64,
    expires_at: String,
    plan: Option<SubscriptionPlanRecord>,
) -> (r: Step<Fulfil, bool>)
    requires
        plan matches Some(p) ==> subscription_plan::validity_fits(
            p.validity_days as int,
            p.validity_unit@,
        ),
    ensures
        after_plan(r, order, now, key@, group_id, days, renewed, expires_at@, plan),
{
    let granted_days: i64 = match plan {
        None => days,
        Some(p) => {
            let validity = subscription_plan::compute_validity_days(
                p.validity_days,
                p.validity_unit.as_str(),
                Some(expires_at.as_str()),
            );
            match validity {
                Ok(granted) => granted,
                Err(e) => {
                    return give_up(order, e, now);
                },
            }
        },
    };
    redeem(
        order,
        now,
        key,
        Grant::Subscription { group_id, days, granted_days, renewed: Some(renewed) },
    )
}

fn log_success(order: &OrderRecord, grant: &Grant) -> (r: Action)
    ensures
        success_logged(r, *order, *grant),
{
    let mut detail = json::ObjectText::new();
    detail.number("amountCents", order.amount_cents);
    match grant {
        Grant::Balance => {
            detail.string("rechargeCode", order.recharge_code.as_str());
            assert(detail@ =~= seq![
                ("amountCents"@, text::decimal(order.amount_cents as int)),
                ("rechargeCode"@, json::json_quoted(order.recharge_code@)),
            ]);
            flow::log(order.id.as_str(), "RECHARGE_SUCCESS", detail.finish(), "system")
        },
        Grant::Subscription { group_id, days, granted_days, renewed } => {
            detail.number("days", *days);
            detail.number("grantedDays", *granted_days);
            detail.number("groupId", *group_id);
            if renewed.is_some() {
                detail.string("method", "renew");
            } else {
                detail.string("method", "new");
            }
            detail.opt_number("renewedSubscriptionId", *renewed);
            assert(detail@ =~= seq![
                ("amountCents"@, text::decimal(order.amount_cents as int)),
                ("days"@, text::decimal(*days as int)),
                ("grantedDays"@, text::decimal(*granted_days as int)),
                ("groupId"@, text::decimal(*group_id as int)),
                (
                    "method"@,
                    json::json_quoted(
                        if *renewed is Some {
                            "renew"@
                        } else {
                            "new"@
                        },
                    ),
                ),
                ("renewedSubscriptionId"@, json::opt_number_text(*renewed)),
            ]);
            flow::log(order.id.as_str(), "SUBSCRIPTION_SUCCESS", detail.finish(), "system")
        },
    }
}

impl Fulfil {
    /// Begins to credit an order; `platform` says whether the platform is configured.
    pub fn start(order_id: &str, platform: bool) -> (r: Step<Fulfil, bool>)
        ensures
            r matches Step::Act { action, next } && flow::loads(action, order_id@) && next == (
            Fulfil::Loading { platform }),
    {
        Step::Act { action: flow::load(order_id), next: Fulfil::Loading { platform } }
    }

    /// Goes on with the reply to the last action.
    pub fn next(self, reply: Reply, now: i64) -> (r: Step<Fulfil, bool>)
        requires
            reply matches Reply::Plan { plan: Some(p) } ==> subscription_plan::validity_fits(
                p.validity_days as int,
                p.validity_unit@,
            ),
        ensures
            fulfil_step(self, reply, now, r),
    {
        match (self, reply) {
            (Fulfil::Loading { platform }, Reply::Order { order: None }) => Step::Done {
                result: Ok(false),
            },
            (Fulfil::Loading { platform }, Reply::Order { order: Some(order) }) => {
                if is_status(order.status.as_str(), OrderStatus::Paid) || is_status(
                    order.status.as_str(),
                    OrderStatus::Failed,
                ) {
                    let order_id = order.id.clone();
                    Step::Act {
                        action: Action::ClaimRecharge { order_id },
                        next: Fulfil::Claiming { order, platform },
                    }
                } else {
                    Step::Done {
                        result: Ok(!is_status(order.status.as_str(), OrderStatus::Recharging)),
                    }
                }
            },
            (Fulfil::Claiming { order, platform }, Reply::Changed { changed }) => {
                if changed {
                    Step::Act {
                        action: flow::read_key(),
                        next: Fulfil::ReadingKey { order, now, platform },
                    }
                } else {
                    Step::Act {
                        action: flow::load(order.id.as_str()),
                        next: Fulfil::Rechecking,
                    }
                }
            },
            (Fulfil::Rechecking, Reply::Order { order }) => {
                let settled = match &order {
                    Some(o) => is_status(o.status.as_str(), OrderStatus::Completed) || is_status(
                        o.status.as_str(),
                        OrderStatus::Refunded,
                    ),
                    None => false,
                };
                Step::Done { result: Ok(settled) }
            },
            (Fulfil::ReadingKey { order, now: at, platform }, Reply::Setting { value }) => {
                match read_admin_key(&value) {
                    None => give_up(
                        order,
                        "SUB2API_ADMIN_API_KEY is not configured".to_owned(),
                        at,
                    ),
                    Some(key) => {
                        if !platform {
                            give_up(order, "SUB2API_BASE_URL is not configured".to_owned(), at)
                        } else {
                            with_key(order, at, key)
                        }
                    },
                }
            },
            (Fulfil::ReadingKey { order, now: at, platform }, Reply::Error { message }) => give_up(
                order,
                message,
                at,
            ),
            (
                Fulfil::GettingGroup { order, now: at, key, group_id, days },
                Reply::Group { group },
            ) => with_group(order, at, key, group_id, days, group),
            (
                Fulfil::GettingGroup { order, now: at, key, group_id, days },
                Reply::Error { message },
            ) => give_up(order, message, at),
            (
                Fulfil::GettingSubscriptions { order, now: at, key, group_id, days },
                Reply::Subscriptions { items },
            ) => with_subscriptions(order, at, key, group_id, days, items),
            (
                Fulfil::GettingSubscriptions { order, now: at, key, group_id, days },
                Reply::Error { message },
            ) => give_up(order, message, at),
            (
                Fulfil::LoadingPlan { order, now: at, key, group_id, days, renewed, expires_at },
                Reply::Plan { plan },
            ) => with_plan(order, at, key, group_id, days, renewed, expires_at, plan),
            (
                Fulfil::LoadingPlan { order, now: at, key, group_id, days, renewed, expires_at },
                Reply::Error { message },
            ) => give_up(order, message, at),
            (Fulfil::Granting { order, now: at, grant }, Reply::Done) => {
                let order_id = order.id.clone();
                Step::Act {
                    action: Action::MarkCompleted { order_id, at },
                    next: Fulfil::Completing { order, grant },
                }
            },
            (Fulfil::Granting { order, now: at, grant }, Reply::Error { message }) => give_up(
                order,
                message,
                at,
            ),
            (Fulfil::Completing { order, grant }, Reply::Changed { changed }) => {
                if changed {
                    Step::Act {
                        action: log_success(&order, &grant),
                        next: Fulfil::LoggingSuccess,
                    }
                } else {
                    Step::Act { action: flow::load(order.id.as_str()), next: Fulfil::Reloading }
                }
            },
            (Fulfil::Reloading, Reply::Order { order }) => {
                let completed = match &order {
                    Some(o) => is_status(o.status.as_str(), OrderStatus::Completed),
                    None => false,
                };
                Step::Done { result: Ok(completed) }
            },
            (Fulfil::LoggingSuccess, Reply::Done) => Step::Done { result: Ok(true) },
            (Fulfil::Failing { order_id, subscription, reason }, Reply::Changed { changed: _ }) => {
                let kind = if subscription {
                    "SUBSCRIPTION_FAILED"
                } else {
                    "RECHARGE_FAILED"
                };
                Step::Act {
                    action: flow::log(order_id.as_str(), kind, reason, "system"),
                    next: Fulfil::LoggingFailure,
                }
            },
            (Fulfil::LoggingFailure, Reply::Done) => Step::Done { result: Ok(false) },
            (Fulfil::ReadingKey { order, now: at, .. }, _) => give_up(
                order,
                "unexpected reply".to_owned(),
                at,
            ),
            (Fulfil::GettingGroup { order, now: at, .. }, _) => give_up(
                order,
                "unexpected reply".to_owned(),
                at,
            ),
            (Fulfil::GettingSubscriptions { order, now: at, .. }, _) => give_up(
                order,
                "unexpected reply".to_owned(),
                at,
            ),
            (Fulfil::LoadingPlan { order, now: at, .. }, _) => give_up(
                order,
                "unexpected reply".to_owned(),
                at,
            ),
            (Fulfil::Granting { order, now: at, .. }, _) => give_up(
                order,
                "unexpected reply".to_owned(),
                at,
            ),
            (_, Reply::Error { message }) => Step::Done { result: Err(message) },
            _ => flow::fail("unexpected reply"),
        }
    }
}

// ---------------------------------------------------------------------------
// Laws
// ---------------------------------------------------------------------------
/// The order was claimed for crediting, and the claim has not ended.
pub open spec fn claimed(s: Fulfil) -> bool {
    s is ReadingKey || s is GettingGroup || s is GettingSubscriptions || s is LoadingPlan
        || s is Granting || s is Completing || s is Failing
}

pub open spec fn is_grant(a: Action) -> bool {
    a is RedeemBalance || a is RedeemSubscription
}

/// Only an order that was claimed is credited, and an order is claimed only by the
/// guarded change that puts it to recharging.
pub proof fn law_only_claimed_orders_are_credited(
    s: Fulfil,
    reply: Reply,
    now: i64,
    out: Step<Fulfil, bool>,
)
    requires
        fulfil_step(s, reply, now, out),
        out is Act,
    ensures
        is_grant(out->action) ==> claimed(s),
        claimed(out->next) ==> claimed(s) || (s is Claiming && reply == (Reply::Changed {
            changed: true,
        })),
        s is Claiming && reply == (Reply::Changed { changed: true }) ==> claimed(out->next),
{
}

/// The action credits the order's own amount to its own user under its own code.
pub open spec fn credits(a: Action, order: OrderRecord) -> bool {
    match a {
        Action::RedeemBalance { code, amount_cents, user_id, .. } => code@ == order.recharge_code@
            && amount_cents == order.amount_cents && user_id == order.user_id,
        Action::RedeemSubscription { code, amount_cents, user_id, .. } => code@
            == order.recharge_code@ && amount_cents == order.amount_cents && user_id
            == order.user_id,
        _ => false,
    }
}

/// An order is credited for its own amount, to its own user, under its own code, and
/// at most once in a run: after the grant was asked for, only the end of the claim
/// follows.
pub proof fn law_credited_for_what_it_is(
    s: Fulfil,
    reply: Reply,
    now: i64,
    out: Step<Fulfil, bool>,
)
    requires
        fulfil_step(s, reply, now, out),
    ensures
        out is Act && is_grant(out->action) ==> out->next is Granting && credits(
            out->action,
            out->next->Granting_order,
        ),
        s is Granting && out is Act ==> out->action is MarkCompleted || out->action is MarkFailed,
        s is Completing || s is Failing || s is LoggingSuccess || s is LoggingFailure
            || s is Reloading ==> (out is Act ==> !is_grant(out->action)),
{
}

/// An order is completed exactly when the platform granted it, and fails exactly when
/// the crediting could not be done; a claim never ends without one of the two.
pub proof fn law_claims_are_settled(s: Fulfil, reply: Reply, now: i64, out: Step<Fulfil, bool>)
    requires
        fulfil_step(s, reply, now, out),
    ensures
        out is Act && out->action is MarkCompleted <==> s is Granting && reply is Done,
        s is ReadingKey || s is GettingGroup || s is GettingSubscriptions || s is LoadingPlan
            || s is Granting ==> out is Act,
        s is Granting && reply !is Done ==> out->action is MarkFailed,
        out is Act && out->next is Failing ==> out->action is MarkFailed,
{
}

/// An order that is refunded or asked to be, cancelled, expired, or completed is not
/// credited again, and its payment counts as dealt with.
pub proof fn law_settled_orders_are_not_credited(
    platform: bool,
    order: OrderRecord,
    now: i64,
    out: Step<Fulfil, bool>,
)
    requires
        fulfil_step(
            Fulfil::Loading { platform },
            Reply::Order { order: Some(order) },
            now,
            out,
        ),
        crate::order::status::refund_related(order.status@) || order.status@
            == OrderStatus::Completed.name() || order.status@ == OrderStatus::Cancelled.name()
            || order.status@ == OrderStatus::Expired.name(),
    ensures
        flow::done(out, true),
{
    crate::order::repository::lemma_names_differ(OrderStatus::Paid);
    crate::order::repository::lemma_names_differ(OrderStatus::Failed);
    crate::order::repository::lemma_names_differ(OrderStatus::Recharging);
}

// ---------------------------------------------------------------------------
// Laws on what is granted
// ---------------------------------------------------------------------------
/// An order is credited exactly where it is paid for and not yet credited, or its crediting
/// failed before; of the others only one that is being credited counts as not dealt with.
pub proof fn law_paid_orders_are_claimed(
    platform: bool,
    order: OrderRecord,
    now: i64,
    out: Step<Fulfil, bool>,
)
    requires
        fulfil_step(
            Fulfil::Loading { platform },
            Reply::Order { order: Some(order) },
            now,
            out,
        ),
    ensures
        order.status@ == "PAID"@ || order.status@ == "FAILED"@ ==> (out matches Step::Act {
            action: Action::ClaimRecharge { order_id },
            next: Fulfil::Claiming { order: o, .. },
        } && order_id@ == order.id@ && o == order),
        order.status@ != "PAID"@ && order.status@ != "FAILED"@ ==> out == (Step::<
            Fulfil,
            bool,
        >::Done { result: Ok(order.status@ != "RECHARGING"@) }),
{
}

/// The buyer of a recharge gets the amount of the order, under its code; the buyer of a
/// subscription has the group of the order looked up. An order that is neither, or lacks a
/// group or a length above zero, fails.
pub proof fn law_orders_are_credited_by_their_type(
    order: OrderRecord,
    at: i64,
    value: String,
    now: i64,
    out: Step<Fulfil, bool>,
)
    requires
        text::trimmed(value@).len() > 0,
        fulfil_step(
            Fulfil::ReadingKey { order, now: at, platform: true },
            Reply::Setting { value: Some(value) },
            now,
            out,
        ),
    ensures
        out is Act,
        order.order_type@ == "balance"@ ==> (out->action matches Action::RedeemBalance {
            code,
            amount_cents,
            user_id,
            ..
        } && code@ == order.recharge_code@ && amount_cents == order.amount_cents && user_id
            == order.user_id && out->next is Granting && out->next->Granting_grant is Balance),
        order.order_type@ == "subscription"@ ==> {
            let sold = order.subscription_group_id is Some && order.subscription_group_id->0 > 0
                && order.subscription_days is Some && order.subscription_days->0 > 0;
            &&& sold ==> (out->action matches Action::GetGroup { group_id, .. } && Some(group_id)
                == order.subscription_group_id && out->next is GettingGroup
                && Some(out->next->GettingGroup_days) == order.subscription_days
                && Some(out->next->GettingGroup_group_id) == order.subscription_group_id
                && out->next->GettingGroup_order == order)
            &&& !sold ==> out->action is MarkFailed
        },
        order.order_type@ != "balance"@ && order.order_type@ != "subscription"@
            ==> out->action is MarkFailed,
{
    reveal_strlit("balance");
    reveal_strlit("subscription");
    assert("balance"@.len() != "subscription"@.len());
}

/// A subscription is granted only in a group that is there, is active and is one of
/// subscriptions; else the order fails.
pub proof fn law_only_open_groups_are_granted(
    order: OrderRecord,
    at: i64,
    key: String,
    group_id: i64,
    days: i64,
    group: Option<Sub2ApiGroup>,
    now: i64,
    out: Step<Fulfil, bool>,
)
    requires
        fulfil_step(
            Fulfil::GettingGroup { order, now: at, key, group_id, days },
            Reply::Group { group },
            now,
            out,
        ),
    ensures
        ({
            let open = group matches Some(g) && g.status@ == "active"@ && (
            g.subscription_type matches Some(t) && t@ == "subscription"@);
            &&& open ==> (out matches Step::Act {
                action: Action::GetSubscriptions { user_id, .. },
                next: Fulfil::GettingSubscriptions { order: o, group_id: g, days: d, .. },
            } && user_id == order.user_id && o == order && g == group_id && d == days)
            &&& !open ==> out is Act && out->action is MarkFailed
        }),
{
}

/// The subscription that is renewed is the buyer's first active one in the group of the order;
/// where none is active there, a new one is granted for the days that were sold.
pub proof fn law_only_active_subscriptions_are_renewed(
    order: OrderRecord,
    at: i64,
    key: String,
    group_id: i64,
    days: i64,
    items: Vec<Sub2ApiSubscription>,
    now: i64,
    out: Step<Fulfil, bool>,
    i: int,
)
    requires
        fulfil_step(
            Fulfil::GettingSubscriptions { order, now: at, key, group_id, days },
            Reply::Subscriptions { items },
            now,
            out,
        ),
    ensures
        out is Act,
        (forall|j: int|
            0 <= j < items@.len() ==> (#[trigger] items@[j]).group_id != group_id
                || items@[j].status@ != "active"@) ==> grants_days(
            out->action,
            order,
            group_id,
            days as int,
        ) && out->next is Granting && out->next->Granting_grant == (Grant::Subscription {
            group_id,
            days,
            granted_days: days,
            renewed: None,
        }),
        0 <= i < items@.len() && items@[i].group_id == group_id && items@[i].status@ == "active"@
            && (forall|j: int|
            0 <= j < i ==> (#[trigger] items@[j]).group_id != group_id || items@[j].status@
                != "active"@) ==> match order.plan_id {
            None => grants_days(out->action, order, group_id, days as int)
                && out->next is Granting && out->next->Granting_grant == (Grant::Subscription {
                group_id,
                days,
                granted_days: days,
                renewed: Some(items@[i].id),
            }),
            Some(plan) => (out->action matches Action::LoadPlan { plan_id } && plan_id@ == plan@)
                && (out->next matches Fulfil::LoadingPlan {
                order: o,
                group_id: g,
                days: d,
                renewed,
                expires_at,
                ..
            } && o == order && g == group_id && d == days && renewed == items@[i].id && expires_at@
                == items@[i].expires_at@),
        },
{
    sub2api::law_picked_subscription_is_the_first_active(items@, group_id);
    if 0 <= i < items@.len() && items@[i].group_id == group_id && items@[i].status@ == "active"@
        && (forall|j: int|
        0 <= j < i ==> (#[trigger] items@[j]).group_id != group_id || items@[j].status@
            != "active"@) {
        sub2api::law_first_active_subscription_is_picked(items@, group_id, i);
    }
}

/// The action grants the buyer of an order so many days in a group, under the order's code.
pub open spec fn grants_days(a: Action, order: OrderRecord, group: i64, length: int) -> bool {
    a matches Action::RedeemSubscription { code, amount_cents, user_id, group_id, days, .. } && code@
        == order.recharge_code@ && amount_cents == order.amount_cents && user_id == order.user_id
        && group_id == group && days == length
}

/// A renewal lasts as its plan does, from the end of what is renewed: so many days, or seven
/// times so many, or to the day so many months on; and where the plan is gone, for the days
/// that were sold. What has no length is not granted.
pub proof fn law_renewals_last_as_their_plan(
    order: OrderRecord,
    at: i64,
    key: String,
    group_id: i64,
    days: i64,
    renewed: i64,
    expires_at: String,
    plan: Option<SubscriptionPlanRecord>,
    now: i64,
    out: Step<Fulfil, bool>,
)
    requires
        plan matches Some(p) ==> subscription_plan::validity_fits(
            p.validity_days as int,
            p.validity_unit@,
        ),
        fulfil_step(
            Fulfil::LoadingPlan { order, now: at, key, group_id, days, renewed, expires_at },
            Reply::Plan { plan },
            now,
            out,
        ),
    ensures
        out is Act,
        out->action is RedeemSubscription || out->action is MarkFailed,
        out->action is RedeemSubscription ==> out->next is Granting && (
        out->next->Granting_grant matches Grant::Subscription {
            group_id: g,
            days: d,
            granted_days,
            renewed: r,
        } && g == group_id && d == days && r == Some(renewed) && grants_days(
            out->action,
            order,
            group_id,
            granted_days as int,
        )),
        plan is None ==> grants_days(out->action, order, group_id, days as int),
        plan matches Some(p) ==> {
            let unit = text::lowered(text::trimmed(p.validity_unit@));
            let n = p.validity_days as int;
            &&& n <= 0 ==> out->action is MarkFailed
            &&& n > 0 && unit == "day"@ ==> grants_days(out->action, order, group_id, n)
            &&& n > 0 && unit == "week"@ ==> grants_days(out->action, order, group_id, 7 * n)
            &&& unit == "month"@ && out->action is RedeemSubscription ==> (clock::rfc3339_read(
                expires_at@,
            ) matches Ok(end) && (clock::days_to_months_later(end, n as u32) matches Some(granted)
                && grants_days(out->action, order, group_id, granted as int)))
            &&& unit != "day"@ && unit != "week"@ && unit != "month"@ ==> out->action is MarkFailed
        },
{
    reveal_strlit("day");
    reveal_strlit("week");
    reveal_strlit("month");
    assert("day"@.len() == 3 && "week"@.len() == 4 && "month"@.len() == 5);
}

/// Once the platform granted an order, the order is completed at the time of its claim; and
/// where it could not, the order fails at that time for the reason that was given.
pub proof fn law_grants_complete_the_order(
    order: OrderRecord,
    at: i64,
    grant: Grant,
    reply: Reply,
    now: i64,
    out: Step<Fulfil, bool>,
)
    requires
        fulfil_step(Fulfil::Granting { order, now: at, grant }, reply, now, out),
    ensures
        reply is Done ==> (out matches Step::Act {
            action: Action::MarkCompleted { order_id, at: when },
            ..
        } && order_id@ == order.id@ && when == at),
        reply matches Reply::Error { message } ==> (out matches Step::Act {
            action: Action::MarkFailed { order_id, reason, at: when },
            ..
        } && order_id@ == order.id@ && reason@ == message@ && when == at),
{
}

/// What crediting comes to: an order counts as dealt with exactly where its success was
/// logged, or another run completed it, or, for a claim that was lost, another refunded it.
pub proof fn law_crediting_succeeds_only_when_completed(
    s: Fulfil,
    reply: Reply,
    now: i64,
    out: Step<Fulfil, bool>,
)
    requires
        fulfil_step(s, reply, now, out),
        !(s is Loading),
    ensures
        out == (Step::<Fulfil, bool>::Done { result: Ok(true) }) <==> {
            ||| s is LoggingSuccess && reply is Done
            ||| s is Reloading && (reply matches Reply::Order { order: Some(o) } && o.status@
                == "COMPLETED"@)
            ||| s is Rechecking && (reply matches Reply::Order { order: Some(o) } && (o.status@
                == "COMPLETED"@ || o.status@ == "REFUNDED"@))
        },
{
}

/// An order is credited by steps, beginning with the order.
pub proof fn law_orders_are_credited_by_steps(
    s: Fulfil,
    reply: Reply,
    now: i64,
    out: Step<Fulfil, bool>,
    id: &str,
    platform: bool,
    first: Step<Fulfil, bool>,
)
    requires
        call_ensures(Fulfil::next, (s, reply, now), out),
        call_ensures(Fulfil::start, (id, platform), first),
    ensures
        fulfil_step(s, reply, now, out),
        first matches Step::Act { action: Action::LoadOrder { order_id }, next: Fulfil::Loading {
            platform: p,
        } } && order_id@ == id@ && p == platform,
{
}

/// The note of a credit tells the order, what it was of, and what was granted.
pub proof fn law_credits_are_noted(a: Action, order: OrderRecord, grant: Grant)
    requires
        success_logged(a, order, grant),
    ensures
        a matches Action::Audit { entry } && entry.order_id@ == order.id@ && (grant is Balance
            ==> entry.action@ == "RECHARGE_SUCCESS"@) && (grant is Subscription ==> entry.action@
            == "SUBSCRIPTION_SUCCESS"@) && (entry.operator matches Some(o) && o@ == "system"@)
            && entry.detail is Some,
        grant is Balance ==> a->entry.detail->0@ == "{\"amountCents\":"@ + text::decimal(
            order.amount_cents as int,
        ) + ",\"rechargeCode\":"@ + json::json_quoted(order.recharge_code@) + "}"@,
{
    if grant is Balance {
        let members = seq![
            ("amountCents"@, text::decimal(order.amount_cents as int)),
            ("rechargeCode"@, json::json_quoted(order.recharge_code@)),
        ];
        json::law_objects_list_their_members(members);
        let parts = json::member_texts(members);
        assert(parts.len() == 2);
        assert(parts.drop_last().len() == 1);
        assert(text::joined(parts.drop_last(), ","@) == parts[0]);
        assert(text::joined(parts, ","@) == parts[0] + ","@ + parts[1]);
        reveal_strlit("{");
        reveal_strlit("}");
        reveal_strlit(",");
        reveal_strlit("\"");
        reveal_strlit("\":");
        reveal_strlit("amountCents");
        reveal_strlit("rechargeCode");
        reveal_strlit("{\"amountCents\":");
        reveal_strlit(",\"rechargeCode\":");
        assert("{"@ + ("\""@ + "amountCents"@ + "\":"@) =~= "{\"amountCents\":"@);
        assert(","@ + ("\""@ + "rechargeCode"@ + "\":"@) =~= ",\"rechargeCode\":"@);
        assert(a->entry.detail->0@ =~= "{\"amountCents\":"@ + text::decimal(
            order.amount_cents as int,
        ) + ",\"rechargeCode\":"@ + json::json_quoted(order.recharge_code@) + "}"@);
    }
}

/// The note of a subscription tells its group, the days that it was sold for and those that
/// were granted, and whether one was renewed; that of a failure its reason.
pub proof fn law_subscriptions_and_failures_are_noted(
    order: OrderRecord,
    group_id: i64,
    days: i64,
    granted_days: i64,
    renewed: Option<i64>,
    a: Action,
    subscription: bool,
    reason: String,
    changed: bool,
    now: i64,
    failed: Step<Fulfil, bool>,
)
    requires
        success_logged(a, order, Grant::Subscription { group_id, days, granted_days, renewed }),
        fulfil_step(
            Fulfil::Failing { order_id: order.id, subscription, reason },
            Reply::Changed { changed },
            now,
            failed,
        ),
    ensures
        a is Audit && a->entry.detail is Some,
        renewed matches Some(id) ==> a->entry.detail->0@ == json::object_text(
            seq![
                ("amountCents"@, text::decimal(order.amount_cents as int)),
                ("days"@, text::decimal(days as int)),
                ("grantedDays"@, text::decimal(granted_days as int)),
                ("groupId"@, text::decimal(group_id as int)),
                ("method"@, json::json_quoted("renew"@)),
                ("renewedSubscriptionId"@, text::decimal(id as int)),
            ],
        ),
        renewed is None ==> a->entry.detail->0@ == json::object_text(
            seq![
                ("amountCents"@, text::decimal(order.amount_cents as int)),
                ("days"@, text::decimal(days as int)),
                ("grantedDays"@, text::decimal(granted_days as int)),
                ("groupId"@, text::decimal(group_id as int)),
                ("method"@, json::json_quoted("new"@)),
                ("renewedSubscriptionId"@, "null"@),
            ],
        ),
        failed matches Step::Act { action: Action::Audit { entry }, .. } && entry.order_id@
            == order.id@ && (subscription ==> entry.action@ == "SUBSCRIPTION_FAILED"@) && (
        !subscription ==> entry.action@ == "RECHARGE_FAILED"@) && (entry.detail matches Some(d)
            && d@ == reason@) && (entry.operator matches Some(o) && o@ == "system"@),
{
}

/// Who wins the claim on an order goes on with the platform's key; who loses it leaves the order
/// to the winner, and counts it as credited exactly where it is completed or refunded by then.
pub proof fn law_lost_claims_are_left_to_the_winner(
    order: OrderRecord,
    platform: bool,
    found: Option<OrderRecord>,
    now: i64,
    won: Step<Fulfil, bool>,
    lost: Step<Fulfil, bool>,
    end: Step<Fulfil, bool>,
)
    requires
        fulfil_step(
            Fulfil::Claiming { order, platform },
            Reply::Changed { changed: true },
            now,
            won,
        ),
        fulfil_step(
            Fulfil::Claiming { order, platform },
            Reply::Changed { changed: false },
            now,
            lost,
        ),
        fulfil_step(Fulfil::Rechecking, Reply::Order { order: found }, now, end),
    ensures
        won matches Step::Act {
            action: Action::ReadSetting { key },
            next: Fulfil::ReadingKey { order: o, platform: p, .. },
        } && key@ == "SUB2API_ADMIN_API_KEY"@ && o == order && p == platform,
        lost matches Step::Act { action: Action::LoadOrder { order_id }, next } && order_id@
            == order.id@ && next is Rechecking,
        end matches Step::Done { result: Ok(credited) } && (credited <==> found is Some && (
        found->0.status@ == "COMPLETED"@ || found->0.status@ == "REFUNDED"@)),
{
}

/// A subscription order that lacks a group fails for want of a group, and one that has a group
/// but no days for want of days.
pub proof fn law_lacking_orders_fail_with_what_they_lack(
    order: OrderRecord,
    at: i64,
    value: String,
    now: i64,
    out: Step<Fulfil, bool>,
)
    requires
        text::trimmed(value@).len() > 0,
        order.order_type@ == "subscription"@,
        fulfil_step(
            Fulfil::ReadingKey { order, now: at, platform: true },
            Reply::Setting { value: Some(value) },
            now,
            out,
        ),
    ensures
        ({
            let grouped = order.subscription_group_id matches Some(g) && g > 0;
            let dated = order.subscription_days matches Some(d) && d > 0;
            let fails = |why: Seq<char>|
                out is Act && (out->action matches Action::MarkFailed {
                    order_id,
                    reason,
                    at: t,
                } && order_id@ == order.id@ && reason@ == why && t == at) && (
                out->next matches Fulfil::Failing { subscription, .. } && subscription);
            &&& !grouped ==> fails("Missing subscription group info on order"@)
            &&& grouped && !dated ==> fails("Missing subscription validity on order"@)
        }),
{
    reveal_strlit("balance");
    reveal_strlit("subscription");
    assert("balance"@.len() != "subscription"@.len());
}

}
