//! Refunding an order.
//!
//! A refund claims the order, takes what was credited off the user again, asks the
//! payment gateway for the money, and then closes the order. Where the gateway
//! refuses, what was taken is given back and the order returns to what it was.
use vstd::prelude::*;

use crate::clock;
use crate::db;
use crate::json;
use crate::order::confirm;
use crate::order::flow;
use crate::order::flow::{Action, Reply, Step};
use crate::order::fulfil;
use crate::order::repository;
use crate::order::repository::{MarkRefundedInput, OrderRecord};
use crate::order::status::{is_status, OrderStatus};
use crate::payment_provider::{RefundPaymentRequest, RefundPaymentResponse};
use crate::sub2api;
use crate::sub2api::Sub2ApiSubscription;
use crate::text;

verus! {

#[derive(Debug)]
pub struct ProcessRefundInput {
    pub order_id: String,
    pub amount_cents: Option<i64>,
    pub reason: Option<String>,
    pub force: bool,
    pub deduct_balance: bool,
}

#[derive(Debug)]
pub struct ProcessRefundResult {
    pub success: bool,
    pub warning: Option<String>,
    pub require_force: bool,
    pub balance_deducted_cents: i64,
    pub subscription_days_deducted: i64,
}

/// What a refund takes off the user again.
#[derive(Debug, Clone, Copy, PartialEq, Eq, Structural)]
pub struct DeductionPlan {
    pub balance_amount_cents: i64,
    pub subscription_days: i64,
    pub subscription_id: Option<i64>,
}

/// A refund whose amounts are settled.
pub struct RefundJob {
    pub order: OrderRecord,
    pub reason: String,
    pub refund_cents: i64,
    pub gateway_cents: i64,
    pub force: bool,
    pub deduct_balance: bool,
    pub key: String,
}

/// Where a refund stands.
pub enum Refund {
    Loading { input: ProcessRefundInput, platform: bool },
    ReadingKey { job: RefundJob, platform: bool },
    GettingSubscriptions { job: RefundJob, group_id: i64, days: i64 },
    GettingUser { job: RefundJob },
    Claiming { job: RefundJob, plan: DeductionPlan },
    Deducting { job: RefundJob, plan: DeductionPlan },
    AskingGateway { job: RefundJob, plan: DeductionPlan },
    RollingBack { job: RefundJob, plan: DeductionPlan, gateway_error: String },
    LoggingRollback { job: RefundJob, gateway_error: String },
    Restoring { job: RefundJob, gateway_error: String },
    LoggingRestore { job: RefundJob, gateway_error: String },
    LoggingNoTrade { job: RefundJob, plan: DeductionPlan },
    Closing { job: RefundJob, plan: DeductionPlan, gateway: Option<RefundPaymentResponse> },
    LoggingSuccess { job: RefundJob, plan: DeductionPlan },
    Failing { order_id: String, message: String },
    LoggingFailure { message: String },
}

pub type RefundStep = Step<Refund, ProcessRefundResult>;

// ---------------------------------------------------------------------------
// Amounts and reasons
// ---------------------------------------------------------------------------
/// What is refunded to the user: the amount asked for, or all that was credited.
pub open spec fn refund_amount(order: OrderRecord, asked: Option<i64>) -> i64 {
    match asked {
        Some(c) => c,
        None => order.amount_cents,
    }
}

/// What the gateway is asked for: the amount asked for, or all that was paid.
pub open spec fn gateway_amount(order: OrderRecord, asked: Option<i64>) -> i64 {
    match asked {
        Some(c) => c,
        None => confirm::expected_cents(order),
    }
}

/// A given text without white space, if anything is left of it.
pub open spec fn filled(s: Option<Seq<char>>) -> Option<Seq<char>> {
    match s {
        Some(t) => if text::trimmed(t).len() > 0 {
            Some(text::trimmed(t))
        } else {
            None
        },
        None => None,
    }
}

pub fn filled_text(s: &Option<String>) -> (r: Option<String>)
    ensures
        db::opt_text(r) == filled(db::opt_text(*s)),
{
    fulfil::read_admin_key(s)
}

/// The reason of a refund: the one given, or the user's own, or a note of the order.
pub open spec fn refund_reason(order: OrderRecord, given: Option<Seq<char>>) -> Seq<char> {
    match filled(given) {
        Some(r) => r,
        None => match order.refund_request_reason {
            Some(r) => r@,
            None => "sub2apipay refund order:"@ + order.id@,
        },
    }
}

/// Why an order cannot be refunded as asked, if it cannot.
pub open spec fn refund_refused(order: Option<OrderRecord>, asked: Option<i64>) -> Option<
    Seq<char>,
> {
    match order {
        None => Some("order not found"@),
        Some(o) => if !repository::refundable_status(o.status@) {
            Some("order is not refundable in current status"@)
        } else if refund_amount(o, asked) <= 0 {
            Some("refund amount must be positive"@)
        } else if refund_amount(o, asked) > o.amount_cents {
            Some("refund amount exceeds recharge amount"@)
        } else {
            None
        },
    }
}

pub open spec fn no_deduction() -> DeductionPlan {
    DeductionPlan { balance_amount_cents: 0, subscription_days: 0, subscription_id: None }
}

pub open spec fn least(a: int, b: int) -> int {
    if a <= b {
        a
    } else {
        b
    }
}

// ---------------------------------------------------------------------------
// What the steps decide
// ---------------------------------------------------------------------------
/// The order is to be claimed for its refund.
pub open spec fn claims(out: RefundStep, job: RefundJob, plan: DeductionPlan) -> bool {
    &&& out matches Step::Act { action: Action::ClaimRefund { order_id }, next }
    &&& order_id@ == job.order.id@
    &&& next == (Refund::Claiming { job, plan })
}

/// What was credited cannot be looked up: the refund goes on only by force.
pub open spec fn asks_for_force(out: RefundStep, warning: Seq<char>) -> bool {
    &&& out matches Step::Done { result: Ok(r) }
    &&& !r.success
    &&& db::opt_text(r.warning) == Some(warning)
    &&& r.require_force
    &&& r.balance_deducted_cents == 0
    &&& r.subscription_days_deducted == 0
}

/// What follows once the key is known: what is to be taken off the user is looked up.
pub open spec fn prepares(out: RefundStep, job: RefundJob) -> bool {
    if !job.deduct_balance {
        claims(out, job, no_deduction())
    } else if fulfil::is_subscription(job.order) {
        match (job.order.subscription_group_id, job.order.subscription_days) {
            (Some(group), Some(length)) => {
                &&& out matches Step::Act {
                    action: Action::GetSubscriptions { user_id, admin_key },
                    next,
                }
                &&& user_id == job.order.user_id
                &&& admin_key@ == job.key@
                &&& next == (Refund::GettingSubscriptions { job, group_id: group, days: length })
            },
            _ => claims(out, job, no_deduction()),
        }
    } else {
        &&& out matches Step::Act { action: Action::GetUser { user_id, admin_key }, next }
        &&& user_id == job.order.user_id
        &&& admin_key@ == job.key@
        &&& next == (Refund::GettingUser { job })
    }
}

/// The days to take off an active subscription: those of the order, but no more than
/// are left.
pub open spec fn after_subscriptions(
    out: RefundStep,
    job: RefundJob,
    group_id: i64,
    days: i64,
    items: Seq<Sub2ApiSubscription>,
    now: int,
) -> bool {
    match sub2api::first_active(items, group_id) {
        None => claims(out, job, no_deduction()),
        Some(active) => match clock::rfc3339_read(active.expires_at@) {
            Ok(m) => claims(
                out,
                job,
                DeductionPlan {
                    balance_amount_cents: 0,
                    subscription_days: least(
                        days as int,
                        clock::days_left(m.timestamp as int, now),
                    ) as i64,
                    subscription_id: Some(active.id),
                },
            ),
            Err(e) => flow::fails(
                out,
                "failed to parse subscription expiry "@ + active.expires_at@ + ": "@ + e,
            ),
        },
    }
}

/// The money to take off the user's balance: what is refunded, but no more than is there.
pub open spec fn balance_plan(refund_cents: int, balance_cents: Option<i64>) -> DeductionPlan {
    DeductionPlan {
        balance_amount_cents: least(
            refund_cents,
            match balance_cents {
                Some(b) => b as int,
                None => 0,
            },
        ) as i64,
        subscription_days: 0,
        subscription_id: None,
    }
}

/// Whether a plan takes anything off the user.
pub open spec fn deducts(plan: DeductionPlan) -> bool {
    if plan.subscription_id is Some {
        plan.subscription_days > 0
    } else {
        plan.balance_amount_cents > 0
    }
}

/// The action takes off the user what the plan says.
pub open spec fn deduction(a: Action, job: RefundJob, plan: DeductionPlan, now: int) -> bool {
    match plan.subscription_id {
        Some(subscription) => a matches Action::ExtendSubscription {
            subscription_id,
            days,
            idempotency_key,
            admin_key,
        } && {
            &&& subscription_id == subscription
            &&& days == -plan.subscription_days
            &&& idempotency_key@ == "sub2apipay:refund-sub:"@ + job.order.id@ + ":"@
                + text::decimal(now)
            &&& admin_key@ == job.key@
        },
        None => a matches Action::SubtractBalance {
            user_id,
            amount_cents,
            notes,
            idempotency_key,
            admin_key,
        } && {
            &&& user_id == job.order.user_id
            &&& amount_cents == plan.balance_amount_cents
            &&& notes@ == "sub2apipay refund order:"@ + job.order.id@
            &&& idempotency_key@ == "sub2apipay:refund:"@ + job.order.id@ + ":"@ + text::decimal(
                now,
            )
            &&& admin_key@ == job.key@
        },
    }
}

/// The action gives the user back what the plan says.
pub open spec fn rollback(a: Action, job: RefundJob, plan: DeductionPlan, now: int) -> bool {
    match plan.subscription_id {
        Some(subscription) => a matches Action::ExtendSubscription {
            subscription_id,
            days,
            idempotency_key,
            admin_key,
        } && {
            &&& subscription_id == subscription
            &&& days == plan.subscription_days
            &&& idempotency_key@ == "sub2apipay:refund-sub-rollback:"@ + job.order.id@ + ":"@
                + text::decimal(now)
            &&& admin_key@ == job.key@
        },
        None => a matches Action::AddBalance {
            user_id,
            amount_cents,
            notes,
            idempotency_key,
            admin_key,
        } && {
            &&& user_id == job.order.user_id
            &&& amount_cents == plan.balance_amount_cents
            &&& notes@ == "sub2apipay refund rollback order:"@ + job.order.id@
            &&& idempotency_key@ == "sub2apipay:refund-rollback:"@ + job.order.id@ + ":"@
                + text::decimal(now)
            &&& admin_key@ == job.key@
        },
    }
}

/// The gateway is asked for the money, where the order has a payment there.
pub open spec fn asks_gateway(out: RefundStep, job: RefundJob, plan: DeductionPlan) -> bool {
    match job.order.payment_trade_no {
        Some(trade) => {
            &&& out matches Step::Act { action: Action::GatewayRefund { refund_request: request }, next }
            &&& request.trade_no@ == trade@
            &&& request.order_id@ == job.order.id@
            &&& request.amount_cents == job.gateway_cents
            &&& request.payment_type@ == job.order.payment_type@
            &&& request.reason@ == job.reason@
            &&& db::opt_text(request.provider_instance_id) == db::opt_text(
                job.order.provider_instance_id,
            )
            &&& next == (Refund::AskingGateway { job, plan })
        },
        None => {
            &&& out matches Step::Act { action, next }
            &&& flow::audits(
                action,
                job.order.id@,
                "REFUND_NO_TRADE_NO"@,
                "No paymentTradeNo, skipped gateway refund"@,
                "admin"@,
            )
            &&& next == (Refund::LoggingNoTrade { job, plan })
        },
    }
}

/// The status that a refunded order ends in.
pub open spec fn final_status(job: RefundJob) -> OrderStatus {
    if job.refund_cents < job.order.amount_cents {
        OrderStatus::PartiallyRefunded
    } else {
        OrderStatus::Refunded
    }
}

/// The order is closed as refunded.
pub open spec fn closes(
    out: RefundStep,
    job: RefundJob,
    plan: DeductionPlan,
    gateway: Option<RefundPaymentResponse>,
    now: int,
) -> bool {
    &&& out matches Step::Act { action: Action::MarkRefunded { refund }, next }
    &&& refund.order_id@ == job.order.id@
    &&& refund.status@ == final_status(job).name()
    &&& refund.refund_amount_cents == job.refund_cents
    &&& refund.refund_reason@ == job.reason@
    &&& refund.refund_at == now
    &&& refund.force_refund == job.force
    &&& next == (Refund::Closing { job, plan, gateway })
}

/// The status to which an order returns whose refund the gateway refused.
pub open spec fn restore_status(order: OrderRecord) -> OrderStatus {
    if order.status@ == OrderStatus::RefundRequested.name() {
        OrderStatus::RefundRequested
    } else {
        OrderStatus::Completed
    }
}

pub open spec fn restores(out: RefundStep, job: RefundJob, gateway_error: Seq<char>) -> bool {
    &&& out matches Step::Act { action: Action::RestoreAfterRefund { order_id, status }, next }
    &&& order_id@ == job.order.id@
    &&& status == restore_status(job.order)
    &&& next matches Refund::Restoring { job: j, gateway_error: e }
    &&& j == job
    &&& e@ == gateway_error
}

/// A refund that claimed the order fails.
pub open spec fn fails_locked(out: RefundStep, id: Seq<char>, why: Seq<char>, now: int) -> bool {
    &&& out matches Step::Act { action: Action::MarkRefundFailed { order_id, reason, at }, next }
    &&& order_id@ == id
    &&& reason@ == why
    &&& at == now
    &&& next matches Refund::Failing { order_id: o, message }
    &&& o@ == id
    &&& message@ == why
}

pub open spec fn rollback_failure_detail(
    plan: DeductionPlan,
    gateway_error: Seq<char>,
    rollback_error: Seq<char>,
) -> Seq<char> {
    if plan.subscription_id is Some {
        json::object_text(
            seq![
                ("gatewayError"@, json::json_quoted(gateway_error)),
                ("rollbackError"@, json::json_quoted(rollback_error)),
                ("subscriptionDaysDeducted"@, text::decimal(plan.subscription_days as int)),
            ],
        )
    } else {
        json::object_text(
            seq![
                ("balanceDeductedCents"@, text::decimal(plan.balance_amount_cents as int)),
                ("gatewayError"@, json::json_quoted(gateway_error)),
                ("needsBalanceCompensation"@, json::flag_text(true)),
                ("rollbackError"@, json::json_quoted(rollback_error)),
            ],
        )
    }
}

pub open spec fn success_kind(job: RefundJob) -> Seq<char> {
    if job.refund_cents < job.order.amount_cents {
        "PARTIAL_REFUND_SUCCESS"@
    } else {
        "REFUND_SUCCESS"@
    }
}

pub open spec fn success_detail(
    job: RefundJob,
    plan: DeductionPlan,
    gateway: Option<RefundPaymentResponse>,
) -> Seq<char> {
    json::object_text(success_members(job, plan, gateway))
}

/// What the log says of a refund that went through.
pub open spec fn success_members(
    job: RefundJob,
    plan: DeductionPlan,
    gateway: Option<RefundPaymentResponse>,
) -> Seq<(Seq<char>, Seq<char>)> {
        seq![
            ("balanceDeductedCents"@, text::decimal(plan.balance_amount_cents as int)),
            ("deductBalance"@, json::flag_text(job.deduct_balance)),
            ("force"@, json::flag_text(job.force)),
            (
                "gatewayProvider"@,
                json::opt_quoted(
                    match gateway {
                        Some(g) => Some(g.provider_name@),
                        None => None,
                    },
                ),
            ),
            ("gatewayRefundAmountCents"@, text::decimal(job.gateway_cents as int)),
            (
                "gatewayRefundId"@,
                json::opt_quoted(
                    match gateway {
                        Some(g) => Some(g.refund_id@),
                        None => None,
                    },
                ),
            ),
            (
                "gatewayStatus"@,
                json::opt_quoted(
                    match gateway {
                        Some(g) => Some(g.status@),
                        None => None,
                    },
                ),
            ),
            ("reason"@, json::json_quoted(job.reason@)),
            ("rechargeAmountCents"@, text::decimal(job.order.amount_cents as int)),
            ("refundAmountCents"@, text::decimal(job.refund_cents as int)),
            ("subscriptionDaysDeducted"@, text::decimal(plan.subscription_days as int)),
        ]
}

/// The order was claimed for its refund, and the claim has not ended.
pub open spec fn locked(s: Refund) -> Option<RefundJob> {
    match s {
        Refund::Deducting { job, .. } => Some(job),
        Refund::AskingGateway { job, .. } => Some(job),
        Refund::RollingBack { job, .. } => Some(job),
        Refund::LoggingRollback { job, .. } => Some(job),
        Refund::Restoring { job, .. } => Some(job),
        Refund::LoggingRestore { job, .. } => Some(job),
        Refund::LoggingNoTrade { job, .. } => Some(job),
        Refund::Closing { job, .. } => Some(job),
        Refund::LoggingSuccess { job, .. } => Some(job),
        _ => None,
    }
}

/// The result of a refund that went through.
pub open spec fn succeeds(out: RefundStep, plan: DeductionPlan) -> bool {
    &&& out matches Step::Done { result: Ok(r) }
    &&& r.success
    &&& r.warning is None
    &&& !r.require_force
    &&& r.balance_deducted_cents == plan.balance_amount_cents
    &&& r.subscription_days_deducted == plan.subscription_days
}

/// The result of a refund that the gateway refused and that was undone.
pub open spec fn undone(out: RefundStep, gateway_error: Seq<char>) -> bool {
    &&& out matches Step::Done { result: Ok(r) }
    &&& !r.success
    &&& db::opt_text(r.warning) == Some(
        "gateway refund failed: "@ + gateway_error + ", deduction rolled back"@,
    )
    &&& !r.require_force
    &&& r.balance_deducted_cents == 0
    &&& r.subscription_days_deducted == 0
}

/// The step that follows a reply.
pub open spec fn refund_step(s: Refund, reply: Reply, now: int, out: RefundStep) -> bool {
    match (s, reply) {
        (Refund::Loading { input, platform }, Reply::Order { order }) => {
            match refund_refused(order, input.amount_cents) {
                Some(e) => flow::fails(out, e),
                None => {
                    &&& out matches Step::Act { action, next }
                    &&& flow::reads_key(action)
                    &&& next matches Refund::ReadingKey { job, platform: p }
                    &&& p == platform
                    &&& job.order == order->0
                    &&& job.reason@ == refund_reason(order->0, db::opt_text(input.reason))
                    &&& job.refund_cents == refund_amount(order->0, input.amount_cents)
                    &&& job.gateway_cents == gateway_amount(order->0, input.amount_cents)
                    &&& job.force == input.force
                    &&& job.deduct_balance == input.deduct_balance
                },
            }
        },
        (Refund::ReadingKey { job, platform }, Reply::Setting { value }) => {
            match fulfil::admin_key(db::opt_text(value)) {
                None => flow::fails(out, "SUB2API_ADMIN_API_KEY is not configured"@),
                Some(key) => if !platform {
                    flow::fails(out, "SUB2API_BASE_URL is not configured"@)
                } else {
                    exists|k: String|
                        k@ == key && #[trigger] prepares(out, (RefundJob { key: k, ..job }))
                },
            }
        },
        (Refund::GettingSubscriptions { job, group_id, days }, Reply::Subscriptions { items }) => {
            after_subscriptions(out, job, group_id, days, items@, now)
        },
        (Refund::GettingSubscriptions { job, group_id, days }, Reply::Error { message }) => {
            if job.force {
                claims(out, job, no_deduction())
            } else {
                asks_for_force(out, "cannot fetch subscription info, use force"@)
            }
        },
        (Refund::GettingUser { job }, Reply::User { balance_cents }) => claims(
            out,
            job,
            balance_plan(job.refund_cents as int, balance_cents),
        ),
        (Refund::GettingUser { job }, Reply::Error { message }) => {
            if job.force {
                claims(out, job, no_deduction())
            } else {
                asks_for_force(out, "cannot fetch user balance, use force"@)
            }
        },
        (Refund::Claiming { job, plan }, Reply::Changed { changed: false }) => flow::fails(
            out,
            "order status changed, refresh and retry"@,
        ),
        (Refund::Claiming { job, plan }, Reply::Changed { changed: true }) => {
            if deducts(plan) {
                &&& out matches Step::Act { action, next }
                &&& deduction(action, job, plan, now)
                &&& next == (Refund::Deducting { job, plan })
            } else {
                asks_gateway(out, job, plan)
            }
        },
        (Refund::Deducting { job, plan }, Reply::Done) => asks_gateway(out, job, plan),
        (Refund::AskingGateway { job, plan }, Reply::Refund { response }) => closes(
            out,
            job,
            plan,
            Some(response),
            now,
        ),
        (Refund::AskingGateway { job, plan }, Reply::Error { message }) => {
            if deducts(plan) {
                &&& out matches Step::Act { action, next }
                &&& rollback(action, job, plan, now)
                &&& next == (Refund::RollingBack { job, plan, gateway_error: message })
            } else {
                restores(out, job, message@)
            }
        },
        (Refund::RollingBack { job, plan, gateway_error }, Reply::Done) => restores(
            out,
            job,
            gateway_error@,
        ),
        (Refund::RollingBack { job, plan, gateway_error }, Reply::Error { message }) => {
            &&& out matches Step::Act { action, next }
            &&& flow::audits(
                action,
                job.order.id@,
                "REFUND_ROLLBACK_FAILED"@,
                rollback_failure_detail(plan, gateway_error@, message@),
                "admin"@,
            )
            &&& next == (Refund::LoggingRollback { job, gateway_error })
        },
        (Refund::LoggingRollback { job, gateway_error }, Reply::Done) => fails_locked(
            out,
            job.order.id@,
            "Gateway refund failed and rollback also failed: "@ + gateway_error@,
            now,
        ),
        (Refund::Restoring { job, gateway_error }, Reply::Changed { changed }) => {
            &&& out matches Step::Act { action, next }
            &&& flow::audits(
                action,
                job.order.id@,
                "REFUND_GATEWAY_FAILED"@,
                "Gateway refund failed, deduction rolled back: "@ + gateway_error@,
                "admin"@,
            )
            &&& next == (Refund::LoggingRestore { job, gateway_error })
        },
        (Refund::LoggingRestore { job, gateway_error }, Reply::Done) => undone(
            out,
            gateway_error@,
        ),
        (Refund::LoggingNoTrade { job, plan }, Reply::Done) => closes(out, job, plan, None, now),
        (Refund::Closing { job, plan, gateway }, Reply::Changed { changed }) => {
            &&& out matches Step::Act { action, next }
            &&& flow::audits(
                action,
                job.order.id@,
                success_kind(job),
                success_detail(job, plan, gateway),
                "admin"@,
            )
            &&& next == (Refund::LoggingSuccess { job, plan })
        },
        (Refund::LoggingSuccess { job, plan }, Reply::Done) => succeeds(out, plan),
        (Refund::Failing { order_id, message }, _) => {
            &&& out matches Step::Act { action, next }
            &&& flow::audits(action, order_id@, "REFUND_FAILED"@, message@, "admin"@)
            &&& next == (Refund::LoggingFailure { message })
        },
        (Refund::LoggingFailure { message }, Reply::Done) => flow::fails(out, message@),
        (_, Reply::Error { message }) => match locked(s) {
            Some(job) => fails_locked(out, job.order.id@, message@, now),
            None => flow::fails(out, message@),
        },
        _ => match locked(s) {
            Some(job) => fails_locked(out, job.order.id@, flow::unexpected(), now),
            None => flow::fails(out, flow::unexpected()),
        },
    }
}

// ---------------------------------------------------------------------------
// The steps
// ---------------------------------------------------------------------------
fn check_refund(order: &OrderRecord, asked: Option<i64>) -> (r: Option<String>)
    ensures
        db::opt_text(r) == refund_refused(Some(*order), asked),
{
    if !repository::is_refundable_status(order.status.as_str()) {
        return Some("order is not refundable in current status".to_owned());
    }
    let amount: i64 = match asked {
        Some(c) => c,
        None => order.amount_cents,
    };
    if amount <= 0 {
        return Some("refund amount must be positive".to_owned());
    }
    if amount > order.amount_cents {
        return Some("refund amount exceeds recharge amount".to_owned());
    }
    None
}

fn settle_reason(order: &OrderRecord, given: &Option<String>) -> (r: String)
    ensures
        r@ == refund_reason(*order, db::opt_text(*given)),
{
    match filled_text(given) {
        Some(r) => r,
        None => match &order.refund_request_reason {
            Some(r) => r.clone(),
            None => {
                let mut note = "sub2apipay refund order:".to_owned();
                note.append(order.id.as_str());
                note
            },
        },
    }
}

fn claim(job: RefundJob, plan: DeductionPlan) -> (r: RefundStep)
    ensures
        claims(r, job, plan),
{
    let order_id = job.order.id.clone();
    Step::Act { action: Action::ClaimRefund { order_id }, next: Refund::Claiming { job, plan } }
}

fn nothing_to_deduct() -> (r: DeductionPlan)
    ensures
        r == no_deduction(),
{
    DeductionPlan { balance_amount_cents: 0, subscription_days: 0, subscription_id: None }
}

fn ask_for_force(warning: &str) -> (r: RefundStep)
    ensures
        asks_for_force(r, warning@),
{
    Step::Done {
        result: Ok(
            ProcessRefundResult {
                success: false,
                warning: Some(warning.to_owned()),
                require_force: true,
                balance_deducted_cents: 0,
                subscription_days_deducted: 0,
            },
        ),
    }
}

fn prepare_deduction(job: RefundJob) -> (r: RefundStep)
    ensures
        prepares(r, job),
{
    if !job.deduct_balance {
        return claim(job, nothing_to_deduct());
    }
    if text::same(job.order.order_type.as_str(), "subscription") {
        match (job.order.subscription_group_id, job.order.subscription_days) {
            (Some(group_id), Some(days)) => Step::Act {
                action: Action::GetSubscriptions {
                    user_id: job.order.user_id,
                    admin_key: job.key.clone(),
                },
                next: Refund::GettingSubscriptions { job, group_id, days },
            },
            _ => claim(job, nothing_to_deduct()),
        }
    } else {
        Step::Act {
            action: Action::GetUser { user_id: job.order.user_id, admin_key: job.key.clone() },
            next: Refund::GettingUser { job },
        }
    }
}

fn with_subscriptions(
    job: RefundJob,
    group_id: i64,
    days: i64,
    items: Vec<Sub2ApiSubscription>,
    now: i64,
) -> (r: RefundStep)
    ensures
        after_subscriptions(r, job, group_id, days, items@, now as int),
{
    match sub2api::find_active(&items, group_id) {
        None => claim(job, nothing_to_deduct()),
        Some(i) => {
            match clock::remaining_days_from_rfc3339(items[i].expires_at.as_str(), now) {
                Ok(left) => {
                    let plan = DeductionPlan {
                        balance_amount_cents: 0,
                        subscription_days: if days <= left {
                            days
                        } else {
                            left
                        },
                        subscription_id: Some(items[i].id),
                    };
                    claim(job, plan)
                },
                Err(e) => Step::Done { result: Err(e) },
            }
        },
    }
}

fn dated_key(prefix: &str, order_id: &str, now: i64) -> (r: String)
    ensures
        r@ == prefix@ + order_id@ + ":"@ + text::decimal(now as int),
{
    let mut key = prefix.to_owned();
    key.append(order_id);
    key.append(":");
    key.append(text::i64_text(now).as_str());
    key
}

fn note(prefix: &str, order_id: &str) -> (r: String)
    ensures
        r@ == prefix@ + order_id@,
{
    let mut s = prefix.to_owned();
    s.append(order_id);
    s
}

fn execute_deduction(job: RefundJob, plan: DeductionPlan, now: i64) -> (r: RefundStep)
    ensures
        refund_step(
            Refund::Claiming { job, plan },
            Reply::Changed { changed: true },
            now as int,
            r,
        ),
{
    let id = job.order.id.as_str();
    match plan.subscription_id {
        Some(subscription_id) => {
            if plan.subscription_days > 0 {
                let action = Action::ExtendSubscription {
                    subscription_id,
                    days: -plan.subscription_days,
                    idempotency_key: dated_key("sub2apipay:refund-sub:", id, now),
                    admin_key: job.key.clone(),
                };
                Step::Act { action, next: Refund::Deducting { job, plan } }
            } else {
                ask_gateway(job, plan)
            }
        },
        None => {
            if plan.balance_amount_cents > 0 {
                let action = Action::SubtractBalance {
                    user_id: job.order.user_id,
                    amount_cents: plan.balance_amount_cents,
                    notes: note("sub2apipay refund order:", id),
                    idempotency_key: dated_key("sub2apipay:refund:", id, now),
                    admin_key: job.key.clone(),
                };
                Step::Act { action, next: Refund::Deducting { job, plan } }
            } else {
                ask_gateway(job, plan)
            }
        },
    }
}

fn ask_gateway(job: RefundJob, plan: DeductionPlan) -> (r: RefundStep)
    ensures
        asks_gateway(r, job, plan),
{
    match &job.order.payment_trade_no {
        Some(trade_no) => {
            let request = RefundPaymentRequest {
                trade_no: trade_no.clone(),
                order_id: job.order.id.clone(),
                amount_cents: job.gateway_cents,
                payment_type: job.order.payment_type.clone(),
                reason: job.reason.clone(),
                provider_instance_id: db::copy_opt(&job.order.provider_instance_id),
            };
            Step::Act {
                action: Action::GatewayRefund { refund_request: request },
                next: Refund::AskingGateway { job, plan },
            }
        },
        None => {
            let action = flow::log(
                job.order.id.as_str(),
                "REFUND_NO_TRADE_NO",
                "No paymentTradeNo, skipped gateway refund".to_owned(),
                "admin",
            );
            Step::Act { action, next: Refund::LoggingNoTrade { job, plan } }
        },
    }
}

fn close(
    job: RefundJob,
    plan: DeductionPlan,
    gateway: Option<RefundPaymentResponse>,
    now: i64,
) -> (r: RefundStep)
    ensures
        closes(r, job, plan, gateway, now as int),
{
    let status = if job.refund_cents < job.order.amount_cents {
        OrderStatus::PartiallyRefunded
    } else {
        OrderStatus::Refunded
    };
    let refund = MarkRefundedInput {
        order_id: job.order.id.clone(),
        status: status.as_str().to_owned(),
        refund_amount_cents: job.refund_cents,
        refund_reason: job.reason.clone(),
        refund_at: now,
        force_refund: job.force,
    };
    Step::Act {
        action: Action::MarkRefunded { refund },
        next: Refund::Closing { job, plan, gateway },
    }
}

fn restore(job: RefundJob, gateway_error: String) -> (r: RefundStep)
    ensures
        restores(r, job, gateway_error@),
{
    let status = if is_status(job.order.status.as_str(), OrderStatus::RefundRequested) {
        OrderStatus::RefundRequested
    } else {
        OrderStatus::Completed
    };
    Step::Act {
        action: Action::RestoreAfterRefund { order_id: job.order.id.clone(), status },
        next: Refund::Restoring { job, gateway_error },
    }
}

fn rollback_deduction(
    job: RefundJob,
    plan: DeductionPlan,
    gateway_error: String,
    now: i64,
) -> (r: RefundStep)
    ensures
        refund_step(
            Refund::AskingGateway { job, plan },
            Reply::Error { message: gateway_error },
            now as int,
            r,
        ),
{
    let id = job.order.id.as_str();
    match plan.subscription_id {
        Some(subscription_id) => {
            if plan.subscription_days <= 0 {
                return restore(job, gateway_error);
            }
            let action = Action::ExtendSubscription {
                subscription_id,
                days: plan.subscription_days,
                idempotency_key: dated_key("sub2apipay:refund-sub-rollback:", id, now),
                admin_key: job.key.clone(),
            };
            Step::Act { action, next: Refund::RollingBack { job, plan, gateway_error } }
        },
        None => {
            if plan.balance_amount_cents <= 0 {
                return restore(job, gateway_error);
            }
            let action = Action::AddBalance {
                user_id: job.order.user_id,
                amount_cents: plan.balance_amount_cents,
                notes: note("sub2apipay refund rollback order:", id),
                idempotency_key: dated_key("sub2apipay:refund-rollback:", id, now),
                admin_key: job.key.clone(),
            };
            Step::Act { action, next: Refund::RollingBack { job, plan, gateway_error } }
        },
    }
}

fn log_rollback_failure(
    order_id: &str,
    plan: DeductionPlan,
    gateway_error: &str,
    rollback_error: &str,
) -> (r: Action)
    ensures
        flow::audits(
            r,
            order_id@,
            "REFUND_ROLLBACK_FAILED"@,
            rollback_failure_detail(plan, gateway_error@, rollback_error@),
            "admin"@,
        ),
{
    let mut detail = json::ObjectText::new();
    if plan.subscription_id.is_some() {
        detail.string("gatewayError", gateway_error);
        detail.string("rollbackError", rollback_error);
        detail.number("subscriptionDaysDeducted", plan.subscription_days);
        assert(detail@ =~= seq![
            ("gatewayError"@, json::json_quoted(gateway_error@)),
            ("rollbackError"@, json::json_quoted(rollback_error@)),
            ("subscriptionDaysDeducted"@, text::decimal(plan.subscription_days as int)),
        ]);
    } else {
        detail.number("balanceDeductedCents", plan.balance_amount_cents);
        detail.string("gatewayError", gateway_error);
        detail.flag("needsBalanceCompensation", true);
        detail.string("rollbackError", rollback_error);
        assert(detail@ =~= seq![
            ("balanceDeductedCents"@, text::decimal(plan.balance_amount_cents as int)),
            ("gatewayError"@, json::json_quoted(gateway_error@)),
            ("needsBalanceCompensation"@, json::flag_text(true)),
            ("rollbackError"@, json::json_quoted(rollback_error@)),
        ]);
    }
    flow::log(order_id, "REFUND_ROLLBACK_FAILED", detail.finish(), "admin")
}

fn log_success(
    job: &RefundJob,
    plan: DeductionPlan,
    gateway: &Option<RefundPaymentResponse>,
) -> (r: Action)
    ensures
        flow::audits(
            r,
            job.order.id@,
            success_kind(*job),
            success_detail(*job, plan, *gateway),
            "admin"@,
        ),
{
    let (provider, refund_id, status) = match gateway {
        Some(g) => (Some(g.provider_name.clone()), Some(g.refund_id.clone()), Some(
            g.status.clone(),
        )),
        None => (None, None, None),
    };
    let mut detail = json::ObjectText::new();
    detail.number("balanceDeductedCents", plan.balance_amount_cents);
    detail.flag("deductBalance", job.deduct_balance);
    detail.flag("force", job.force);
    detail.opt_string("gatewayProvider", &provider);
    detail.number("gatewayRefundAmountCents", job.gateway_cents);
    detail.opt_string("gatewayRefundId", &refund_id);
    detail.opt_string("gatewayStatus", &status);
    detail.string("reason", job.reason.as_str());
    detail.number("rechargeAmountCents", job.order.amount_cents);
    detail.number("refundAmountCents", job.refund_cents);
    detail.number("subscriptionDaysDeducted", plan.subscription_days);
    assert(detail@ =~= success_members(*job, plan, *gateway));
    let logged = detail.finish();
    let kind = if job.refund_cents < job.order.amount_cents {
        "PARTIAL_REFUND_SUCCESS"
    } else {
        "REFUND_SUCCESS"
    };
    flow::log(job.order.id.as_str(), kind, logged, "admin")
}

fn fail_locked(order_id: String, message: String, now: i64) -> (r: RefundStep)
    ensures
        fails_locked(r, order_id@, message@, now as int),
{
    Step::Act {
        action: Action::MarkRefundFailed {
            order_id: order_id.clone(),
            reason: message.clone(),
            at: now,
        },
        next: Refund::Failing { order_id, message },
    }
}

impl Refund {
    /// Begins to refund an order; `platform` says whether the platform is configured.
    pub fn start(input: ProcessRefundInput, platform: bool) -> (r: RefundStep)
        ensures
            r matches Step::Act { action, next } && flow::loads(action, input.order_id@) && next
                == (Refund::Loading { input, platform }),
    {
        let action = flow::load(input.order_id.as_str());
        Step::Act { action, next: Refund::Loading { input, platform } }
    }

    /// The order of a refund that claimed it.
    fn into_locked_id(self) -> (r: Option<String>)
        ensures
            r is Some <==> locked(self) is Some,
            r matches Some(id) ==> id@ == locked(self)->0.order.id@,
    {
        match self {
            Refund::Deducting { job, .. } => Some(job.order.id),
            Refund::AskingGateway { job, .. } => Some(job.order.id),
            Refund::RollingBack { job, .. } => Some(job.order.id),
            Refund::LoggingRollback { job, .. } => Some(job.order.id),
            Refund::Restoring { job, .. } => Some(job.order.id),
            Refund::LoggingRestore { job, .. } => Some(job.order.id),
            Refund::LoggingNoTrade { job, .. } => Some(job.order.id),
            Refund::Closing { job, .. } => Some(job.order.id),
            Refund::LoggingSuccess { job, .. } => Some(job.order.id),
            _ => None,
        }
    }

    /// Goes on with the reply to the last action.
    pub fn next(self, reply: Reply, now: i64) -> (r: RefundStep)
        ensures
            refund_step(self, reply, now as int, r),
    {
        match (self, reply) {
            (Refund::Loading { input, platform }, Reply::Order { order }) => {
                match order {
                    None => flow::fail("order not found"),
                    Some(order) => {
                        if let Some(e) = check_refund(&order, input.amount_cents) {
                            return Step::Done { result: Err(e) };
                        }
                        let reason = settle_reason(&order, &input.reason);
                        let refund_cents: i64 = match input.amount_cents {
                            Some(c) => c,
                            None => order.amount_cents,
                        };
                        let gateway_cents: i64 = match input.amount_cents {
                            Some(c) => c,
                            None => confirm::order_cost(&order),
                        };
                        let job = RefundJob {
                            order,
                            reason,
                            refund_cents,
                            gateway_cents,
                            force: input.force,
                            deduct_balance: input.deduct_balance,
                            key: String::new(),
                        };
                        Step::Act {
                            action: flow::read_key(),
                            next: Refund::ReadingKey { job, platform },
                        }
                    },
                }
            },
            (Refund::ReadingKey { job, platform }, Reply::Setting { value }) => {
                match fulfil::read_admin_key(&value) {
                    None => flow::fail("SUB2API_ADMIN_API_KEY is not configured"),
                    Some(key) => {
                        if !platform {
                            flow::fail("SUB2API_BASE_URL is not configured")
                        } else {
                            let r = prepare_deduction(RefundJob { key, ..job });
                            assert(prepares(r, (RefundJob { key, ..job })));
                            r
                        }
                    },
                }
            },
            (
                Refund::GettingSubscriptions { job, group_id, days },
                Reply::Subscriptions { items },
            ) => with_subscriptions(job, group_id, days, items, now),
            (Refund::GettingSubscriptions { job, group_id, days }, Reply::Error { message: _ }) => {
                if job.force {
                    claim(job, nothing_to_deduct())
                } else {
                    ask_for_force("cannot fetch subscription info, use force")
                }
            },
            (Refund::GettingUser { job }, Reply::User { balance_cents }) => {
                let balance: i64 = match balance_cents {
                    Some(b) => b,
                    None => 0,
                };
                let plan = DeductionPlan {
                    balance_amount_cents: if job.refund_cents <= balance {
                        job.refund_cents
                    } else {
                        balance
                    },
                    subscription_days: 0,
                    subscription_id: None,
                };
                claim(job, plan)
            },
            (Refund::GettingUser { job }, Reply::Error { message: _ }) => {
                if job.force {
                    claim(job, nothing_to_deduct())
                } else {
                    ask_for_force("cannot fetch user balance, use force")
                }
            },
            (Refund::Claiming { job, plan }, Reply::Changed { changed }) => {
                if changed {
                    execute_deduction(job, plan, now)
                } else {
                    flow::fail("order status changed, refresh and retry")
                }
            },
            (Refund::Deducting { job, plan }, Reply::Done) => ask_gateway(job, plan),
            (Refund::AskingGateway { job, plan }, Reply::Refund { response }) => close(
                job,
                plan,
                Some(response),
                now,
            ),
            (Refund::AskingGateway { job, plan }, Reply::Error { message }) => rollback_deduction(
                job,
                plan,
                message,
                now,
            ),
            (Refund::RollingBack { job, plan, gateway_error }, Reply::Done) => restore(
                job,
                gateway_error,
            ),
            (Refund::RollingBack { job, plan, gateway_error }, Reply::Error { message }) => {
                let action = log_rollback_failure(
                    job.order.id.as_str(),
                    plan,
                    gateway_error.as_str(),
                    message.as_str(),
                );
                Step::Act { action, next: Refund::LoggingRollback { job, gateway_error } }
            },
            (Refund::LoggingRollback { job, gateway_error }, Reply::Done) => {
                let message = note(
                    "Gateway refund failed and rollback also failed: ",
                    gateway_error.as_str(),
                );
                fail_locked(job.order.id, message, now)
            },
            (Refund::Restoring { job, gateway_error }, Reply::Changed { changed: _ }) => {
                let detail = note(
                    "Gateway refund failed, deduction rolled back: ",
                    gateway_error.as_str(),
                );
                let action = flow::log(
                    job.order.id.as_str(),
                    "REFUND_GATEWAY_FAILED",
                    detail,
                    "admin",
                );
                Step::Act { action, next: Refund::LoggingRestore { job, gateway_error } }
            },
            (Refund::LoggingRestore { job, gateway_error }, Reply::Done) => {
                let mut warning = note("gateway refund failed: ", gateway_error.as_str());
                warning.append(", deduction rolled back");
                Step::Done {
                    result: Ok(
                        ProcessRefundResult {
                            success: false,
                            warning: Some(warning),
                            require_force: false,
                            balance_deducted_cents: 0,
                            subscription_days_deducted: 0,
                        },
                    ),
                }
            },
            (Refund::LoggingNoTrade { job, plan }, Reply::Done) => close(job, plan, None, now),
            (Refund::Closing { job, plan, gateway }, Reply::Changed { changed: _ }) => {
                let action = log_success(&job, plan, &gateway);
                Step::Act { action, next: Refund::LoggingSuccess { job, plan } }
            },
            (Refund::LoggingSuccess { job, plan }, Reply::Done) => Step::Done {
                result: Ok(
                    ProcessRefundResult {
                        success: true,
                        warning: None,
                        require_force: false,
                        balance_deducted_cents: plan.balance_amount_cents,
                        subscription_days_deducted: plan.subscription_days,
                    },
                ),
            },
            (Refund::Failing { order_id, message }, _) => {
                let action = flow::log(
                    order_id.as_str(),
                    "REFUND_FAILED",
                    message.clone(),
                    "admin",
                );
                Step::Act { action, next: Refund::LoggingFailure { message } }
            },
            (
                Refund::LoggingFailure { message },
                Reply::Done,
            ) => Step::Done { result: Err(message) },
            (s, Reply::Error { message }) => match s.into_locked_id() {
                Some(id) => fail_locked(id, message, now),
                None => Step::Done { result: Err(message) },
            },
            (s, _) => match s.into_locked_id() {
                Some(id) => fail_locked(id, "unexpected reply".to_owned(), now),
                None => flow::fail("unexpected reply"),
            },
        }
    }
}

// ---------------------------------------------------------------------------
// Laws
// ---------------------------------------------------------------------------
/// The job of a refund, once its amounts are settled.
pub open spec fn job_of(s: Refund) -> Option<RefundJob> {
    match s {
        Refund::ReadingKey { job, .. } => Some(job),
        Refund::GettingSubscriptions { job, .. } => Some(job),
        Refund::GettingUser { job } => Some(job),
        Refund::Claiming { job, .. } => Some(job),
        _ => locked(s),
    }
}

/// The plan of a refund, once it is made.
pub open spec fn plan_of(s: Refund) -> Option<DeductionPlan> {
    match s {
        Refund::Claiming { plan, .. } => Some(plan),
        Refund::Deducting { plan, .. } => Some(plan),
        Refund::AskingGateway { plan, .. } => Some(plan),
        Refund::RollingBack { plan, .. } => Some(plan),
        Refund::LoggingNoTrade { plan, .. } => Some(plan),
        Refund::Closing { plan, .. } => Some(plan),
        Refund::LoggingSuccess { plan, .. } => Some(plan),
        _ => None,
    }
}

/// A refund is of something, and of no more than was credited.
pub open spec fn job_fits(job: RefundJob) -> bool {
    0 < job.refund_cents <= job.order.amount_cents && repository::refundable_status(
        job.order.status@,
    )
}

/// No more is taken off the user than is refunded, nor more days than were sold; and
/// nothing where nothing is to be taken.
pub open spec fn plan_fits(job: RefundJob, plan: DeductionPlan) -> bool {
    &&& 0 <= plan.balance_amount_cents <= job.refund_cents
    &&& !job.deduct_balance ==> plan == no_deduction()
    &&& plan.subscription_id is Some ==> plan.balance_amount_cents == 0
        && job.order.subscription_days is Some && plan.subscription_days
        <= job.order.subscription_days->0
    &&& plan.subscription_id is None ==> plan.subscription_days == 0
}

/// What holds of every refund under way.
pub open spec fn refund_fits(s: Refund) -> bool {
    &&& job_of(s) matches Some(job) ==> job_fits(job) && (plan_of(s) matches Some(plan)
        ==> plan_fits(job, plan))
    &&& s matches Refund::GettingSubscriptions { job, group_id, days }
        ==> job.order.subscription_days == Some(days) && job.deduct_balance
    &&& s matches Refund::GettingUser { job } ==> job.deduct_balance
}

/// Every step keeps what holds of a refund: its amount is within what was credited,
/// and what is taken off the user is within that. A user's balance is not negative.
pub proof fn law_refund_stays_within_its_amount(
    s: Refund,
    reply: Reply,
    now: int,
    out: RefundStep,
)
    requires
        refund_step(s, reply, now, out),
        refund_fits(s),
        reply matches Reply::User { balance_cents: Some(b) } ==> b >= 0,
    ensures
        out matches Step::Act { action, next } ==> refund_fits(next),
{
    if let Step::Act { action, next } = out {
        match (s, reply) {
            (Refund::ReadingKey { job, platform }, Reply::Setting { value }) => {
                if fulfil::admin_key(db::opt_text(value)) is Some && platform {
                    let k = choose|k: String|
                        k@ == fulfil::admin_key(db::opt_text(value))->0 && #[trigger] prepares(
                            out,
                            (RefundJob { key: k, ..job }),
                        );
                    assert(prepares(out, (RefundJob { key: k, ..job })));
                }
            },
            _ => {},
        }
    }
}

/// A refund begins with what holds of every refund.
pub proof fn law_refund_begins_within_its_amount(input: ProcessRefundInput, platform: bool)
    ensures
        refund_fits(Refund::Loading { input, platform }),
{
}

/// Once the order is claimed, the refund goes on with the same job and the same plan.
pub proof fn law_claimed_refund_keeps_its_plan(s: Refund, reply: Reply, now: int, out: RefundStep)
    requires
        refund_step(s, reply, now, out),
        s is Claiming || locked(s) is Some,
    ensures
        out matches Step::Act { action, next } ==> {
            &&& locked(next) is Some ==> locked(next) == job_of(s)
            &&& plan_of(next) is Some ==> plan_of(next) == plan_of(s)
        },
{
}

/// One action undoes the other: the same money for the same user, or the same days of
/// the same subscription.
pub open spec fn undoes(back: Action, taken: Action) -> bool {
    match (taken, back) {
        (
            Action::SubtractBalance { user_id: u, amount_cents: c, admin_key: k, .. },
            Action::AddBalance { user_id, amount_cents, admin_key, .. },
        ) => user_id == u && amount_cents == c && admin_key@ == k@,
        (
            Action::ExtendSubscription { subscription_id: i, days: d, admin_key: k, .. },
            Action::ExtendSubscription { subscription_id, days, admin_key, .. },
        ) => subscription_id == i && days == -d && admin_key@ == k@,
        _ => false,
    }
}

/// Where the gateway refuses, exactly what was taken off the user is given back; and
/// where nothing was taken, the order is restored at once.
pub proof fn law_rollback_gives_back_what_was_taken(
    job: RefundJob,
    plan: DeductionPlan,
    taken: RefundStep,
    message: String,
    refused: RefundStep,
    then: int,
    now: int,
)
    requires
        refund_step(Refund::Claiming { job, plan }, Reply::Changed { changed: true }, then, taken),
        refund_step(Refund::AskingGateway { job, plan }, Reply::Error { message }, now, refused),
    ensures
        deducts(plan) ==> taken is Act && refused is Act && undoes(
            refused->action,
            taken->action,
        ),
        !deducts(plan) ==> restores(refused, job, message@),
{
}

/// The gateway is asked only after what is to be taken off the user was taken, and
/// the order is closed as refunded only after the gateway agreed, or where the order
/// has no payment there.
pub proof fn law_refund_follows_its_order(s: Refund, reply: Reply, now: int, out: RefundStep)
    requires
        refund_step(s, reply, now, out),
        out is Act,
    ensures
        out->action is GatewayRefund ==> (s is Deducting && reply is Done) || (s is Claiming
            && reply == (Reply::Changed { changed: true }) && !deducts(s->Claiming_plan)),
        out->action is MarkRefunded ==> (s is AskingGateway && reply is Refund) || (
        s is LoggingNoTrade && reply is Done),
        out->next is LoggingNoTrade ==> job_of(s) is Some && job_of(
            s,
        )->0.order.payment_trade_no is None,
        out->action is SubtractBalance ==> s is Claiming && reply == (Reply::Changed {
            changed: true,
        }),
{
    match (s, reply) {
        (Refund::ReadingKey { job, platform }, Reply::Setting { value }) => {
            if fulfil::admin_key(db::opt_text(value)) is Some && platform {
                let k = choose|k: String|
                    k@ == fulfil::admin_key(db::opt_text(value))->0 && #[trigger] prepares(
                        out,
                        (RefundJob { key: k, ..job }),
                    );
                assert(prepares(out, (RefundJob { key: k, ..job })));
            }
        },
        _ => {},
    }
}

/// A refund that claimed its order does not end before the order was closed, restored
/// or marked as failed: it ends only from the steps that log one of the three.
pub proof fn law_claimed_refund_is_settled(s: Refund, reply: Reply, now: int, out: RefundStep)
    requires
        refund_step(s, reply, now, out),
        locked(s) is Some || s is Failing,
        out is Done,
    ensures
        s is LoggingRestore || s is LoggingSuccess,
        s is LoggingSuccess ==> succeeds(out, s->LoggingSuccess_plan),
        s is LoggingRestore ==> undone(out, s->LoggingRestore_gateway_error@),
{
}

/// An order is closed as refunded in part exactly where less is refunded than was
/// credited, and both ends are ends of its life.
pub proof fn law_final_status(job: RefundJob, to: Seq<char>)
    requires
        job_fits(job),
    ensures
        final_status(job) == OrderStatus::PartiallyRefunded <==> job.refund_cents
            < job.order.amount_cents,
        final_status(job) == OrderStatus::Refunded <==> job.refund_cents
            == job.order.amount_cents,
        repository::may_follow(OrderStatus::Refunding.name(), final_status(job).name()),
        repository::may_follow(OrderStatus::Refunding.name(), restore_status(job.order).name()),
        !repository::may_follow(final_status(job).name(), to),
{
    repository::law_closed_orders_stay_closed(to);
}

// ---------------------------------------------------------------------------
// Laws on what is taken, asked for and told
// ---------------------------------------------------------------------------
/// A refund begins exactly for an order that is completed, has its refund asked for or whose
/// refund failed, and for an amount between a cent and what was credited. All that was
/// credited is refunded where no amount is given, and then all that was paid is asked for at
/// the gateway; else both are the amount.
pub proof fn law_refunds_are_of_what_was_sold(
    input: ProcessRefundInput,
    platform: bool,
    order: OrderRecord,
    now: int,
    out: RefundStep,
)
    requires
        refund_step(
            Refund::Loading { input, platform },
            Reply::Order { order: Some(order) },
            now,
            out,
        ),
    ensures
        ({
            let refundable = order.status@ == "COMPLETED"@ || order.status@ == "REFUND_REQUESTED"@
                || order.status@ == "REFUND_FAILED"@;
            let wanted = match input.amount_cents {
                Some(c) => c as int,
                None => order.amount_cents as int,
            };
            &&& out is Act <==> refundable && 1 <= wanted <= order.amount_cents
            &&& out matches Step::Act { next, .. } ==> {
                &&& next matches Refund::ReadingKey { job, .. }
                &&& job.order == order
                &&& job.refund_cents == wanted
                &&& input.amount_cents is Some ==> job.gateway_cents == wanted
                &&& input.amount_cents is None ==> job.gateway_cents == (
                match order.pay_amount_cents {
                    Some(paid) => paid,
                    None => order.amount_cents,
                })
                &&& job.force == input.force
                &&& job.deduct_balance == input.deduct_balance
            }
        }),
{
}

/// What is looked up before a refund: nothing where nothing is to be taken off the user; the
/// subscriptions of the buyer of a subscription; the balance of any other buyer.
pub proof fn law_refund_looks_up_what_it_takes(
    job: RefundJob,
    value: Option<String>,
    now: int,
    action: Action,
    next: Refund,
)
    requires
        refund_step(
            Refund::ReadingKey { job, platform: true },
            Reply::Setting { value },
            now,
            Step::Act { action, next },
        ),
    ensures
        !job.deduct_balance ==> action is ClaimRefund && next is Claiming
            && next->Claiming_plan == (DeductionPlan {
            balance_amount_cents: 0,
            subscription_days: 0,
            subscription_id: None,
        }),
        job.deduct_balance && job.order.order_type@ == "subscription"@
            && job.order.subscription_group_id is Some && job.order.subscription_days is Some ==> {
            &&& action matches Action::GetSubscriptions { user_id, .. }
            &&& user_id == job.order.user_id
            &&& next matches Refund::GettingSubscriptions { group_id, days, .. }
            &&& Some(group_id) == job.order.subscription_group_id
            &&& Some(days) == job.order.subscription_days
        },
        job.deduct_balance && job.order.order_type@ != "subscription"@ ==> {
            &&& action matches Action::GetUser { user_id, .. }
            &&& user_id == job.order.user_id
            &&& next is GettingUser
        },
        job_of(next) matches Some(j) ==> {
            &&& j.order == job.order
            &&& j.refund_cents == job.refund_cents
            &&& j.gateway_cents == job.gateway_cents
            &&& j.force == job.force
            &&& j.deduct_balance == job.deduct_balance
            &&& j.reason == job.reason
        },
        job_of(next) is Some,
{
    let out: RefundStep = Step::Act { action, next };
    let k = choose|k: String|
        k@ == fulfil::admin_key(db::opt_text(value))->0 && #[trigger] prepares(
            out,
            (RefundJob { key: k, ..job }),
        );
    assert(prepares(out, (RefundJob { key: k, ..job })));
}

/// Of a user whose balance is known, the most is taken that exceeds neither what is refunded
/// nor what is there, and no days.
pub proof fn law_refund_takes_the_balance_that_is_there(
    job: RefundJob,
    balance_cents: Option<i64>,
    now: int,
    out: RefundStep,
)
    requires
        job_fits(job),
        balance_cents matches Some(b) ==> b >= 0,
        refund_step(Refund::GettingUser { job }, Reply::User { balance_cents }, now, out),
    ensures
        out matches Step::Act {
            action: Action::ClaimRefund { order_id },
            next: Refund::Claiming { job: j, plan },
        } && order_id@ == job.order.id@ && j == job && {
            let taken = plan.balance_amount_cents;
            &&& plan.subscription_id is None && plan.subscription_days == 0
            &&& 0 <= taken <= job.refund_cents
            &&& balance_cents matches Some(b) ==> taken <= b && (taken == job.refund_cents
                || taken == b)
            &&& balance_cents is None ==> taken == 0
        },
{
}

/// Off a subscription order's buyer, days are taken of their first active subscription in the
/// group, and of no other: as many as the order was sold for, but no more than the days, the
/// last one begun or whole, that it still runs. Without such a subscription nothing is taken.
pub proof fn law_refund_takes_the_days_that_are_left(
    job: RefundJob,
    group_id: i64,
    days: i64,
    items: Vec<Sub2ApiSubscription>,
    now: int,
    out: RefundStep,
    i: int,
)
    requires
        refund_step(
            Refund::GettingSubscriptions { job, group_id, days },
            Reply::Subscriptions { items },
            now,
            out,
        ),
    ensures
        (forall|j: int|
            0 <= j < items@.len() ==> (#[trigger] items@[j]).group_id != group_id
                || items@[j].status@ != "active"@) ==> out is Act && out->action is ClaimRefund
            && out->next is Claiming && out->next->Claiming_plan == (DeductionPlan {
            balance_amount_cents: 0,
            subscription_days: 0,
            subscription_id: None,
        }),
        0 <= i < items@.len() && items@[i].group_id == group_id && items@[i].status@ == "active"@
            && (forall|j: int|
            0 <= j < i ==> (#[trigger] items@[j]).group_id != group_id || items@[j].status@
                != "active"@) ==> match clock::rfc3339_read(items@[i].expires_at@) {
            Err(_) => out is Done && out->result is Err,
            Ok(end) => {
                let left = end.timestamp - now;
                let plan = out->next->Claiming_plan;
                &&& out is Act && out->action is ClaimRefund && out->next is Claiming
                &&& plan.subscription_id == Some(items@[i].id)
                &&& plan.balance_amount_cents == 0
                &&& plan.subscription_days <= days
                &&& plan.subscription_days <= 0 || (plan.subscription_days - 1) * 86_400 < left
                &&& plan.subscription_days == days || (plan.subscription_days >= 0
                    && plan.subscription_days * 86_400 >= left)
            },
        },
{
    sub2api::law_picked_subscription_is_the_first_active(items@, group_id);
    if 0 <= i < items@.len() && items@[i].group_id == group_id && items@[i].status@ == "active"@
        && (forall|j: int|
        0 <= j < i ==> (#[trigger] items@[j]).group_id != group_id || items@[j].status@
            != "active"@) {
        sub2api::law_first_active_subscription_is_picked(items@, group_id, i);
        if let Ok(end) = clock::rfc3339_read(items@[i].expires_at@) {
            clock::law_days_left_are_begun_days(end.timestamp as int, now);
        }
    }
}

/// Where the user's holdings cannot be looked up, a refund goes on only by force, and then
/// takes nothing off the user; else it ends, nothing is done, and force is asked for.
pub proof fn law_unknown_holdings_need_force(
    s: Refund,
    job: RefundJob,
    message: String,
    now: int,
    out: RefundStep,
)
    requires
        s is GettingUser || s is GettingSubscriptions,
        job_of(s) == Some(job),
        refund_step(s, Reply::Error { message }, now, out),
    ensures
        job.force ==> out is Act && out->action is ClaimRefund && out->next is Claiming
            && out->next->Claiming_plan == (DeductionPlan {
            balance_amount_cents: 0,
            subscription_days: 0,
            subscription_id: None,
        }),
        !job.force ==> (out matches Step::Done { result: Ok(r) } && !r.success && r.require_force
            && r.warning is Some && r.balance_deducted_cents == 0 && r.subscription_days_deducted
            == 0),
{
}

/// From an order that was claimed, what was settled is taken, and told in the end: money off
/// the buyer's balance, or days off the subscription; and where nothing is to be taken, the
/// gateway is asked at once.
pub proof fn law_what_is_taken_is_what_is_told(
    job: RefundJob,
    plan: DeductionPlan,
    now: int,
    out: RefundStep,
    later: int,
    end: RefundStep,
)
    requires
        plan_fits(job, plan),
        refund_step(Refund::Claiming { job, plan }, Reply::Changed { changed: true }, now, out),
        refund_step(Refund::LoggingSuccess { job, plan }, Reply::Done, later, end),
    ensures
        end matches Step::Done { result: Ok(r) } && r.success && !r.require_force
            && r.warning is None && {
            &&& out is Act
            &&& r.balance_deducted_cents > 0 ==> (out->action matches Action::SubtractBalance {
                user_id,
                amount_cents,
                ..
            } && user_id == job.order.user_id && amount_cents == r.balance_deducted_cents)
            &&& r.balance_deducted_cents <= 0 && r.subscription_days_deducted > 0 ==> (
            out->action matches Action::ExtendSubscription { subscription_id, days, .. }
                && Some(subscription_id) == plan.subscription_id && days
                == -r.subscription_days_deducted)
            &&& r.balance_deducted_cents <= 0 && r.subscription_days_deducted <= 0
                ==> out->action is GatewayRefund || out->action is Audit
            &&& r.balance_deducted_cents == plan.balance_amount_cents
            &&& r.subscription_days_deducted == plan.subscription_days
        },
{
}

/// The gateway is asked to pay back the amount settled, of the payment and for the order; an
/// order without a payment there is not asked for.
pub proof fn law_gateway_is_asked_for_the_payment(
    s: Refund,
    reply: Reply,
    now: int,
    out: RefundStep,
    job: RefundJob,
)
    requires
        refund_step(s, reply, now, out),
        (s is Deducting && reply is Done) || (s is Claiming && reply == (Reply::Changed {
            changed: true,
        }) && s->Claiming_plan.balance_amount_cents <= 0 && s->Claiming_plan.subscription_days
            <= 0),
        job_of(s) == Some(job),
    ensures
        match job.order.payment_trade_no {
            None => out is Act && out->action is Audit && out->next is LoggingNoTrade,
            Some(trade) => out matches Step::Act {
                action: Action::GatewayRefund { refund_request },
                next,
            } && {
                &&& refund_request.trade_no@ == trade@
                &&& refund_request.order_id@ == job.order.id@
                &&& refund_request.amount_cents == job.gateway_cents
                &&& refund_request.payment_type@ == job.order.payment_type@
                &&& refund_request.reason@ == job.reason@
                &&& refund_request.provider_instance_id is Some
                    <==> job.order.provider_instance_id is Some
                &&& refund_request.provider_instance_id matches Some(i) ==> i@
                    == job.order.provider_instance_id->0@
                &&& next is AskingGateway
            },
        },
{
}

/// Once the gateway agreed, or where it need not be asked, the order is closed: with the
/// amount that was refunded, and as refunded in whole exactly where that is all that was
/// credited.
pub proof fn law_refunded_orders_are_closed(
    s: Refund,
    reply: Reply,
    now: int,
    out: RefundStep,
    job: RefundJob,
)
    requires
        refund_step(s, reply, now, out),
        (s is AskingGateway && reply is Refund) || (s is LoggingNoTrade && reply is Done),
        job_of(s) == Some(job),
        job_fits(job),
    ensures
        out matches Step::Act { action: Action::MarkRefunded { refund }, next } && {
            &&& refund.order_id@ == job.order.id@
            &&& refund.refund_amount_cents == job.refund_cents
            &&& refund.refund_reason@ == job.reason@
            &&& refund.refund_at == now
            &&& refund.force_refund == job.force
            &&& job.refund_cents == job.order.amount_cents ==> refund.status@ == "REFUNDED"@
            &&& job.refund_cents < job.order.amount_cents ==> refund.status@
                == "PARTIALLY_REFUNDED"@
            &&& next is Closing
        },
{
}

/// Where the gateway refuses and what was taken was given back, the order returns to what it
/// was: to its refund being asked for, or else to completed. The refund then ends without
/// success, with nothing taken.
pub proof fn law_refused_refunds_leave_the_order(
    s: Refund,
    job: RefundJob,
    reply: Reply,
    now: int,
    out: RefundStep,
    gateway_error: String,
    later: int,
    end: RefundStep,
)
    requires
        refund_step(s, reply, now, out),
        (s is RollingBack && reply is Done) || (s is AskingGateway && reply is Error
            && s->AskingGateway_plan.balance_amount_cents <= 0
            && s->AskingGateway_plan.subscription_days <= 0),
        job_of(s) == Some(job),
        refund_step(Refund::LoggingRestore { job, gateway_error }, Reply::Done, later, end),
    ensures
        out matches Step::Act { action: Action::RestoreAfterRefund { order_id, status }, next }
            && order_id@ == job.order.id@ && next is Restoring && (if job.order.status@
            == "REFUND_REQUESTED"@ {
            status is RefundRequested
        } else {
            status is Completed
        }),
        end matches Step::Done { result: Ok(r) } && !r.success && !r.require_force
            && r.balance_deducted_cents == 0 && r.subscription_days_deducted == 0
            && r.warning is Some,
{
}

/// A refund whose money could not be given back fails, and its order with it.
pub proof fn law_failed_rollbacks_fail_the_order(
    job: RefundJob,
    plan: DeductionPlan,
    gateway_error: String,
    message: String,
    now: int,
    logged: RefundStep,
    later: int,
    failed: RefundStep,
)
    requires
        refund_step(
            Refund::RollingBack { job, plan, gateway_error },
            Reply::Error { message },
            now,
            logged,
        ),
        logged is Act,
        refund_step(logged->next, Reply::Done, later, failed),
    ensures
        logged->action is Audit,
        failed matches Step::Act { action: Action::MarkRefundFailed { order_id, at, .. }, next }
            && order_id@ == job.order.id@ && at == later && next is Failing,
{
}

/// What a recharge order's buyer loses is the lesser of the refund and the balance that they
/// have, and nothing where the balance is not known.
pub proof fn law_buyers_lose_what_they_have(
    job: RefundJob,
    balance_cents: Option<i64>,
    now: i64,
    out: RefundStep,
)
    requires
        job.refund_cents >= 0,
        balance_cents matches Some(b) ==> b >= 0,
        call_ensures(
            Refund::next,
            (Refund::GettingUser { job }, Reply::User { balance_cents }, now),
            out,
        ),
    ensures
        out matches Step::Act { action: Action::ClaimRefund { .. }, next: Refund::Claiming {
            job: j,
            plan,
        } } && j == job && {
            let taken = plan.balance_amount_cents;
            &&& balance_cents matches Some(b) ==> taken <= b && taken <= job.refund_cents && (taken
                == b || taken == job.refund_cents)
            &&& balance_cents is None ==> taken == 0
        },
{
}

/// A refund goes on by steps.
pub proof fn law_refund_goes_on_by_steps(s: Refund, reply: Reply, now: i64, out: RefundStep)
    requires
        call_ensures(Refund::next, (s, reply, now), out),
    ensures
        refund_step(s, reply, now as int, out),
{
}

/// A refund begins with its order.
pub proof fn law_refund_begins_with_its_order(
    input: ProcessRefundInput,
    platform: bool,
    out: RefundStep,
)
    requires
        call_ensures(Refund::start, (input, platform), out),
    ensures
        out matches Step::Act { action: Action::LoadOrder { order_id }, next: Refund::Loading {
            input: i,
            platform: p,
        } } && order_id@ == input.order_id@ && i == input && p == platform,
{
}

/// The note of a refund tells what was refunded, what was taken and what the gateway said.
pub proof fn law_refunds_are_noted(
    job: RefundJob,
    plan: DeductionPlan,
    gateway: Option<RefundPaymentResponse>,
)
    ensures
        ({
            let m = success_members(job, plan, gateway);
            &&& m.contains(("refundAmountCents"@, text::decimal(job.refund_cents as int)))
            &&& m.contains(
                ("rechargeAmountCents"@, text::decimal(job.order.amount_cents as int)),
            )
            &&& m.contains(
                ("gatewayRefundAmountCents"@, text::decimal(job.gateway_cents as int)),
            )
            &&& m.contains(
                ("balanceDeductedCents"@, text::decimal(plan.balance_amount_cents as int)),
            )
            &&& m.contains(
                ("subscriptionDaysDeducted"@, text::decimal(plan.subscription_days as int)),
            )
            &&& m.contains(("reason"@, json::json_quoted(job.reason@)))
            &&& job.force ==> m.contains(("force"@, "true"@))
            &&& !job.force ==> m.contains(("force"@, "false"@))
            &&& gateway matches Some(g) ==> m.contains(
                ("gatewayRefundId"@, json::json_quoted(g.refund_id@)),
            )
        }),
        success_kind(job) == "PARTIAL_REFUND_SUCCESS"@ <==> job.refund_cents
            < job.order.amount_cents,
        success_kind(job) == "REFUND_SUCCESS"@ <==> job.refund_cents >= job.order.amount_cents,
{
    let m = success_members(job, plan, gateway);
    assert(m[0].0 == "balanceDeductedCents"@);
    assert(m[2].0 == "force"@);
    assert(m[4].0 == "gatewayRefundAmountCents"@);
    assert(m[5].0 == "gatewayRefundId"@);
    assert(m[7].0 == "reason"@);
    assert(m[8].0 == "rechargeAmountCents"@);
    assert(m[9].0 == "refundAmountCents"@);
    assert(m[10].0 == "subscriptionDaysDeducted"@);
    reveal_strlit("PARTIAL_REFUND_SUCCESS");
    reveal_strlit("REFUND_SUCCESS");
    assert("PARTIAL_REFUND_SUCCESS"@.len() != "REFUND_SUCCESS"@.len());
}

/// Each end of a refund is noted with its order by an administrator: that it went through, that
/// the gateway refused, that nothing could be put back, or that it failed otherwise.
pub proof fn law_ends_of_refunds_are_noted(
    job: RefundJob,
    plan: DeductionPlan,
    gateway: Option<RefundPaymentResponse>,
    gateway_error: String,
    message: String,
    reply: Reply,
    changed: bool,
    now: int,
    closed: RefundStep,
    restored: RefundStep,
    stuck: RefundStep,
    failed: RefundStep,
)
    requires
        refund_step(Refund::Closing { job, plan, gateway }, Reply::Changed { changed }, now, closed),
        refund_step(
            Refund::Restoring { job, gateway_error },
            Reply::Changed { changed },
            now,
            restored,
        ),
        refund_step(
            Refund::RollingBack { job, plan, gateway_error },
            Reply::Error { message },
            now,
            stuck,
        ),
        refund_step(Refund::Failing { order_id: job.order.id, message }, reply, now, failed),
    ensures
        closed matches Step::Act { action: Action::Audit { entry }, .. } && entry.order_id@
            == job.order.id@ && (job.refund_cents < job.order.amount_cents ==> entry.action@
            == "PARTIAL_REFUND_SUCCESS"@) && (job.refund_cents >= job.order.amount_cents
            ==> entry.action@ == "REFUND_SUCCESS"@) && (entry.operator matches Some(o) && o@
            == "admin"@),
        restored matches Step::Act { action: Action::Audit { entry }, .. } && entry.order_id@
            == job.order.id@ && entry.action@ == "REFUND_GATEWAY_FAILED"@ && (
        entry.detail matches Some(d) && d@ == "Gateway refund failed, deduction rolled back: "@
            + gateway_error@) && (entry.operator matches Some(o) && o@ == "admin"@),
        stuck matches Step::Act { action: Action::Audit { entry }, .. } && entry.order_id@
            == job.order.id@ && entry.action@ == "REFUND_ROLLBACK_FAILED"@ && entry.detail is Some
            && (entry.operator matches Some(o) && o@ == "admin"@),
        failed matches Step::Act { action: Action::Audit { entry }, .. } && entry.order_id@
            == job.order.id@ && entry.action@ == "REFUND_FAILED"@ && (entry.detail matches Some(d)
            && d@ == message@) && (entry.operator matches Some(o) && o@ == "admin"@),
        plan.subscription_id is Some ==> stuck->action->entry.detail->0@ == json::object_text(
            seq![
                ("gatewayError"@, json::json_quoted(gateway_error@)),
                ("rollbackError"@, json::json_quoted(message@)),
                ("subscriptionDaysDeducted"@, text::decimal(plan.subscription_days as int)),
            ],
        ),
        plan.subscription_id is None ==> stuck->action->entry.detail->0@ == json::object_text(
            seq![
                ("balanceDeductedCents"@, text::decimal(plan.balance_amount_cents as int)),
                ("gatewayError"@, json::json_quoted(gateway_error@)),
                ("needsBalanceCompensation"@, "true"@),
                ("rollbackError"@, json::json_quoted(message@)),
            ],
        ),
{
}

/// The note of a refund tells what the gateway said where it was asked, and nothing of it where
/// it was not.
pub proof fn law_gateways_are_noted(
    job: RefundJob,
    plan: DeductionPlan,
    gateway: Option<RefundPaymentResponse>,
)
    ensures
        ({
            let m = success_members(job, plan, gateway);
            &&& gateway matches Some(g) ==> m.contains(
                ("gatewayProvider"@, json::json_quoted(g.provider_name@)),
            ) && m.contains(("gatewayStatus"@, json::json_quoted(g.status@)))
            &&& gateway is None ==> m.contains(("gatewayProvider"@, "null"@)) && m.contains(
                ("gatewayStatus"@, "null"@),
            ) && m.contains(("gatewayRefundId"@, "null"@))
            &&& job.deduct_balance ==> m.contains(("deductBalance"@, "true"@))
            &&& !job.deduct_balance ==> m.contains(("deductBalance"@, "false"@))
            &&& m.len() == 11
        }),
{
    let m = success_members(job, plan, gateway);
    assert(m[1].0 == "deductBalance"@);
    assert(m[3].0 == "gatewayProvider"@);
    assert(m[5].0 == "gatewayRefundId"@);
    assert(m[6].0 == "gatewayStatus"@);
}

/// A refund that is refused is refused for what is wrong with it, the state of its order first.
pub proof fn law_refunds_are_refused_for_a_reason(o: OrderRecord, asked: Option<i64>)
    ensures
        refund_refused(None, asked) == Some("order not found"@),
        o.status@ == "PENDING"@ || o.status@ == "PAID"@ || o.status@ == "REFUNDED"@ ==> (
        refund_refused(Some(o), asked) == Some("order is not refundable in current status"@)),
        o.status@ == "COMPLETED"@ && (asked matches Some(c) && c <= 0) ==> refund_refused(
            Some(o),
            asked,
        ) == Some("refund amount must be positive"@),
        o.status@ == "COMPLETED"@ && (asked matches Some(c) && c > 0 && c > o.amount_cents)
            ==> refund_refused(Some(o), asked) == Some("refund amount exceeds recharge amount"@),
        o.status@ == "COMPLETED"@ && (asked matches Some(c) && 0 < c <= o.amount_cents)
            ==> refund_refused(Some(o), asked) is None,
{
    reveal_strlit("PENDING");
    reveal_strlit("PAID");
    reveal_strlit("COMPLETED");
    reveal_strlit("REFUND_REQUESTED");
    reveal_strlit("REFUNDED");
    reveal_strlit("REFUND_FAILED");
    assert("PENDING"@.len() == 7 && "PAID"@.len() == 4 && "COMPLETED"@.len() == 9
        && "REFUND_REQUESTED"@.len() == 16 && "REFUNDED"@.len() == 8 && "REFUND_FAILED"@.len()
        == 13);
}


/// The reason of a refund is the one given, or else the buyer's own, or else a note of the
/// order; a blank one is none.
pub proof fn law_refunds_have_a_reason(order: OrderRecord, given: Option<Seq<char>>)
    ensures
        ({
            let blank = given is None || text::trimmed(given->0).len() == 0;
            &&& !blank ==> refund_reason(order, given) == text::trimmed(given->0)
            &&& blank && order.refund_request_reason is Some ==> refund_reason(order, given)
                == order.refund_request_reason->0@
            &&& blank && order.refund_request_reason is None ==> refund_reason(order, given)
                == "sub2apipay refund order:"@ + order.id@
            &&& filled(given) is None <==> blank
        }),
{
}

}
