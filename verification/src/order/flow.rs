//! The steps by which work on an order goes on.
//!
//! Work that needs the database, the platform or a payment gateway is a state
//! machine. Each step either ends the work or asks for one action; the reply to that
//! action, with the current time, is what the next step looks at.
use vstd::prelude::*;

use crate::order::audit;
use crate::order::audit::NewAuditLog;
use crate::order::repository::{
    MarkPaidInput, MarkRefundRequestedInput, MarkRefundedInput, OrderRecord,
};
use crate::order::status::OrderStatus;
use crate::payment_provider::{RefundPaymentRequest, RefundPaymentResponse};
use crate::sub2api::{Sub2ApiGroup, Sub2ApiSubscription};
use crate::subscription_plan::SubscriptionPlanRecord;

verus! {

/// What a step asks to be done.
pub enum Action {
    /// Load the order.
    LoadOrder { order_id: String },
    /// Close the order under the status if it is pending.
    MarkIfPending { order_id: String, status: OrderStatus },
    /// Take the payment if the order is payable.
    MarkPaid { payment: MarkPaidInput },
    /// Claim the order for crediting if it is paid or failed.
    ClaimRecharge { order_id: String },
    /// Put the order back to paid if it can be retried.
    ResetToPaid { order_id: String },
    /// End the crediting of the order as completed.
    MarkCompleted { order_id: String, at: i64 },
    /// End the crediting of the order as failed if it was claimed.
    MarkFailed { order_id: String, reason: String, at: i64 },
    /// Note that the buyer asks for a refund, if the order is theirs and completed.
    MarkRefundRequested { request: MarkRefundRequestedInput },
    /// Claim the order for its refund if it is refundable.
    ClaimRefund { order_id: String },
    /// Return the order, if it was claimed for its refund, to the status.
    RestoreAfterRefund { order_id: String, status: OrderStatus },
    /// End the refund of the order as failed if it was claimed.
    MarkRefundFailed { order_id: String, reason: String, at: i64 },
    /// End the refund of the order as done if it was claimed.
    MarkRefunded { refund: MarkRefundedInput },
    /// Write an entry to the audit log.
    Audit { entry: NewAuditLog },
    /// Read a setting.
    ReadSetting { key: &'static str },
    /// Load a subscription plan.
    LoadPlan { plan_id: String },
    /// Ask the platform for a user.
    GetUser { user_id: i64, admin_key: String },
    /// Ask the platform for a group.
    GetGroup { group_id: i64, admin_key: String },
    /// Ask the platform for a user's subscriptions.
    GetSubscriptions { user_id: i64, admin_key: String },
    /// Credit a user on the platform, once for each code.
    RedeemBalance {
        code: String,
        amount_cents: i64,
        user_id: i64,
        notes: String,
        admin_key: String,
    },
    /// Grant a user a subscription on the platform, once for each code.
    RedeemSubscription {
        code: String,
        amount_cents: i64,
        user_id: i64,
        notes: String,
        group_id: i64,
        days: i64,
        admin_key: String,
    },
    /// Take money off a user's balance on the platform.
    SubtractBalance {
        user_id: i64,
        amount_cents: i64,
        notes: String,
        idempotency_key: String,
        admin_key: String,
    },
    /// Put money on a user's balance on the platform.
    AddBalance {
        user_id: i64,
        amount_cents: i64,
        notes: String,
        idempotency_key: String,
        admin_key: String,
    },
    /// Lengthen a subscription on the platform, or shorten it by negative days.
    ExtendSubscription {
        subscription_id: i64,
        days: i64,
        idempotency_key: String,
        admin_key: String,
    },
    /// Ask the payment gateway for a refund.
    GatewayRefund { refund_request: RefundPaymentRequest },
}

/// What came of an action.
pub enum Reply {
    /// It failed, for the given reason.
    Error { message: String },
    /// It was done, with nothing to tell.
    Done,
    /// Whether a guarded change took place.
    Changed { changed: bool },
    Order { order: Option<OrderRecord> },
    Setting { value: Option<String> },
    Plan { plan: Option<SubscriptionPlanRecord> },
    /// A user, with the balance in cents where it is known and not negative.
    User { balance_cents: Option<i64> },
    Group { group: Option<Sub2ApiGroup> },
    Subscriptions { items: Vec<Sub2ApiSubscription> },
    Refund { response: RefundPaymentResponse },
}

/// One step: an action to take with the state to go on from, or the end.
pub enum Step<S, T> {
    Act { action: Action, next: S },
    Done { result: Result<T, String> },
}

pub open spec fn done<S, T>(out: Step<S, T>, value: T) -> bool {
    out matches Step::Done { result: Ok(v) } && v == value
}

pub open spec fn fails<S, T>(out: Step<S, T>, message: Seq<char>) -> bool {
    out matches Step::Done { result: Err(m) } && m@ == message
}

/// The text with which work ends that is handed a reply to another action.
pub open spec fn unexpected() -> Seq<char> {
    "unexpected reply"@
}

pub fn fail<S, T>(message: &str) -> (r: Step<S, T>)
    ensures
        fails(r, message@),
{
    Step::Done { result: Err(message.to_owned()) }
}

pub open spec fn loads(a: Action, id: Seq<char>) -> bool {
    a matches Action::LoadOrder { order_id } && order_id@ == id
}

/// The platform's administration key is asked for.
pub open spec fn reads_key(a: Action) -> bool {
    a matches Action::ReadSetting { key } && key@ == "SUB2API_ADMIN_API_KEY"@
}

pub fn read_key() -> (r: Action)
    ensures
        reads_key(r),
{
    Action::ReadSetting { key: "SUB2API_ADMIN_API_KEY" }
}

pub open spec fn audits(
    a: Action,
    order_id: Seq<char>,
    action: Seq<char>,
    detail: Seq<char>,
    operator: Seq<char>,
) -> bool {
    a matches Action::Audit { entry } && audit::entry(entry, order_id, action, detail, operator)
}

pub fn load(id: &str) -> (r: Action)
    ensures
        loads(r, id@),
{
    Action::LoadOrder { order_id: id.to_owned() }
}

pub fn log(order_id: &str, action: &str, detail: String, operator: &str) -> (r: Action)
    ensures
        audits(r, order_id@, action@, detail@, operator@),
{
    Action::Audit { entry: audit::new_entry(order_id, action, detail, operator) }
}

}
