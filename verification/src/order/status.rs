//! The states of an order, as the database names them, and what they mean for
//! the person who placed it.
use vstd::prelude::*;

use crate::text;

verus! {

#[derive(Debug, Clone, Copy, PartialEq, Eq, Structural)]
pub enum OrderStatus {
    Pending,
    Paid,
    Recharging,
    Completed,
    Expired,
    Cancelled,
    Failed,
    RefundRequested,
    Refunding,
    PartiallyRefunded,
    Refunded,
    RefundFailed,
}

impl OrderStatus {
    /// The name by which the database stores the status.
    pub open spec fn name(self) -> Seq<char> {
        match self {
            OrderStatus::Pending => "PENDING"@,
            OrderStatus::Paid => "PAID"@,
            OrderStatus::Recharging => "RECHARGING"@,
            OrderStatus::Completed => "COMPLETED"@,
            OrderStatus::Expired => "EXPIRED"@,
            OrderStatus::Cancelled => "CANCELLED"@,
            OrderStatus::Failed => "FAILED"@,
            OrderStatus::RefundRequested => "REFUND_REQUESTED"@,
            OrderStatus::Refunding => "REFUNDING"@,
            OrderStatus::PartiallyRefunded => "PARTIALLY_REFUNDED"@,
            OrderStatus::Refunded => "REFUNDED"@,
            OrderStatus::RefundFailed => "REFUND_FAILED"@,
        }
    }

    pub fn as_str(&self) -> (r: &'static str)
        ensures
            r@ == self.name(),
    {
        match self {
            OrderStatus::Pending => "PENDING",
            OrderStatus::Paid => "PAID",
            OrderStatus::Recharging => "RECHARGING",
            OrderStatus::Completed => "COMPLETED",
            OrderStatus::Expired => "EXPIRED",
            OrderStatus::Cancelled => "CANCELLED",
            OrderStatus::Failed => "FAILED",
            OrderStatus::RefundRequested => "REFUND_REQUESTED",
            OrderStatus::Refunding => "REFUNDING",
            OrderStatus::PartiallyRefunded => "PARTIALLY_REFUNDED",
            OrderStatus::Refunded => "REFUNDED",
            OrderStatus::RefundFailed => "REFUND_FAILED",
        }
    }
}

/// Whether the stored text `status` names `s`.
pub fn is_status(status: &str, s: OrderStatus) -> (r: bool)
    ensures
        r == (status@ == s.name()),
{
    text::same(status, s.as_str())
}

proof fn lemma_name_shape(s: OrderStatus)
    ensures
        s.name().len() == match s {
            OrderStatus::Pending => 7nat,
            OrderStatus::Paid => 4,
            OrderStatus::Recharging => 10,
            OrderStatus::Completed => 9,
            OrderStatus::Expired => 7,
            OrderStatus::Cancelled => 9,
            OrderStatus::Failed => 6,
            OrderStatus::RefundRequested => 16,
            OrderStatus::Refunding => 9,
            OrderStatus::PartiallyRefunded => 18,
            OrderStatus::Refunded => 8,
            OrderStatus::RefundFailed => 13,
        },
        s == OrderStatus::Pending ==> s.name()[0] == 'P',
        s == OrderStatus::Expired ==> s.name()[0] == 'E',
        s == OrderStatus::Completed ==> s.name()[1] == 'O',
        s == OrderStatus::Cancelled ==> s.name()[1] == 'A',
        s == OrderStatus::Refunding ==> s.name()[1] == 'E',
{
    reveal_strlit("PENDING");
    reveal_strlit("PAID");
    reveal_strlit("RECHARGING");
    reveal_strlit("COMPLETED");
    reveal_strlit("EXPIRED");
    reveal_strlit("CANCELLED");
    reveal_strlit("FAILED");
    reveal_strlit("REFUND_REQUESTED");
    reveal_strlit("REFUNDING");
    reveal_strlit("PARTIALLY_REFUNDED");
    reveal_strlit("REFUNDED");
    reveal_strlit("REFUND_FAILED");
}

/// No two statuses share a name.
pub proof fn law_status_names_distinct(a: OrderStatus, b: OrderStatus)
    ensures
        a.name() == b.name() <==> a == b,
{
    lemma_name_shape(a);
    lemma_name_shape(b);
}

#[derive(Debug, Clone, Copy, PartialEq, Eq, Structural)]
pub enum RechargeStatus {
    NotPaid,
    PaidPending,
    Recharging,
    Success,
    Failed,
    Closed,
}

#[derive(Debug, Clone, Copy, PartialEq, Eq, Structural)]
pub struct DerivedOrderState {
    pub payment_success: bool,
    pub recharge_success: bool,
    pub recharge_status: RechargeStatus,
}

/// Anything that has an order's status, and the times at which it was paid and
/// completed.
pub trait OrderStatusLike {
    spec fn status_text(&self) -> Seq<char>;

    spec fn paid_time(&self) -> Option<i64>;

    spec fn completed_time(&self) -> Option<i64>;

    fn status(&self) -> (r: &str)
        ensures
            r@ == self.status_text(),
    ;

    fn paid_at(&self) -> (r: Option<i64>)
        ensures
            r == self.paid_time(),
    ;

    fn completed_at(&self) -> (r: Option<i64>)
        ensures
            r == self.completed_time(),
    ;
}

/// The statuses of an order for which a refund was asked, is under way, or has
/// ended one way or the other.
pub open spec fn refund_related(status: Seq<char>) -> bool {
    ||| status == OrderStatus::RefundRequested.name()
    ||| status == OrderStatus::Refunding.name()
    ||| status == OrderStatus::PartiallyRefunded.name()
    ||| status == OrderStatus::Refunded.name()
    ||| status == OrderStatus::RefundFailed.name()
}

pub fn is_refund_status(status: &str) -> (r: bool)
    ensures
        r == refund_related(status@),
{
    is_status(status, OrderStatus::RefundRequested) || is_status(status, OrderStatus::Refunding)
        || is_status(status, OrderStatus::PartiallyRefunded) || is_status(
        status,
        OrderStatus::Refunded,
    ) || is_status(status, OrderStatus::RefundFailed)
}

/// A recharge can be tried again where the order was paid and its recharge failed.
pub open spec fn retryable(status: Seq<char>, paid_at: Option<i64>) -> bool {
    paid_at is Some && status == OrderStatus::Failed.name()
}

pub fn is_recharge_retryable<T: OrderStatusLike>(order: &T) -> (r: bool)
    ensures
        r == retryable(order.status_text(), order.paid_time()),
{
    proof {
        law_status_names_distinct(OrderStatus::Failed, OrderStatus::RefundRequested);
        law_status_names_distinct(OrderStatus::Failed, OrderStatus::Refunding);
        law_status_names_distinct(OrderStatus::Failed, OrderStatus::PartiallyRefunded);
        law_status_names_distinct(OrderStatus::Failed, OrderStatus::Refunded);
        law_status_names_distinct(OrderStatus::Failed, OrderStatus::RefundFailed);
    }
    order.paid_at().is_some() && is_status(order.status(), OrderStatus::Failed)
        && !is_refund_status(order.status())
}

/// How far the recharge of an order has come.
pub open spec fn recharge_status_of(
    status: Seq<char>,
    paid: bool,
    completed: bool,
) -> RechargeStatus {
    if completed || status == OrderStatus::Completed.name() {
        RechargeStatus::Success
    } else if status == OrderStatus::Recharging.name() {
        RechargeStatus::Recharging
    } else if status == OrderStatus::Failed.name() {
        RechargeStatus::Failed
    } else if status == OrderStatus::Expired.name() || status == OrderStatus::Cancelled.name()
        || refund_related(status) {
        RechargeStatus::Closed
    } else if paid {
        RechargeStatus::PaidPending
    } else {
        RechargeStatus::NotPaid
    }
}

pub open spec fn derived(
    status: Seq<char>,
    paid_at: Option<i64>,
    completed_at: Option<i64>,
) -> DerivedOrderState {
    let recharge_status = recharge_status_of(status, paid_at is Some, completed_at is Some);
    DerivedOrderState {
        payment_success: paid_at is Some,
        recharge_success: recharge_status == RechargeStatus::Success,
        recharge_status,
    }
}

pub fn derive_order_state<T: OrderStatusLike>(order: &T) -> (r: DerivedOrderState)
    ensures
        r == derived(order.status_text(), order.paid_time(), order.completed_time()),
{
    let payment_success = order.paid_at().is_some();
    let status = order.status();
    let recharge_status = if order.completed_at().is_some() || is_status(
        status,
        OrderStatus::Completed,
    ) {
        RechargeStatus::Success
    } else if is_status(status, OrderStatus::Recharging) {
        RechargeStatus::Recharging
    } else if is_status(status, OrderStatus::Failed) {
        RechargeStatus::Failed
    } else if is_status(status, OrderStatus::Expired) || is_status(status, OrderStatus::Cancelled)
        || is_refund_status(status) {
        RechargeStatus::Closed
    } else if payment_success {
        RechargeStatus::PaidPending
    } else {
        RechargeStatus::NotPaid
    };
    DerivedOrderState {
        payment_success,
        recharge_success: recharge_status == RechargeStatus::Success,
        recharge_status,
    }
}

/// An order whose recharge can be tried again is shown as paid, and its recharge
/// as failed unless it had been completed before.
pub proof fn law_retryable_is_paid_and_failed(
    status: Seq<char>,
    paid_at: Option<i64>,
    completed_at: Option<i64>,
)
    requires
        retryable(status, paid_at),
    ensures
        derived(status, paid_at, completed_at).payment_success,
        !refund_related(status),
        completed_at is None ==> derived(status, paid_at, completed_at).recharge_status
            == RechargeStatus::Failed,
{
    law_status_names_distinct(OrderStatus::Failed, OrderStatus::Completed);
    law_status_names_distinct(OrderStatus::Failed, OrderStatus::Recharging);
    law_status_names_distinct(OrderStatus::Failed, OrderStatus::RefundRequested);
    law_status_names_distinct(OrderStatus::Failed, OrderStatus::Refunding);
    law_status_names_distinct(OrderStatus::Failed, OrderStatus::PartiallyRefunded);
    law_status_names_distinct(OrderStatus::Failed, OrderStatus::Refunded);
    law_status_names_distinct(OrderStatus::Failed, OrderStatus::RefundFailed);
}

/// The names under which the database keeps the statuses.
pub proof fn law_statuses_are_stored_by_name(s: OrderStatus)
    ensures
        s is Pending ==> s.name() == "PENDING"@,
        s is Paid ==> s.name() == "PAID"@,
        s is Recharging ==> s.name() == "RECHARGING"@,
        s is Completed ==> s.name() == "COMPLETED"@,
        s is Expired ==> s.name() == "EXPIRED"@,
        s is Cancelled ==> s.name() == "CANCELLED"@,
        s is Failed ==> s.name() == "FAILED"@,
        s is RefundRequested ==> s.name() == "REFUND_REQUESTED"@,
        s is Refunding ==> s.name() == "REFUNDING"@,
        s is PartiallyRefunded ==> s.name() == "PARTIALLY_REFUNDED"@,
        s is Refunded ==> s.name() == "REFUNDED"@,
        s is RefundFailed ==> s.name() == "REFUND_FAILED"@,
{
}

/// What a buyer is shown of an order: that it was paid wherever it has a time of payment; that
/// it was credited wherever it has a time of completion or is completed, and nowhere else; and
/// for an order that was not credited, whether the crediting is under way, failed, no longer
/// to be expected, to be expected, or has to wait for the payment.
pub proof fn law_shown_state_follows_the_order(
    status: OrderStatus,
    paid_at: Option<i64>,
    completed_at: Option<i64>,
)
    ensures
        ({
            let shown = derived(status.name(), paid_at, completed_at);
            let credited = completed_at is Some || status is Completed;
            &&& shown.payment_success <==> paid_at is Some
            &&& shown.recharge_success <==> credited
            &&& shown.recharge_status is Success <==> credited
            &&& shown.recharge_status is Recharging <==> !credited && status is Recharging
            &&& shown.recharge_status is Failed <==> !credited && status is Failed
            &&& shown.recharge_status is Closed <==> !credited && (status is Expired
                || status is Cancelled || status is RefundRequested || status is Refunding
                || status is PartiallyRefunded || status is Refunded || status is RefundFailed)
            &&& shown.recharge_status is PaidPending <==> !credited && paid_at is Some && (
            status is Pending || status is Paid)
            &&& shown.recharge_status is NotPaid <==> !credited && paid_at is None && (
            status is Pending || status is Paid)
        }),
{
    law_status_names_distinct(status, OrderStatus::Completed);
    law_status_names_distinct(status, OrderStatus::Recharging);
    law_status_names_distinct(status, OrderStatus::Failed);
    law_status_names_distinct(status, OrderStatus::Expired);
    law_status_names_distinct(status, OrderStatus::Cancelled);
    law_status_names_distinct(status, OrderStatus::RefundRequested);
    law_status_names_distinct(status, OrderStatus::Refunding);
    law_status_names_distinct(status, OrderStatus::PartiallyRefunded);
    law_status_names_distinct(status, OrderStatus::Refunded);
    law_status_names_distinct(status, OrderStatus::RefundFailed);
}

/// A recharge may be tried again exactly for an order that was paid and whose recharge failed.
pub proof fn law_only_failed_recharges_are_retried(status: OrderStatus, paid_at: Option<i64>)
    ensures
        retryable(status.name(), paid_at) <==> paid_at is Some && status is Failed,
        refund_related(status.name()) <==> status is RefundRequested || status is Refunding
            || status is PartiallyRefunded || status is Refunded || status is RefundFailed,
{
    law_status_names_distinct(status, OrderStatus::Failed);
    law_status_names_distinct(status, OrderStatus::RefundRequested);
    law_status_names_distinct(status, OrderStatus::Refunding);
    law_status_names_distinct(status, OrderStatus::PartiallyRefunded);
    law_status_names_distinct(status, OrderStatus::Refunded);
    law_status_names_distinct(status, OrderStatus::RefundFailed);
}

}
