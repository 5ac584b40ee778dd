//! Cancelling an order that awaits payment.
use vstd::prelude::*;

use crate::order::flow;
use crate::order::flow::{Action, Reply, Step};
use crate::order::fulfil;
use crate::order::fulfil::Fulfil;
use crate::order::repository;
use crate::order::repository::OrderRecord;
use crate::order::status::{is_status, OrderStatus};
use crate::subscription_plan;
use crate::text;

verus! {

#[derive(Debug, Clone, Copy, PartialEq, Eq, Structural)]
pub enum CancelOrderOutcome {
    Cancelled,
    AlreadyPaid,
}

/// Who cancels an order.
#[derive(Debug, Clone, Copy, PartialEq, Eq, Structural)]
pub enum Canceller {
    Admin,
    User { user_id: i64 },
}

/// Where the cancellation of an order stands.
pub enum Cancel {
    Loading { order_id: String, by: Canceller, platform: bool },
    Marking { order_id: String, by: Canceller, platform: bool },
    Logging,
    /// The order was no longer pending when it was to be closed.
    Reloading { order_id: String, by: Canceller, platform: bool },
    /// It had been paid, and is credited.
    Fulfilling { work: Fulfil },
}

pub type CancelStep = Step<Cancel, CancelOrderOutcome>;

/// Why the order cannot be cancelled, if it cannot: a user cancels only their own,
/// and only an order that awaits payment is cancelled.
pub open spec fn cancel_refused(order: Option<OrderRecord>, by: Canceller) -> Option<Seq<char>> {
    match order {
        None => Some("order not found"@),
        Some(o) => if by matches Canceller::User { user_id } && o.user_id != user_id {
            Some("forbidden"@)
        } else if o.status@ != OrderStatus::Pending.name() {
            Some("order cannot be cancelled"@)
        } else {
            None
        },
    }
}

/// What is done with an order that was paid while it was to be cancelled.
#[derive(Debug, Clone, Copy, PartialEq, Eq, Structural)]
pub enum LateState {
    Cancelled,
    Paid,
    /// Paid, and to be credited.
    Due,
}

pub open spec fn late_state(status: Seq<char>, by: Canceller) -> LateState {
    if status == OrderStatus::Paid.name() || status == OrderStatus::Failed.name() {
        LateState::Due
    } else if status == OrderStatus::Recharging.name() || status == OrderStatus::Completed.name()
        || status == OrderStatus::Refunded.name() {
        if by is Admin {
            LateState::Paid
        } else {
            LateState::Due
        }
    } else {
        LateState::Cancelled
    }
}

fn find_late_state(status: &str, by: Canceller) -> (r: LateState)
    ensures
        r == late_state(status@, by),
{
    if is_status(status, OrderStatus::Paid) || is_status(status, OrderStatus::Failed) {
        LateState::Due
    } else if is_status(status, OrderStatus::Recharging) || is_status(
        status,
        OrderStatus::Completed,
    ) || is_status(status, OrderStatus::Refunded) {
        match by {
            Canceller::Admin => LateState::Paid,
            Canceller::User { .. } => LateState::Due,
        }
    } else {
        LateState::Cancelled
    }
}

pub open spec fn cancel_logged(a: Action, order_id: Seq<char>, by: Canceller) -> bool {
    match by {
        Canceller::Admin => flow::audits(
            a,
            order_id,
            "ORDER_CANCELLED"@,
            "Admin cancelled order"@,
            "admin"@,
        ),
        Canceller::User { user_id } => flow::audits(
            a,
            order_id,
            "ORDER_CANCELLED"@,
            "User cancelled order"@,
            "user:"@ + text::decimal(user_id as int),
        ),
    }
}

/// The name under which the log notes what a user did.
pub fn user_operator(user_id: i64) -> (r: String)
    ensures
        r@ == "user:"@ + text::decimal(user_id as int),
{
    let mut s = "user:".to_owned();
    s.append(text::i64_text(user_id).as_str());
    s
}

fn log_cancel(order_id: &str, by: Canceller) -> (r: Action)
    ensures
        cancel_logged(r, order_id@, by),
{
    match by {
        Canceller::Admin => flow::log(
            order_id,
            "ORDER_CANCELLED",
            "Admin cancelled order".to_owned(),
            "admin",
        ),
        Canceller::User { user_id } => flow::log(
            order_id,
            "ORDER_CANCELLED",
            "User cancelled order".to_owned(),
            user_operator(user_id).as_str(),
        ),
    }
}

/// The step that follows a reply.
pub open spec fn cancel_step(s: Cancel, reply: Reply, now: i64, out: CancelStep) -> bool {
    match (s, reply) {
        (Cancel::Fulfilling { work }, _) => match out {
            Step::Act { action, next } => next matches Cancel::Fulfilling { work: w }
                && fulfil::fulfil_step(work, reply, now, Step::Act { action, next: w }),
            Step::Done { result: Ok(outcome) } => outcome == CancelOrderOutcome::AlreadyPaid && (
            exists|credited: bool|
                #[trigger] fulfil::fulfil_step(
                    work,
                    reply,
                    now,
                    Step::Done { result: Ok(credited) },
                )),
            Step::Done { result: Err(e) } => fulfil::fulfil_step(
                work,
                reply,
                now,
                Step::Done { result: Err(e) },
            ),
        },
        (_, Reply::Error { message }) => flow::fails(out, message@),
        (Cancel::Loading { order_id, by, platform }, Reply::Order { order }) => {
            match cancel_refused(order, by) {
                Some(e) => flow::fails(out, e),
                None => {
                    &&& out matches Step::Act {
                        action: Action::MarkIfPending { order_id: id, status },
                        next,
                    }
                    &&& id@ == order_id@
                    &&& status == OrderStatus::Cancelled
                    &&& next == (Cancel::Marking { order_id, by, platform })
                },
            }
        },
        (Cancel::Marking { order_id, by, platform }, Reply::Changed { changed: true }) => {
            out matches Step::Act { action, next: Cancel::Logging } && cancel_logged(
                action,
                order_id@,
                by,
            )
        },
        (Cancel::Marking { order_id, by, platform }, Reply::Changed { changed: false }) => {
            out matches Step::Act { action, next } && flow::loads(action, order_id@) && next == (
            Cancel::Reloading { order_id, by, platform })
        },
        (Cancel::Logging, Reply::Done) => flow::done(out, CancelOrderOutcome::Cancelled),
        (Cancel::Reloading { order_id, by, platform }, Reply::Order { order }) => {
            let late = match order {
                Some(o) => late_state(o.status@, by),
                None => LateState::Cancelled,
            };
            match late {
                LateState::Cancelled => flow::done(out, CancelOrderOutcome::Cancelled),
                LateState::Paid => flow::done(out, CancelOrderOutcome::AlreadyPaid),
                LateState::Due => out matches Step::Act { action, next } && flow::loads(
                    action,
                    order_id@,
                ) && next == (Cancel::Fulfilling { work: Fulfil::Loading { platform } }),
            }
        },
        _ => flow::fails(out, flow::unexpected()),
    }
}

impl Cancel {
    /// Begins to cancel an order; `platform` says whether the platform is configured.
    pub fn start(order_id: &str, by: Canceller, platform: bool) -> (r: CancelStep)
        ensures
            r matches Step::Act { action, next: Cancel::Loading { order_id: id, by: b, platform: p }
            } && flow::loads(action, order_id@) && id@ == order_id@ && b == by && p == platform,
    {
        Step::Act {
            action: flow::load(order_id),
            next: Cancel::Loading { order_id: order_id.to_owned(), by, platform },
        }
    }

    /// Goes on with the reply to the last action.
    pub fn next(self, reply: Reply, now: i64) -> (r: CancelStep)
        requires
            reply matches Reply::Plan { plan: Some(p) } ==> subscription_plan::validity_fits(
                p.validity_days as int,
                p.validity_unit@,
            ),
        ensures
            cancel_step(self, reply, now, r),
    {
        match (self, reply) {
            (Cancel::Fulfilling { work }, reply) => {
                match work.next(reply, now) {
                    Step::Act { action, next } => Step::Act {
                        action,
                        next: Cancel::Fulfilling { work: next },
                    },
                    Step::Done { result: Ok(credited) } => {
                        assert(fulfil::fulfil_step(
                            work,
                            reply,
                            now,
                            Step::Done { result: Ok(credited) },
                        ));
                        Step::Done { result: Ok(CancelOrderOutcome::AlreadyPaid) }
                    },
                    Step::Done { result: Err(e) } => Step::Done { result: Err(e) },
                }
            },
            (_, Reply::Error { message }) => Step::Done { result: Err(message) },
            (Cancel::Loading { order_id, by, platform }, Reply::Order { order }) => {
                let order = match order {
                    Some(o) => o,
                    None => {
                        return flow::fail("order not found");
                    },
                };
                if let Canceller::User { user_id } = by {
                    if order.user_id != user_id {
                        return flow::fail("forbidden");
                    }
                }
                if !is_status(order.status.as_str(), OrderStatus::Pending) {
                    return flow::fail("order cannot be cancelled");
                }
                Step::Act {
                    action: Action::MarkIfPending {
                        order_id: order_id.clone(),
                        status: OrderStatus::Cancelled,
                    },
                    next: Cancel::Marking { order_id, by, platform },
                }
            },
            (Cancel::Marking { order_id, by, platform }, Reply::Changed { changed }) => {
                if changed {
                    Step::Act { action: log_cancel(order_id.as_str(), by), next: Cancel::Logging }
                } else {
                    Step::Act {
                        action: flow::load(order_id.as_str()),
                        next: Cancel::Reloading { order_id, by, platform },
                    }
                }
            },
            (Cancel::Logging, Reply::Done) => Step::Done {
                result: Ok(CancelOrderOutcome::Cancelled),
            },
            (Cancel::Reloading { order_id, by, platform }, Reply::Order { order }) => {
                let late = match &order {
                    Some(o) => find_late_state(o.status.as_str(), by),
                    None => LateState::Cancelled,
                };
                match late {
                    LateState::Cancelled => Step::Done {
                        result: Ok(CancelOrderOutcome::Cancelled),
                    },
                    LateState::Paid => Step::Done { result: Ok(CancelOrderOutcome::AlreadyPaid) },
                    LateState::Due => Step::Act {
                        action: flow::load(order_id.as_str()),
                        next: Cancel::Fulfilling { work: Fulfil::Loading { platform } },
                    },
                }
            },
            _ => flow::fail("unexpected reply"),
        }
    }
}

/// An order that was paid in the meantime is never reported as cancelled.
pub proof fn law_paid_orders_are_not_cancelled(
    order_id: String,
    by: Canceller,
    platform: bool,
    order: OrderRecord,
    now: i64,
    out: CancelStep,
)
    requires
        cancel_step(
            Cancel::Reloading { order_id, by, platform },
            Reply::Order { order: Some(order) },
            now,
            out,
        ),
        order.status@ == OrderStatus::Paid.name() || order.status@ == OrderStatus::Failed.name()
            || order.status@ == OrderStatus::Recharging.name() || order.status@
            == OrderStatus::Completed.name() || order.status@ == OrderStatus::Refunded.name(),
    ensures
        !flow::done(out, CancelOrderOutcome::Cancelled),
{
}

/// A user cancels no order but their own: the order of another is left as it is.
pub proof fn law_users_cancel_only_their_own(
    order_id: String,
    user_id: i64,
    platform: bool,
    order: OrderRecord,
    now: i64,
    out: CancelStep,
)
    requires
        cancel_step(
            Cancel::Loading { order_id, by: Canceller::User { user_id }, platform },
            Reply::Order { order: Some(order) },
            now,
            out,
        ),
        order.user_id != user_id,
    ensures
        flow::fails(out, "forbidden"@),
{
}

/// An order is taken off exactly where it awaits payment, by an administrator or by its own
/// buyer.
pub proof fn law_pending_orders_are_cancelled(
    order_id: String,
    by: Canceller,
    platform: bool,
    order: OrderRecord,
    now: i64,
    out: CancelStep,
)
    requires
        cancel_step(
            Cancel::Loading { order_id, by, platform },
            Reply::Order { order: Some(order) },
            now,
            out,
        ),
    ensures
        ({
            let may = (by is Admin || by == (Canceller::User { user_id: order.user_id }))
                && order.status@ == "PENDING"@;
            &&& may ==> (out matches Step::Act {
                action: Action::MarkIfPending { order_id: id, status },
                next,
            } && id@ == order_id@ && status is Cancelled && next is Marking)
            &&& !may ==> out is Done && out->result is Err
        }),
{
}

/// An order is told to be cancelled exactly where this run closed it, or where it was closed
/// without a payment meanwhile; one that was paid meanwhile is told to be paid, and credited
/// where that is still to be done.
pub proof fn law_cancelled_means_not_paid(
    s: Cancel,
    reply: Reply,
    now: i64,
    out: CancelStep,
)
    requires
        cancel_step(s, reply, now, out),
        s is Marking || s is Logging || s is Reloading,
    ensures
        s is Marking && reply == (Reply::Changed { changed: true }) ==> out is Act
            && out->action is Audit && out->next is Logging,
        s is Marking && reply == (Reply::Changed { changed: false }) ==> out is Act
            && out->action is LoadOrder && out->next is Reloading,
        s is Logging && reply is Done ==> out == (CancelStep::Done {
            result: Ok(CancelOrderOutcome::Cancelled),
        }),
        s is Reloading && (reply matches Reply::Order { order: Some(o) } && (o.status@ == "PAID"@
            || o.status@ == "FAILED"@)) ==> out is Act && out->next is Fulfilling
            && out->action is LoadOrder,
        s is Reloading && (reply matches Reply::Order { order: Some(o) } && (o.status@
            == "RECHARGING"@ || o.status@ == "COMPLETED"@ || o.status@ == "REFUNDED"@)) ==> (if
        s->Reloading_by is Admin {
            out == (CancelStep::Done { result: Ok(CancelOrderOutcome::AlreadyPaid) })
        } else {
            out is Act && out->next is Fulfilling
        }),
        s is Reloading && (reply matches Reply::Order { order: Some(o) } && (o.status@
            == "CANCELLED"@ || o.status@ == "EXPIRED"@)) ==> out == (CancelStep::Done {
            result: Ok(CancelOrderOutcome::Cancelled),
        }),
{
    repository::lemma_names_differ(OrderStatus::Cancelled);
    repository::lemma_names_differ(OrderStatus::Expired);
    repository::lemma_names_differ(OrderStatus::Recharging);
    repository::lemma_names_differ(OrderStatus::Completed);
    repository::lemma_names_differ(OrderStatus::Refunded);
}

/// A cancellation goes on by steps.
pub proof fn law_cancellation_goes_on_by_steps(s: Cancel, reply: Reply, now: i64, out: CancelStep)
    requires
        call_ensures(Cancel::next, (s, reply, now), out),
    ensures
        cancel_step(s, reply, now, out),
{
}

/// A cancellation is noted with its order by who cancelled it.
pub proof fn law_cancellations_are_noted(a: Action, order_id: Seq<char>, by: Canceller)
    requires
        cancel_logged(a, order_id, by),
    ensures
        a matches Action::Audit { entry } && entry.order_id@ == order_id && entry.action@
            == "ORDER_CANCELLED"@ && entry.operator is Some && entry.detail is Some,
        by is Admin ==> a->entry.operator->0@ == "admin"@ && a->entry.detail->0@
            == "Admin cancelled order"@,
        by matches Canceller::User { user_id } ==> a->entry.operator->0@ == "user:"@
            + text::decimal(user_id as int) && a->entry.detail->0@ == "User cancelled order"@,
{
}

/// A cancellation that is refused is refused for what is wrong with it, what is another's first.
pub proof fn law_cancellations_are_refused_for_a_reason(o: OrderRecord, by: Canceller)
    ensures
        cancel_refused(None, by) == Some("order not found"@),
        (by matches Canceller::User { user_id } && o.user_id != user_id) ==> cancel_refused(
            Some(o),
            by,
        ) == Some("forbidden"@),
        (by is Admin || (by matches Canceller::User { user_id } && o.user_id == user_id)) && o.status@
            != "PENDING"@ ==> cancel_refused(Some(o), by) == Some("order cannot be cancelled"@),
        (by is Admin || (by matches Canceller::User { user_id } && o.user_id == user_id)) && o.status@
            == "PENDING"@ ==> cancel_refused(Some(o), by) is None,
{
}

}
