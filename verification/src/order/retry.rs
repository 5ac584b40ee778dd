//! Crediting a paid order again whose crediting failed.
use vstd::prelude::*;

use crate::db;
use crate::order::flow;
use crate::order::flow::{Action, Reply, Step};
use crate::order::fulfil;
use crate::order::fulfil::Fulfil;
use crate::order::repository::{lemma_names_differ, OrderRecord};
use crate::order::status::{is_refund_status, is_status, refund_related, OrderStatus};
use crate::subscription_plan;

verus! {

/// Where a retry stands.
pub enum Retry {
    Loading { order_id: String, platform: bool },
    Resetting { order_id: String, platform: bool },
    Rechecking,
    Logging { order_id: String, platform: bool },
    Fulfilling { order_id: String, work: Fulfil },
    ReadingReason,
}

pub type RetryStep = Step<Retry, ()>;

/// Why an order cannot be retried, if it cannot.
pub open spec fn retry_refused(order: OrderRecord) -> Option<Seq<char>> {
    if order.paid_at is None {
        Some("order is not paid, retry denied"@)
    } else if refund_related(order.status@) {
        Some("refund-related order cannot retry"@)
    } else if order.status@ == OrderStatus::Failed.name() || order.status@
        == OrderStatus::Paid.name() {
        None
    } else if order.status@ == OrderStatus::Recharging.name() {
        Some("order is recharging, retry later"@)
    } else if order.status@ == OrderStatus::Completed.name() {
        Some("order already completed"@)
    } else {
        Some("only paid and failed orders can retry"@)
    }
}

pub fn check_retry_allowed(order: &OrderRecord) -> (r: Option<String>)
    ensures
        db::opt_text(r) == retry_refused(*order),
{
    let status = order.status.as_str();
    if order.paid_at.is_none() {
        return Some("order is not paid, retry denied".to_owned());
    }
    if is_refund_status(status) {
        return Some("refund-related order cannot retry".to_owned());
    }
    if is_status(status, OrderStatus::Failed) || is_status(status, OrderStatus::Paid) {
        None
    } else if is_status(status, OrderStatus::Recharging) {
        Some("order is recharging, retry later".to_owned())
    } else if is_status(status, OrderStatus::Completed) {
        Some("order already completed".to_owned())
    } else {
        Some("only paid and failed orders can retry".to_owned())
    }
}

/// Why an order could not be put back to paid that seemed to be retryable.
pub open spec fn reset_refused(order: Option<OrderRecord>) -> Seq<char> {
    match order {
        None => "order not found"@,
        Some(o) => if o.status@ == OrderStatus::Paid.name() || o.status@
            == OrderStatus::Recharging.name() {
            "order is recharging, retry later"@
        } else if o.status@ == OrderStatus::Completed.name() || o.status@
            == OrderStatus::Refunded.name() {
            "order already completed"@
        } else if refund_related(o.status@) {
            "refund-related order cannot retry"@
        } else {
            "order status changed, refresh and retry"@
        },
    }
}

fn explain_refused_reset(order: &Option<OrderRecord>) -> (r: &'static str)
    ensures
        r@ == reset_refused(*order),
{
    match order {
        None => "order not found",
        Some(o) => {
            let status = o.status.as_str();
            if is_status(status, OrderStatus::Paid) || is_status(status, OrderStatus::Recharging) {
                "order is recharging, retry later"
            } else if is_status(status, OrderStatus::Completed) || is_status(
                status,
                OrderStatus::Refunded,
            ) {
                "order already completed"
            } else if is_refund_status(status) {
                "refund-related order cannot retry"
            } else {
                "order status changed, refresh and retry"
            }
        },
    }
}

/// Why the crediting failed again.
pub open spec fn failure_reason(order: Option<OrderRecord>) -> Seq<char> {
    match order {
        Some(o) => match o.failed_reason {
            Some(r) => r@,
            None => "recharge retry failed"@,
        },
        None => "recharge retry failed"@,
    }
}

/// The step that follows a reply.
pub open spec fn retry_step(s: Retry, reply: Reply, now: i64, out: RetryStep) -> bool {
    match (s, reply) {
        (Retry::Fulfilling { order_id, work }, _) => match out {
            Step::Act { action, next: Retry::Fulfilling { order_id: id, work: w } } => id
                == order_id && fulfil::fulfil_step(
                work,
                reply,
                now,
                Step::Act { action, next: w },
            ),
            Step::Act { action, next } => next is ReadingReason && flow::loads(action, order_id@)
                && fulfil::fulfil_step(work, reply, now, Step::Done { result: Ok(false) }),
            Step::Done { result: Ok(_) } => fulfil::fulfil_step(
                work,
                reply,
                now,
                Step::Done { result: Ok(true) },
            ),
            Step::Done { result: Err(e) } => fulfil::fulfil_step(
                work,
                reply,
                now,
                Step::Done { result: Err(e) },
            ),
        },
        (_, Reply::Error { message }) => flow::fails(out, message@),
        (Retry::Loading { order_id, platform }, Reply::Order { order: None }) => flow::fails(
            out,
            "order not found"@,
        ),
        (Retry::Loading { order_id, platform }, Reply::Order { order: Some(order) }) => {
            match retry_refused(order) {
                Some(e) => flow::fails(out, e),
                None => out matches Step::Act { action: Action::ResetToPaid { order_id: id }, next }
                    && id@ == order_id@ && next == (Retry::Resetting { order_id, platform }),
            }
        },
        (Retry::Resetting { order_id, platform }, Reply::Changed { changed: true }) => {
            out matches Step::Act { action, next } && flow::audits(
                action,
                order_id@,
                "RECHARGE_RETRY"@,
                "Admin manual retry recharge"@,
                "admin"@,
            ) && next == (Retry::Logging { order_id, platform })
        },
        (Retry::Resetting { order_id, platform }, Reply::Changed { changed: false }) => {
            out matches Step::Act { action, next: Retry::Rechecking } && flow::loads(
                action,
                order_id@,
            )
        },
        (Retry::Rechecking, Reply::Order { order }) => flow::fails(out, reset_refused(order)),
        (Retry::Logging { order_id, platform }, Reply::Done) => {
            out matches Step::Act { action, next } && flow::loads(action, order_id@) && next == (
            Retry::Fulfilling { order_id, work: Fulfil::Loading { platform } })
        },
        (Retry::ReadingReason, Reply::Order { order }) => flow::fails(out, failure_reason(order)),
        _ => flow::fails(out, flow::unexpected()),
    }
}

impl Retry {
    /// Begins to credit an order again; `platform` says whether the platform is configured.
    pub fn start(order_id: &str, platform: bool) -> (r: RetryStep)
        ensures
            r matches Step::Act { action, next: Retry::Loading { order_id: id, platform: p } }
                && flow::loads(action, order_id@) && id@ == order_id@ && p == platform,
    {
        Step::Act {
            action: flow::load(order_id),
            next: Retry::Loading { order_id: order_id.to_owned(), platform },
        }
    }

    /// Goes on with the reply to the last action.
    pub fn next(self, reply: Reply, now: i64) -> (r: RetryStep)
        requires
            reply matches Reply::Plan { plan: Some(p) } ==> subscription_plan::validity_fits(
                p.validity_days as int,
                p.validity_unit@,
            ),
        ensures
            retry_step(self, reply, now, r),
    {
        match (self, reply) {
            (Retry::Fulfilling { order_id, work }, reply) => match work.next(reply, now) {
                Step::Act { action, next } => Step::Act {
                    action,
                    next: Retry::Fulfilling { order_id, work: next },
                },
                Step::Done { result: Ok(true) } => Step::Done { result: Ok(()) },
                Step::Done { result: Ok(false) } => Step::Act {
                    action: flow::load(order_id.as_str()),
                    next: Retry::ReadingReason,
                },
                Step::Done { result: Err(e) } => Step::Done { result: Err(e) },
            },
            (_, Reply::Error { message }) => Step::Done { result: Err(message) },
            (Retry::Loading { order_id, platform }, Reply::Order { order: None }) => flow::fail(
                "order not found",
            ),
            (Retry::Loading { order_id, platform }, Reply::Order { order: Some(order) }) => {
                match check_retry_allowed(&order) {
                    Some(e) => Step::Done { result: Err(e) },
                    None => Step::Act {
                        action: Action::ResetToPaid { order_id: order_id.clone() },
                        next: Retry::Resetting { order_id, platform },
                    },
                }
            },
            (Retry::Resetting { order_id, platform }, Reply::Changed { changed }) => {
                if changed {
                    let action = flow::log(
                        order_id.as_str(),
                        "RECHARGE_RETRY",
                        "Admin manual retry recharge".to_owned(),
                        "admin",
                    );
                    Step::Act { action, next: Retry::Logging { order_id, platform } }
                } else {
                    Step::Act { action: flow::load(order_id.as_str()), next: Retry::Rechecking }
                }
            },
            (Retry::Rechecking, Reply::Order { order }) => flow::fail(
                explain_refused_reset(&order),
            ),
            (Retry::Logging { order_id, platform }, Reply::Done) => {
                let action = flow::load(order_id.as_str());
                Step::Act {
                    action,
                    next: Retry::Fulfilling { order_id, work: Fulfil::Loading { platform } },
                }
            },
            (Retry::ReadingReason, Reply::Order { order }) => {
                let reason = match order {
                    Some(o) => match o.failed_reason {
                        Some(r) => r,
                        None => "recharge retry failed".to_owned(),
                    },
                    None => "recharge retry failed".to_owned(),
                };
                Step::Done { result: Err(reason) }
            },
            _ => flow::fail("unexpected reply"),
        }
    }
}

/// An order that can be retried is one that the guarded change puts back to paid; and
/// no order that has to do with a refund is ever retried.
pub proof fn law_retry_needs_a_paid_order(order: OrderRecord)
    ensures
        retry_refused(order) is None <==> order.paid_at is Some && (order.status@
            == OrderStatus::Paid.name() || order.status@ == OrderStatus::Failed.name()),
        refund_related(order.status@) ==> retry_refused(order) is Some,
{
    lemma_names_differ(OrderStatus::Paid);
    lemma_names_differ(OrderStatus::Failed);
}

/// A retry is reported as done only where the order was credited.
pub proof fn law_retry_succeeds_only_when_credited(
    s: Retry,
    reply: Reply,
    now: i64,
    out: RetryStep,
)
    requires
        retry_step(s, reply, now, out),
        out matches Step::Done { result: Ok(_) },
    ensures
        s matches Retry::Fulfilling { order_id, work } && fulfil::fulfil_step(
            work,
            reply,
            now,
            Step::Done { result: Ok(true) },
        ),
{
}

/// An order is credited again exactly where it was paid and is paid or failed: it is put back,
/// the retry is logged, and the crediting begins. Any other is refused and left as it is.
pub proof fn law_retries_credit_the_order_again(
    order_id: String,
    platform: bool,
    order: OrderRecord,
    now: i64,
    first: RetryStep,
    second: RetryStep,
    third: RetryStep,
)
    requires
        retry_step(
            Retry::Loading { order_id, platform },
            Reply::Order { order: Some(order) },
            now,
            first,
        ),
        first is Act ==> retry_step(first->next, Reply::Changed { changed: true }, now, second),
        first is Act && second is Act ==> retry_step(second->next, Reply::Done, now, third),
    ensures
        ({
            let may = order.paid_at is Some && (order.status@ == "PAID"@ || order.status@
                == "FAILED"@);
            &&& !may ==> first is Done && first->result is Err
            &&& may ==> {
                &&& first matches Step::Act { action: Action::ResetToPaid { order_id: id }, .. }
                &&& id@ == order_id@
                &&& second is Act && second->action is Audit
                &&& third matches Step::Act {
                    action: Action::LoadOrder { order_id: l },
                    next: Retry::Fulfilling { work, .. },
                }
                &&& l@ == order_id@
                &&& work == (Fulfil::Loading { platform })
            }
        }),
{
    law_retry_needs_a_paid_order(order);
}

/// A retry after which the order is not credited ends with the reason for which it failed.
pub proof fn law_failed_retries_tell_why(
    order: OrderRecord,
    now: i64,
    out: RetryStep,
)
    requires
        retry_step(Retry::ReadingReason, Reply::Order { order: Some(order) }, now, out),
    ensures
        out is Done && out->result is Err,
        order.failed_reason matches Some(r) ==> out->result->Err_0@ == r@,
{
}

/// A retry goes on by steps.
pub proof fn law_retry_goes_on_by_steps(s: Retry, reply: Reply, now: i64, out: RetryStep)
    requires
        call_ensures(Retry::next, (s, reply, now), out),
    ensures
        retry_step(s, reply, now, out),
{
}

/// A retry is noted with its order by an administrator.
pub proof fn law_retries_are_noted(order_id: String, platform: bool, now: i64, out: RetryStep)
    requires
        retry_step(
            Retry::Resetting { order_id, platform },
            Reply::Changed { changed: true },
            now,
            out,
        ),
    ensures
        out matches Step::Act { action: Action::Audit { entry }, .. } && entry.order_id@
            == order_id@ && entry.action@ == "RECHARGE_RETRY"@ && (entry.operator matches Some(o)
            && o@ == "admin"@) && (entry.detail matches Some(d) && d@
            == "Admin manual retry recharge"@),
{
}

/// A retry that is refused is refused for the state of the order.
pub proof fn law_retries_are_refused_for_a_reason(o: OrderRecord)
    ensures
        o.paid_at is None ==> retry_refused(o) == Some("order is not paid, retry denied"@),
        o.paid_at is Some && o.status@ == "RECHARGING"@ ==> retry_refused(o) == Some(
            "order is recharging, retry later"@,
        ),
        o.paid_at is Some && o.status@ == "COMPLETED"@ ==> retry_refused(o) == Some(
            "order already completed"@,
        ),
        o.paid_at is Some && (o.status@ == "REFUNDED"@ || o.status@ == "REFUNDING"@ || o.status@
            == "REFUND_REQUESTED"@ || o.status@ == "REFUND_FAILED"@) ==> retry_refused(o) == Some(
            "refund-related order cannot retry"@,
        ),
        o.paid_at is Some && (o.status@ == "PENDING"@ || o.status@ == "CANCELLED"@ || o.status@
            == "EXPIRED"@) ==> retry_refused(o) == Some("only paid and failed orders can retry"@),
        reset_refused(None) == "order not found"@,
        o.status@ == "PAID"@ || o.status@ == "RECHARGING"@ ==> reset_refused(Some(o))
            == "order is recharging, retry later"@,
        o.status@ == "COMPLETED"@ || o.status@ == "REFUNDED"@ ==> reset_refused(Some(o))
            == "order already completed"@,
        o.status@ == "PENDING"@ || o.status@ == "CANCELLED"@ || o.status@ == "EXPIRED"@
            ==> reset_refused(Some(o)) == "order status changed, refresh and retry"@,
{
    reveal_strlit("PENDING");
    reveal_strlit("PAID");
    reveal_strlit("RECHARGING");
    reveal_strlit("COMPLETED");
    reveal_strlit("EXPIRED");
    reveal_strlit("CANCELLED");
    reveal_strlit("FAILED");
    reveal_strlit("REFUND_REQUESTED");
    reveal_strlit("REFUNDING");
    reveal_strlit("PARTIALLY_REFUNDED");
    reveal_strlit("REFUNDED");
    reveal_strlit("REFUND_FAILED");
    assert("PENDING"@.len() == 7 && "EXPIRED"@.len() == 7 && "PAID"@.len() == 4
        && "RECHARGING"@.len() == 10 && "COMPLETED"@.len() == 9 && "CANCELLED"@.len() == 9
        && "FAILED"@.len() == 6 && "REFUND_REQUESTED"@.len() == 16 && "REFUNDING"@.len() == 9
        && "PARTIALLY_REFUNDED"@.len() == 18 && "REFUNDED"@.len() == 8 && "REFUND_FAILED"@.len()
        == 13);
    assert("PENDING"@[0] == 'P' && "EXPIRED"@[0] == 'E');
    assert("COMPLETED"@[1] == 'O' && "CANCELLED"@[1] == 'A' && "REFUNDING"@[1] == 'E');
}

}
