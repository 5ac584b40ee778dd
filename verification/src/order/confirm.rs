//! Confirming a payment.
use vstd::prelude::*;

use crate::order::flow;
use crate::order::flow::{Action, Reply, Step};
use crate::order::repository;
use crate::order::repository::{MarkPaidInput, OrderRecord};
use crate::order::status::{is_status, OrderStatus};
use crate::text;

verus! {

/// How long after an order expired its payment is still taken.
pub const PAYMENT_CONFIRM_GRACE_SECONDS: i64 = 300;

#[derive(Debug, Clone, Copy, PartialEq, Eq, Structural)]
pub enum ConfirmPaymentOutcome {
    Confirmed,
    RetryLater,
    StopRetry,
    AmountMismatch,
    OrderNotFound,
}

/// The notice that an order was paid.
pub struct Payment {
    pub order_id: String,
    pub trade_no: String,
    pub paid_amount_cents: i64,
    pub provider_name: String,
}

/// Where the confirmation of a payment stands.
pub enum Confirm {
    Loading { payment: Payment },
    Marking { payment: Payment, order: OrderRecord },
    Reloading,
    Auditing { outcome: ConfirmPaymentOutcome },
}

/// What an order costs: the amount to pay, or else the amount to credit.
pub open spec fn expected_cents(o: OrderRecord) -> i64 {
    match o.pay_amount_cents {
        Some(c) => c,
        None => o.amount_cents,
    }
}

pub open spec fn distance(a: int, b: int) -> int {
    if a >= b {
        a - b
    } else {
        b - a
    }
}

/// A payment is taken for what the order costs, up to one cent.
pub open spec fn amount_fits(paid: int, expected: int) -> bool {
    distance(paid, expected) <= 1
}

pub open spec fn mismatch_detail(expected: int, paid: int, trade_no: Seq<char>) -> Seq<char> {
    "{\"expected\":"@ + text::decimal(expected) + ",\"paid\":"@ + text::decimal(paid)
        + ",\"diff\":"@ + text::decimal(distance(paid, expected)) + ",\"tradeNo\":\""@ + trade_no
        + "\"}"@
}

pub open spec fn paid_detail(order: OrderRecord, payment: Payment) -> Seq<char> {
    "{\"previousStatus\":\""@ + order.status@ + "\",\"tradeNo\":\""@ + payment.trade_no@
        + "\",\"expectedAmountCents\":"@ + text::decimal(order.amount_cents as int)
        + ",\"expectedPayAmountCents\":"@ + text::decimal(expected_cents(order) as int)
        + ",\"paidAmountCents\":"@ + text::decimal(payment.paid_amount_cents as int) + "}"@
}

/// What is told of a payment that came for an order that could not take it.
pub open spec fn outcome_for(status: Seq<char>) -> ConfirmPaymentOutcome {
    if status == OrderStatus::Failed.name() || status == OrderStatus::Paid.name() || status
        == OrderStatus::Recharging.name() {
        ConfirmPaymentOutcome::RetryLater
    } else {
        ConfirmPaymentOutcome::StopRetry
    }
}

/// The order is asked to take the payment.
pub open spec fn marks_paid(a: Action, payment: Payment, now: int) -> bool {
    a matches Action::MarkPaid { payment: input } && {
        &&& input.order_id@ == payment.order_id@
        &&& input.trade_no@ == payment.trade_no@
        &&& input.paid_amount_cents == payment.paid_amount_cents
        &&& input.paid_at == now
        &&& input.grace_updated_at_gte == now - PAYMENT_CONFIRM_GRACE_SECONDS
    }
}

/// The step that follows a reply.
pub open spec fn confirm_step(
    s: Confirm,
    reply: Reply,
    now: int,
    out: Step<Confirm, ConfirmPaymentOutcome>,
) -> bool {
    match (s, reply) {
        (_, Reply::Error { message }) => flow::fails(out, message@),
        (Confirm::Loading { payment }, Reply::Order { order: None }) => flow::done(
            out,
            ConfirmPaymentOutcome::OrderNotFound,
        ),
        (Confirm::Loading { payment }, Reply::Order { order: Some(order) }) => {
            let expected = expected_cents(order) as int;
            if payment.paid_amount_cents <= 0 {
                flow::done(out, ConfirmPaymentOutcome::StopRetry)
            } else if !amount_fits(payment.paid_amount_cents as int, expected) {
                out matches Step::Act { action, next: Confirm::Auditing { outcome } } && outcome
                    == ConfirmPaymentOutcome::AmountMismatch && flow::audits(
                    action,
                    order.id@,
                    "PAYMENT_AMOUNT_MISMATCH"@,
                    mismatch_detail(expected, payment.paid_amount_cents as int, payment.trade_no@),
                    payment.provider_name@,
                )
            } else {
                out matches Step::Act { action, next } && marks_paid(action, payment, now) && next
                    == (Confirm::Marking { payment, order })
            }
        },
        (Confirm::Marking { payment, order }, Reply::Changed { changed: true }) => {
            out matches Step::Act { action, next: Confirm::Auditing { outcome } } && outcome
                == ConfirmPaymentOutcome::Confirmed && flow::audits(
                action,
                payment.order_id@,
                "ORDER_PAID"@,
                paid_detail(order, payment),
                payment.provider_name@,
            )
        },
        (Confirm::Marking { payment, order }, Reply::Changed { changed: false }) => {
            out matches Step::Act { action, next: Confirm::Reloading } && flow::loads(
                action,
                payment.order_id@,
            )
        },
        (Confirm::Reloading, Reply::Order { order: None }) => flow::done(
            out,
            ConfirmPaymentOutcome::StopRetry,
        ),
        (Confirm::Reloading, Reply::Order { order: Some(order) }) => flow::done(
            out,
            outcome_for(order.status@),
        ),
        (Confirm::Auditing { outcome }, Reply::Done) => flow::done(out, outcome),
        _ => flow::fails(out, flow::unexpected()),
    }
}

fn mismatch_entry(order: &OrderRecord, payment: &Payment, expected: i64) -> (r: Action)
    requires
        expected == expected_cents(*order),
        payment.paid_amount_cents > 0,
    ensures
        flow::audits(
            r,
            order.id@,
            "PAYMENT_AMOUNT_MISMATCH"@,
            mismatch_detail(
                expected as int,
                payment.paid_amount_cents as int,
                payment.trade_no@,
            ),
            payment.provider_name@,
        ),
{
    let paid: i64 = payment.paid_amount_cents;
    let diff: u64 = if paid >= expected {
        ((paid as i128) - (expected as i128)) as u64
    } else {
        ((expected as i128) - (paid as i128)) as u64
    };
    let mut detail = "{\"expected\":".to_owned();
    detail.append(text::i64_text(expected).as_str());
    detail.append(",\"paid\":");
    detail.append(text::i64_text(paid).as_str());
    detail.append(",\"diff\":");
    detail.append(text::u64_text(diff).as_str());
    detail.append(",\"tradeNo\":\"");
    detail.append(payment.trade_no.as_str());
    detail.append("\"}");
    flow::log(
        order.id.as_str(),
        "PAYMENT_AMOUNT_MISMATCH",
        detail,
        payment.provider_name.as_str(),
    )
}

fn paid_entry(order: &OrderRecord, payment: &Payment) -> (r: Action)
    ensures
        flow::audits(
            r,
            payment.order_id@,
            "ORDER_PAID"@,
            paid_detail(*order, *payment),
            payment.provider_name@,
        ),
{
    let mut detail = "{\"previousStatus\":\"".to_owned();
    detail.append(order.status.as_str());
    detail.append("\",\"tradeNo\":\"");
    detail.append(payment.trade_no.as_str());
    detail.append("\",\"expectedAmountCents\":");
    detail.append(text::i64_text(order.amount_cents).as_str());
    detail.append(",\"expectedPayAmountCents\":");
    detail.append(text::i64_text(order_cost(order)).as_str());
    detail.append(",\"paidAmountCents\":");
    detail.append(text::i64_text(payment.paid_amount_cents).as_str());
    detail.append("}");
    flow::log(
        payment.order_id.as_str(),
        "ORDER_PAID",
        detail,
        payment.provider_name.as_str(),
    )
}

/// What an order costs.
pub fn order_cost(order: &OrderRecord) -> (r: i64)
    ensures
        r == expected_cents(*order),
{
    match order.pay_amount_cents {
        Some(c) => c,
        None => order.amount_cents,
    }
}

impl Confirm {
    /// Begins to confirm a payment.
    pub fn start(payment: Payment) -> (r: Step<Confirm, ConfirmPaymentOutcome>)
        ensures
            r matches Step::Act { action, next } && flow::loads(action, payment.order_id@) && next
                == (Confirm::Loading { payment }),
    {
        let action = flow::load(payment.order_id.as_str());
        Step::Act { action, next: Confirm::Loading { payment } }
    }

    /// Goes on with the reply to the last action.
    pub fn next(self, reply: Reply, now: i64) -> (r: Step<Confirm, ConfirmPaymentOutcome>)
        requires
            self is Loading ==> i64::MIN + PAYMENT_CONFIRM_GRACE_SECONDS <= now,
        ensures
            confirm_step(self, reply, now as int, r),
    {
        match (self, reply) {
            (_, Reply::Error { message }) => Step::Done { result: Err(message) },
            (Confirm::Loading { payment }, Reply::Order { order: None }) => Step::Done {
                result: Ok(ConfirmPaymentOutcome::OrderNotFound),
            },
            (Confirm::Loading { payment }, Reply::Order { order: Some(order) }) => {
                let expected: i64 = order_cost(&order);
                let paid: i64 = payment.paid_amount_cents;
                if paid <= 0 {
                    return Step::Done { result: Ok(ConfirmPaymentOutcome::StopRetry) };
                }
                let fits = if paid >= expected {
                    (paid as i128) - (expected as i128) <= 1
                } else {
                    (expected as i128) - (paid as i128) <= 1
                };
                if !fits {
                    let action = mismatch_entry(&order, &payment, expected);
                    Step::Act {
                        action,
                        next: Confirm::Auditing { outcome: ConfirmPaymentOutcome::AmountMismatch },
                    }
                } else {
                    let input = MarkPaidInput {
                        order_id: payment.order_id.clone(),
                        trade_no: payment.trade_no.clone(),
                        paid_amount_cents: payment.paid_amount_cents,
                        paid_at: now,
                        grace_updated_at_gte: now - PAYMENT_CONFIRM_GRACE_SECONDS,
                    };
                    Step::Act {
                        action: Action::MarkPaid { payment: input },
                        next: Confirm::Marking { payment, order },
                    }
                }
            },
            (Confirm::Marking { payment, order }, Reply::Changed { changed }) => {
                if changed {
                    let action = paid_entry(&order, &payment);
                    Step::Act {
                        action,
                        next: Confirm::Auditing { outcome: ConfirmPaymentOutcome::Confirmed },
                    }
                } else {
                    let action = flow::load(payment.order_id.as_str());
                    Step::Act { action, next: Confirm::Reloading }
                }
            },
            (Confirm::Reloading, Reply::Order { order: None }) => Step::Done {
                result: Ok(ConfirmPaymentOutcome::StopRetry),
            },
            (Confirm::Reloading, Reply::Order { order: Some(order) }) => {
                let status = order.status.as_str();
                let later = is_status(status, OrderStatus::Failed) || is_status(
                    status,
                    OrderStatus::Paid,
                ) || is_status(status, OrderStatus::Recharging);
                if later {
                    Step::Done { result: Ok(ConfirmPaymentOutcome::RetryLater) }
                } else {
                    Step::Done { result: Ok(ConfirmPaymentOutcome::StopRetry) }
                }
            },
            (Confirm::Auditing { outcome }, Reply::Done) => Step::Done { result: Ok(outcome) },
            _ => flow::fail("unexpected reply"),
        }
    }
}

/// A payment is taken only where it is positive and meets what the order costs up
/// to one cent.
pub proof fn law_only_fitting_payments_are_taken(
    s: Confirm,
    reply: Reply,
    now: int,
    out: Step<Confirm, ConfirmPaymentOutcome>,
)
    requires
        confirm_step(s, reply, now, out),
        out matches Step::Act { action, next } && action is MarkPaid,
    ensures
        s is Loading,
        reply matches Reply::Order { order: Some(order) } && s matches Confirm::Loading { payment }
            && payment.paid_amount_cents > 0 && amount_fits(
            payment.paid_amount_cents as int,
            expected_cents(order) as int,
        ),
{
}

/// A payment counts as confirmed only where the order took it.
pub proof fn law_confirmed_only_when_marked(
    s: Confirm,
    reply: Reply,
    now: int,
    out: Step<Confirm, ConfirmPaymentOutcome>,
)
    requires
        confirm_step(s, reply, now, out),
    ensures
        flow::done(out, ConfirmPaymentOutcome::Confirmed) ==> s == (Confirm::Auditing {
            outcome: ConfirmPaymentOutcome::Confirmed,
        }),
        (out matches Step::Act { action, next } && next == (Confirm::Auditing {
            outcome: ConfirmPaymentOutcome::Confirmed,
        })) ==> s is Marking && reply == (Reply::Changed { changed: true }),
{
}

/// An order is asked to take a payment exactly where the payment is of something and off by at
/// most a cent from what the order is to be paid with, or else credited with.
pub proof fn law_payments_are_taken_up_to_a_cent(
    payment: Payment,
    order: OrderRecord,
    now: int,
    out: Step<Confirm, ConfirmPaymentOutcome>,
)
    requires
        confirm_step(
            Confirm::Loading { payment },
            Reply::Order { order: Some(order) },
            now,
            out,
        ),
    ensures
        ({
            let paid = payment.paid_amount_cents as int;
            let cost = match order.pay_amount_cents {
                Some(c) => c as int,
                None => order.amount_cents as int,
            };
            &&& paid <= 0 ==> out == (Step::<Confirm, ConfirmPaymentOutcome>::Done {
                result: Ok(ConfirmPaymentOutcome::StopRetry),
            })
            &&& paid > 0 && -1 <= paid - cost <= 1 ==> out is Act && out->action is MarkPaid
                && out->next == (Confirm::Marking { payment, order })
            &&& paid > 0 && !(-1 <= paid - cost <= 1) ==> out is Act && out->action is Audit
                && out->next == (Confirm::Auditing {
                outcome: ConfirmPaymentOutcome::AmountMismatch,
            })
        }),
{
}

/// An order takes a fitting payment exactly where it awaits one, or expired no longer than
/// five minutes before the payment came.
pub proof fn law_orders_take_payments_for_five_minutes_more(
    payment: Payment,
    order: OrderRecord,
    held: OrderRecord,
    now: int,
    input: MarkPaidInput,
    next: Confirm,
)
    requires
        confirm_step(
            Confirm::Loading { payment },
            Reply::Order { order: Some(order) },
            now,
            Step::Act { action: Action::MarkPaid { payment: input }, next },
        ),
    ensures
        repository::payable(held, input.grace_updated_at_gte as int) <==> held.status@
            == "PENDING"@ || (held.status@ == "EXPIRED"@ && held.updated_at + 300 >= now),
        input.order_id@ == payment.order_id@,
{
}

/// An order that took a payment is paid: with the money, at the time and under the number of
/// that payment, and is otherwise what it was.
pub proof fn law_paid_orders_hold_their_payment(
    payment: Payment,
    order: OrderRecord,
    now: int,
    input: MarkPaidInput,
    next: Confirm,
    before: OrderRecord,
    after: OrderRecord,
    at: i64,
)
    requires
        confirm_step(
            Confirm::Loading { payment },
            Reply::Order { order: Some(order) },
            now,
            Step::Act { action: Action::MarkPaid { payment: input }, next },
        ),
        repository::paid_as(before, after, input, at),
    ensures
        after.status@ == "PAID"@,
        after.pay_amount_cents == Some(payment.paid_amount_cents),
        after.payment_trade_no matches Some(t) && t@ == payment.trade_no@,
        after.paid_at matches Some(t) && t == now,
        after.id == before.id && after.user_id == before.user_id,
        after.amount_cents == before.amount_cents,
        after.order_type == before.order_type && after.recharge_code == before.recharge_code,
{
}

/// A payment for which the order was not open is reported again later where the order is paid
/// for and yet to be credited, and not again in any other case.
pub proof fn law_late_payments_are_repeated_until_credited(
    order: Option<OrderRecord>,
    now: int,
    out: Step<Confirm, ConfirmPaymentOutcome>,
)
    requires
        confirm_step(Confirm::Reloading, Reply::Order { order }, now, out),
    ensures
        out matches Step::Done { result: Ok(outcome) } && outcome == (if order matches Some(o) && (
        o.status@ == "PAID"@ || o.status@ == "FAILED"@ || o.status@ == "RECHARGING"@) {
            ConfirmPaymentOutcome::RetryLater
        } else {
            ConfirmPaymentOutcome::StopRetry
        }),
{
}

/// A payment that comes within five minutes of an order's expiry is offered to it, and one that
/// comes later is not taken.
pub proof fn law_payments_may_be_five_minutes_late(
    payment: Payment,
    order: OrderRecord,
    now: i64,
    out: Step<Confirm, ConfirmPaymentOutcome>,
    expired_at: int,
)
    requires
        call_ensures(
            Confirm::next,
            (Confirm::Loading { payment }, Reply::Order { order: Some(order) }, now),
            out,
        ),
        out matches Step::Act { action, .. } && action is MarkPaid,
    ensures
        expired_at >= out->action->MarkPaid_payment.grace_updated_at_gte <==> now - expired_at
            <= 300,
        out->action->MarkPaid_payment.paid_at == now,
        out->action->MarkPaid_payment.paid_amount_cents == payment.paid_amount_cents,
        out->action->MarkPaid_payment.order_id@ == payment.order_id@,
        out->action->MarkPaid_payment.trade_no@ == payment.trade_no@,
{
}

/// A payment is confirmed by steps, beginning with its order.
pub proof fn law_payments_are_confirmed_by_steps(
    s: Confirm,
    reply: Reply,
    now: i64,
    out: Step<Confirm, ConfirmPaymentOutcome>,
    payment: Payment,
    first: Step<Confirm, ConfirmPaymentOutcome>,
)
    requires
        call_ensures(Confirm::next, (s, reply, now), out),
        call_ensures(Confirm::start, (payment,), first),
    ensures
        confirm_step(s, reply, now as int, out),
        first matches Step::Act { action: Action::LoadOrder { order_id }, next: Confirm::Loading {
            payment: p,
        } } && order_id@ == payment.order_id@ && p == payment,
{
}

/// What an order costs is what is to be paid for it, or its amount where nothing else is said.
pub proof fn law_orders_cost_what_is_to_be_paid(order: OrderRecord, r: i64)
    requires
        call_ensures(order_cost, (&order,), r),
    ensures
        order.pay_amount_cents matches Some(c) ==> r == c,
        order.pay_amount_cents is None ==> r == order.amount_cents,
{
}

/// A payment that is taken is noted with its order under the gateway's name: the status that
/// the order had, the payment's number, and the amounts; one that does not fit with what was
/// expected, what was paid, and by how much they differ.
pub proof fn law_payments_are_noted(
    payment: Payment,
    order: OrderRecord,
    now: int,
    taken: Step<Confirm, ConfirmPaymentOutcome>,
    first: Step<Confirm, ConfirmPaymentOutcome>,
)
    requires
        confirm_step(
            Confirm::Marking { payment, order },
            Reply::Changed { changed: true },
            now,
            taken,
        ),
        confirm_step(
            Confirm::Loading { payment },
            Reply::Order { order: Some(order) },
            now,
            first,
        ),
    ensures
        ({
            let cost = match order.pay_amount_cents {
                Some(c) => c as int,
                None => order.amount_cents as int,
            };
            let paid = payment.paid_amount_cents as int;
            &&& taken matches Step::Act { action: Action::Audit { entry }, .. }
                && entry.order_id@ == payment.order_id@ && entry.action@ == "ORDER_PAID"@ && (
            entry.operator matches Some(o) && o@ == payment.provider_name@) && (
            entry.detail matches Some(d) && d@ == "{\"previousStatus\":\""@ + order.status@
                + "\",\"tradeNo\":\""@ + payment.trade_no@ + "\",\"expectedAmountCents\":"@
                + text::decimal(order.amount_cents as int) + ",\"expectedPayAmountCents\":"@
                + text::decimal(cost) + ",\"paidAmountCents\":"@ + text::decimal(paid) + "}"@)
            &&& paid > cost + 1 && paid > 0 ==> (first matches Step::Act {
                action: Action::Audit { entry },
                ..
            } && entry.order_id@ == order.id@ && entry.action@ == "PAYMENT_AMOUNT_MISMATCH"@ && (
            entry.operator matches Some(o) && o@ == payment.provider_name@) && (
            entry.detail matches Some(d) && d@ == "{\"expected\":"@ + text::decimal(cost)
                + ",\"paid\":"@ + text::decimal(paid) + ",\"diff\":"@ + text::decimal(paid - cost)
                + ",\"tradeNo\":\""@ + payment.trade_no@ + "\"}"@))
        }),
{
}

}
