//! What follows the notice of a payment: it is confirmed, and the order is credited.
use vstd::prelude::*;

use crate::order::confirm;
use crate::order::confirm::{
    Confirm, ConfirmPaymentOutcome, Payment, PAYMENT_CONFIRM_GRACE_SECONDS,
};
use crate::order::flow;
use crate::order::flow::{Action, Reply, Step};
use crate::order::fulfil;
use crate::order::fulfil::Fulfil;
use crate::order::repository::OrderRecord;
use crate::payment_provider::VerifiedPaymentNotification;
use crate::subscription_plan;

verus! {

/// Where the handling of a notice stands.
pub enum Notification {
    Confirming { order_id: String, confirm: Confirm, platform: bool },
    Fulfilling { work: Fulfil },
}

/// The end says whether the sender of the notice may stop sending it.
pub type NotificationStep = Step<Notification, bool>;

/// Whether the order is credited after a confirmation came out so.
pub open spec fn goes_on(outcome: ConfirmPaymentOutcome) -> bool {
    outcome == ConfirmPaymentOutcome::Confirmed || outcome == ConfirmPaymentOutcome::RetryLater
}

/// The step that follows a reply.
pub open spec fn notification_step(
    s: Notification,
    reply: Reply,
    now: i64,
    out: NotificationStep,
) -> bool {
    match s {
        Notification::Fulfilling { work } => match out {
            Step::Act { action, next } => next matches Notification::Fulfilling { work: w }
                && fulfil::fulfil_step(work, reply, now, Step::Act { action, next: w }),
            Step::Done { result } => fulfil::fulfil_step(work, reply, now, Step::Done { result }),
        },
        Notification::Confirming { order_id, confirm: work, platform } => match out {
            Step::Act {
                action,
                next: Notification::Confirming { order_id: id, confirm: w, platform: p },
            } => id == order_id && p == platform && confirm::confirm_step(
                work,
                reply,
                now as int,
                Step::Act { action, next: w },
            ),
            Step::Act { action, next: Notification::Fulfilling { work: w } } => flow::loads(
                action,
                order_id@,
            ) && w == (Fulfil::Loading { platform }) && (exists|outcome: ConfirmPaymentOutcome|
                goes_on(outcome) && #[trigger] confirm::confirm_step(
                    work,
                    reply,
                    now as int,
                    Step::Done { result: Ok(outcome) },
                )),
            Step::Done { result: Ok(settled) } => exists|outcome: ConfirmPaymentOutcome|
                !goes_on(outcome) && settled == (outcome == ConfirmPaymentOutcome::StopRetry)
                    && #[trigger] confirm::confirm_step(
                    work,
                    reply,
                    now as int,
                    Step::Done { result: Ok(outcome) },
                ),
            Step::Done { result: Err(e) } => confirm::confirm_step(
                work,
                reply,
                now as int,
                Step::Done { result: Err(e) },
            ),
        },
    }
}

impl Notification {
    /// Begins to handle a notice that was verified. A notice of a payment that did not
    /// succeed needs nothing.
    pub fn start(notice: VerifiedPaymentNotification, platform: bool) -> (r: NotificationStep)
        ensures
            if notice.success {
                &&& r matches Step::Act {
                    action,
                    next: Notification::Confirming {
                        order_id,
                        confirm: Confirm::Loading { payment },
                        platform: p,
                    },
                }
                &&& flow::loads(action, notice.order_id@)
                &&& order_id@ == notice.order_id@
                &&& payment.order_id@ == notice.order_id@
                &&& payment.trade_no@ == notice.trade_no@
                &&& payment.paid_amount_cents == notice.amount_cents
                &&& payment.provider_name@ == notice.provider_name@
                &&& p == platform
            } else {
                flow::done(r, true)
            },
    {
        if !notice.success {
            return Step::Done { result: Ok(true) };
        }
        let order_id = notice.order_id.clone();
        let payment = Payment {
            order_id: notice.order_id,
            trade_no: notice.trade_no,
            paid_amount_cents: notice.amount_cents,
            provider_name: notice.provider_name,
        };
        let action = flow::load(order_id.as_str());
        Step::Act {
            action,
            next: Notification::Confirming {
                order_id,
                confirm: Confirm::Loading { payment },
                platform,
            },
        }
    }

    /// Goes on with the reply to the last action.
    pub fn next(self, reply: Reply, now: i64) -> (r: NotificationStep)
        requires
            self matches Notification::Confirming { confirm, .. } ==> confirm is Loading
                ==> i64::MIN + PAYMENT_CONFIRM_GRACE_SECONDS <= now,
            reply matches Reply::Plan { plan: Some(p) } ==> subscription_plan::validity_fits(
                p.validity_days as int,
                p.validity_unit@,
            ),
        ensures
            notification_step(self, reply, now, r),
    {
        match self {
            Notification::Fulfilling { work } => match work.next(reply, now) {
                Step::Act { action, next } => Step::Act {
                    action,
                    next: Notification::Fulfilling { work: next },
                },
                Step::Done { result } => Step::Done { result },
            },
            Notification::Confirming { order_id, confirm: work, platform } => match work.next(reply, now) {
                Step::Act { action, next } => Step::Act {
                    action,
                    next: Notification::Confirming { order_id, confirm: next, platform },
                },
                Step::Done { result: Ok(outcome) } => {
                    assert(confirm::confirm_step(
                        work,
                        reply,
                        now as int,
                        Step::Done { result: Ok(outcome) },
                    ));
                    match outcome {
                        ConfirmPaymentOutcome::Confirmed | ConfirmPaymentOutcome::RetryLater => {
                            Step::Act {
                                action: flow::load(order_id.as_str()),
                                next: Notification::Fulfilling {
                                    work: Fulfil::Loading { platform },
                                },
                            }
                        },
                        ConfirmPaymentOutcome::StopRetry => Step::Done { result: Ok(true) },
                        _ => Step::Done { result: Ok(false) },
                    }
                },
                Step::Done { result: Err(e) } => Step::Done { result: Err(e) },
            },
        }
    }
}

/// A notice is not acknowledged where its order is not there, nor where the payment
/// was of the wrong amount: the sender goes on sending it.
pub proof fn law_wrong_payments_are_not_acknowledged(
    order_id: String,
    payment: Payment,
    platform: bool,
    now: i64,
    missing: NotificationStep,
    mismatch: NotificationStep,
)
    requires
        notification_step(
            Notification::Confirming { order_id, confirm: Confirm::Loading { payment }, platform },
            Reply::Order { order: None },
            now,
            missing,
        ),
        notification_step(
            Notification::Confirming {
                order_id,
                confirm: Confirm::Auditing { outcome: ConfirmPaymentOutcome::AmountMismatch },
                platform,
            },
            Reply::Done,
            now,
            mismatch,
        ),
    ensures
        flow::done(missing, false),
        flow::done(mismatch, false),
{
}

/// A payment that was just taken leads to the order being credited.
pub proof fn law_confirmed_payments_are_credited(
    order_id: String,
    platform: bool,
    now: i64,
    out: NotificationStep,
)
    requires
        notification_step(
            Notification::Confirming {
                order_id,
                confirm: Confirm::Auditing { outcome: ConfirmPaymentOutcome::Confirmed },
                platform,
            },
            Reply::Done,
            now,
            out,
        ),
    ensures
        out matches Step::Act { action, next } && flow::loads(action, order_id@) && next == (
        Notification::Fulfilling { work: Fulfil::Loading { platform } }),
{
}

/// A payment that the order has taken before leads to its crediting too where that is yet to be
/// done; one that the order cannot take any more is acknowledged, and nothing is credited.
pub proof fn law_late_payments_are_settled(
    order_id: String,
    platform: bool,
    order: OrderRecord,
    now: i64,
    out: NotificationStep,
)
    requires
        notification_step(
            Notification::Confirming { order_id, confirm: Confirm::Reloading, platform },
            Reply::Order { order: Some(order) },
            now,
            out,
        ),
    ensures
        order.status@ == "PAID"@ || order.status@ == "FAILED"@ || order.status@ == "RECHARGING"@
            ==> (out matches Step::Act { action, next: Notification::Fulfilling { work } }
            && flow::loads(action, order_id@) && work == (Fulfil::Loading { platform })),
        order.status@ != "PAID"@ && order.status@ != "FAILED"@ && order.status@ != "RECHARGING"@
            ==> out == (NotificationStep::Done { result: Ok(true) }),
{
}

/// A report goes on by steps.
pub proof fn law_report_goes_on_by_steps(s: Notification, reply: Reply, now: i64, out: NotificationStep)
    requires
        call_ensures(Notification::next, (s, reply, now), out),
    ensures
        notification_step(s, reply, now, out),
{
}

/// A report of success is held against the order that it names, with the payment that it
/// reports; a report of anything else is done with at once.
pub proof fn law_reports_are_held_against_their_order(
    notice: VerifiedPaymentNotification,
    platform: bool,
    out: NotificationStep,
)
    requires
        call_ensures(Notification::start, (notice, platform), out),
    ensures
        notice.success ==> (out matches Step::Act {
            action: Action::LoadOrder { order_id },
            next: Notification::Confirming { confirm: Confirm::Loading { payment }, .. },
        } && order_id@ == notice.order_id@ && payment.order_id@ == notice.order_id@
            && payment.trade_no@ == notice.trade_no@ && payment.paid_amount_cents
            == notice.amount_cents && payment.provider_name@ == notice.provider_name@),
        !notice.success ==> out == (Step::<Notification, bool>::Done { result: Ok(true) }),
{
}

}
