//! A buyer's request for a refund.
use vstd::prelude::*;

use crate::db;
use crate::json;
use crate::order::cancel;
use crate::order::flow;
use crate::order::flow::{Action, Reply, Step};
use crate::order::fulfil;
use crate::order::refund;
use crate::order::repository::{MarkRefundRequestedInput, OrderRecord};
use crate::order::status::{is_status, OrderStatus};
use crate::text;

verus! {

#[derive(Debug)]
pub struct RequestRefundInput {
    pub order_id: String,
    pub user_id: i64,
    pub amount_cents: i64,
    pub reason: Option<String>,
}

/// Where a request stands.
pub enum Request {
    Loading { input: RequestRefundInput, platform: bool },
    ReadingKey { input: RequestRefundInput, order_user: i64, platform: bool },
    GettingUser { input: RequestRefundInput },
    Marking { input: RequestRefundInput },
    Logging,
}

pub type RequestStep = Step<Request, ()>;

/// Why a refund cannot be asked for, if it cannot, by what the order says.
pub open spec fn request_refused(order: Option<OrderRecord>, input: RequestRefundInput) -> Option<
    Seq<char>,
> {
    match order {
        None => Some("order not found"@),
        Some(o) => if o.user_id != input.user_id {
            Some("forbidden"@)
        } else if o.order_type@ != "balance"@ {
            Some("only balance orders support refund request"@)
        } else if o.status@ != OrderStatus::Completed.name() {
            Some("only completed orders can request refund"@)
        } else if input.amount_cents <= 0 {
            Some("refund amount must be positive"@)
        } else if input.amount_cents > o.amount_cents {
            Some("refund amount exceeds recharge amount"@)
        } else {
            None
        },
    }
}

fn check_request(order: &OrderRecord, input: &RequestRefundInput) -> (r: Option<String>)
    ensures
        db::opt_text(r) == request_refused(Some(*order), *input),
{
    if order.user_id != input.user_id {
        return Some("forbidden".to_owned());
    }
    if !text::same(order.order_type.as_str(), "balance") {
        return Some("only balance orders support refund request".to_owned());
    }
    if !is_status(order.status.as_str(), OrderStatus::Completed) {
        return Some("only completed orders can request refund".to_owned());
    }
    if input.amount_cents <= 0 {
        return Some("refund amount must be positive".to_owned());
    }
    if input.amount_cents > order.amount_cents {
        return Some("refund amount exceeds recharge amount".to_owned());
    }
    None
}

pub open spec fn request_members(input: RequestRefundInput) -> Seq<(Seq<char>, Seq<char>)> {
    seq![
        ("amountCents"@, text::decimal(input.amount_cents as int)),
        ("reason"@, json::opt_quoted(refund::filled(db::opt_text(input.reason)))),
        ("requestedBy"@, text::decimal(input.user_id as int)),
    ]
}

/// The step that follows a reply.
pub open spec fn request_step(s: Request, reply: Reply, now: i64, out: RequestStep) -> bool {
    match (s, reply) {
        (_, Reply::Error { message }) => flow::fails(out, message@),
        (Request::Loading { input, platform }, Reply::Order { order }) => {
            match request_refused(order, input) {
                Some(e) => flow::fails(out, e),
                None => out matches Step::Act { action, next } && flow::reads_key(action)
                    && next == (
                Request::ReadingKey { input, order_user: order->0.user_id, platform }),
            }
        },
        (Request::ReadingKey { input, order_user, platform }, Reply::Setting { value }) => {
            match fulfil::admin_key(db::opt_text(value)) {
                None => flow::fails(out, "SUB2API_ADMIN_API_KEY is not configured"@),
                Some(key) => if !platform {
                    flow::fails(out, "SUB2API_BASE_URL is not configured"@)
                } else {
                    out matches Step::Act { action: Action::GetUser { user_id, admin_key }, next }
                        && user_id == order_user && admin_key@ == key && next == (
                    Request::GettingUser { input })
                },
            }
        },
        (Request::GettingUser { input }, Reply::User { balance_cents }) => {
            let balance = match balance_cents {
                Some(b) => b,
                None => 0,
            };
            if balance < input.amount_cents {
                flow::fails(out, "refund amount exceeds current balance"@)
            } else {
                &&& out matches Step::Act { action: Action::MarkRefundRequested { request }, next }
                &&& request.order_id@ == input.order_id@
                &&& request.user_id == input.user_id
                &&& request.refund_amount_cents == input.amount_cents
                &&& db::opt_text(request.refund_request_reason) == refund::filled(
                    db::opt_text(input.reason),
                )
                &&& request.refund_requested_by == input.user_id
                &&& request.refund_requested_at == now
                &&& next == (Request::Marking { input })
            }
        },
        (Request::Marking { input }, Reply::Changed { changed: true }) => {
            out matches Step::Act { action, next: Request::Logging } && flow::audits(
                action,
                input.order_id@,
                "REFUND_REQUESTED"@,
                json::object_text(request_members(input)),
                "user:"@ + text::decimal(input.user_id as int),
            )
        },
        (Request::Marking { input }, Reply::Changed { changed: false }) => flow::fails(
            out,
            "order status changed, refresh and retry"@,
        ),
        (Request::Logging, Reply::Done) => flow::done(out, ()),
        _ => flow::fails(out, flow::unexpected()),
    }
}

impl Request {
    /// Begins to ask for a refund; `platform` says whether the platform is configured.
    pub fn start(input: RequestRefundInput, platform: bool) -> (r: RequestStep)
        ensures
            r matches Step::Act { action, next } && flow::loads(action, input.order_id@) && next
                == (Request::Loading { input, platform }),
    {
        let action = flow::load(input.order_id.as_str());
        Step::Act { action, next: Request::Loading { input, platform } }
    }

    /// Goes on with the reply to the last action.
    pub fn next(self, reply: Reply, now: i64) -> (r: RequestStep)
        ensures
            request_step(self, reply, now, r),
    {
        match (self, reply) {
            (_, Reply::Error { message }) => Step::Done { result: Err(message) },
            (Request::Loading { input, platform }, Reply::Order { order }) => {
                let order = match order {
                    Some(o) => o,
                    None => {
                        return flow::fail("order not found");
                    },
                };
                match check_request(&order, &input) {
                    Some(e) => Step::Done { result: Err(e) },
                    None => Step::Act {
                        action: flow::read_key(),
                        next: Request::ReadingKey { input, order_user: order.user_id, platform },
                    },
                }
            },
            (Request::ReadingKey { input, order_user, platform }, Reply::Setting { value }) => {
                match fulfil::read_admin_key(&value) {
                    None => flow::fail("SUB2API_ADMIN_API_KEY is not configured"),
                    Some(key) => {
                        if !platform {
                            flow::fail("SUB2API_BASE_URL is not configured")
                        } else {
                            Step::Act {
                                action: Action::GetUser { user_id: order_user, admin_key: key },
                                next: Request::GettingUser { input },
                            }
                        }
                    },
                }
            },
            (Request::GettingUser { input }, Reply::User { balance_cents }) => {
                let balance: i64 = match balance_cents {
                    Some(b) => b,
                    None => 0,
                };
                if balance < input.amount_cents {
                    return flow::fail("refund amount exceeds current balance");
                }
                let request = MarkRefundRequestedInput {
                    order_id: input.order_id.clone(),
                    user_id: input.user_id,
                    refund_amount_cents: input.amount_cents,
                    refund_request_reason: refund::filled_text(&input.reason),
                    refund_requested_by: input.user_id,
                    refund_requested_at: now,
                };
                Step::Act {
                    action: Action::MarkRefundRequested { request },
                    next: Request::Marking { input },
                }
            },
            (Request::Marking { input }, Reply::Changed { changed }) => {
                if !changed {
                    return flow::fail("order status changed, refresh and retry");
                }
                let reason = refund::filled_text(&input.reason);
                let mut detail = json::ObjectText::new();
                detail.number("amountCents", input.amount_cents);
                detail.opt_string("reason", &reason);
                detail.number("requestedBy", input.user_id);
                assert(detail@ =~= request_members(input));
                let action = flow::log(
                    input.order_id.as_str(),
                    "REFUND_REQUESTED",
                    detail.finish(),
                    cancel::user_operator(input.user_id).as_str(),
                );
                Step::Act { action, next: Request::Logging }
            },
            (Request::Logging, Reply::Done) => Step::Done { result: Ok(()) },
            _ => flow::fail("unexpected reply"),
        }
    }
}

/// A refund is asked for only by the buyer, of a completed balance order, and for no
/// more than was credited.
pub proof fn law_requests_are_of_the_buyer(
    input: RequestRefundInput,
    platform: bool,
    order: Option<OrderRecord>,
    now: i64,
    out: RequestStep,
)
    requires
        request_step(Request::Loading { input, platform }, Reply::Order { order }, now, out),
        out is Act,
    ensures
        order matches Some(o) && o.user_id == input.user_id && o.order_type@ == "balance"@
            && o.status@ == OrderStatus::Completed.name() && 0 < input.amount_cents
            <= o.amount_cents,
{
}

/// A refund may be asked for exactly by the buyer of a completed recharge, for an amount between
/// a cent and what was credited.
pub proof fn law_refunds_may_be_asked_for(
    input: RequestRefundInput,
    platform: bool,
    order: OrderRecord,
    now: i64,
    out: RequestStep,
)
    requires
        request_step(
            Request::Loading { input, platform },
            Reply::Order { order: Some(order) },
            now,
            out,
        ),
    ensures
        out is Act <==> order.user_id == input.user_id && order.order_type@ == "balance"@
            && order.status@ == "COMPLETED"@ && 1 <= input.amount_cents <= order.amount_cents,
        out matches Step::Act { next, .. } ==> (next matches Request::ReadingKey {
            input: i,
            order_user,
            ..
        } && i == input && order_user == order.user_id),
{
}

/// A refund is noted exactly where the buyer still has the amount, and then as asked for by
/// them, of that amount, now, for the reason they gave, if any.
pub proof fn law_refunds_are_asked_for_within_the_balance(
    input: RequestRefundInput,
    balance_cents: Option<i64>,
    now: i64,
    out: RequestStep,
)
    requires
        input.amount_cents > 0,
        request_step(
            Request::GettingUser { input },
            Reply::User { balance_cents },
            now,
            out,
        ),
    ensures
        out is Act <==> balance_cents is Some && balance_cents->0 >= input.amount_cents,
        out is Act ==> (out->action matches Action::MarkRefundRequested { request }
            && request.order_id@ == input.order_id@ && request.user_id == input.user_id
            && request.refund_requested_by == input.user_id && request.refund_amount_cents
            == input.amount_cents && request.refund_requested_at == now),
        out is Act && (input.reason matches Some(r) && text::trimmed(r@).len() > 0) ==> (
        out->action matches Action::MarkRefundRequested { request }
            && request.refund_request_reason is Some && request.refund_request_reason->0@
            == text::trimmed(input.reason->0@)),
{
}

/// A request goes on by steps.
pub proof fn law_request_goes_on_by_steps(s: Request, reply: Reply, now: i64, out: RequestStep)
    requires
        call_ensures(Request::next, (s, reply, now), out),
    ensures
        request_step(s, reply, now, out),
{
}

/// A request for a refund is noted with its order by the buyer.
pub proof fn law_requests_are_noted(input: RequestRefundInput, now: i64, out: RequestStep)
    requires
        request_step(Request::Marking { input }, Reply::Changed { changed: true }, now, out),
    ensures
        out matches Step::Act { action: Action::Audit { entry }, .. } && entry.order_id@
            == input.order_id@ && entry.action@ == "REFUND_REQUESTED"@ && (
        entry.operator matches Some(o) && o@ == "user:"@ + text::decimal(input.user_id as int))
            && entry.detail is Some,
{
}

/// The note of a request tells the amount, the reason where one was given, and who asked.
pub proof fn law_requests_are_noted_with_their_reason(input: RequestRefundInput)
    ensures
        request_members(input).contains(("amountCents"@, text::decimal(input.amount_cents as int))),
        request_members(input).contains(("requestedBy"@, text::decimal(input.user_id as int))),
        input.reason is None ==> request_members(input).contains(("reason"@, "null"@)),
        input.reason matches Some(s) ==> text::trimmed(s@).len() > 0 && text::trimmed(s@) == s@
            ==> request_members(input).contains(("reason"@, json::json_quoted(s@))),
{
    let m = request_members(input);
    assert(m[0].0 == "amountCents"@);
    assert(m[1].0 == "reason"@);
    assert(m[2].0 == "requestedBy"@);
}

/// A request that is refused is refused for what is wrong with it, what is another's first.
pub proof fn law_requests_are_refused_for_a_reason(o: OrderRecord, input: RequestRefundInput)
    ensures
        request_refused(None, input) == Some("order not found"@),
        o.user_id != input.user_id ==> request_refused(Some(o), input) == Some("forbidden"@),
        o.user_id == input.user_id && o.order_type@ != "balance"@ ==> request_refused(
            Some(o),
            input,
        ) == Some("only balance orders support refund request"@),
        o.user_id == input.user_id && o.order_type@ == "balance"@ && o.status@ != "COMPLETED"@
            ==> request_refused(Some(o), input) == Some(
            "only completed orders can request refund"@,
        ),
        o.user_id == input.user_id && o.order_type@ == "balance"@ && o.status@ == "COMPLETED"@
            && input.amount_cents <= 0 ==> request_refused(Some(o), input) == Some(
            "refund amount must be positive"@,
        ),
        o.user_id == input.user_id && o.order_type@ == "balance"@ && o.status@ == "COMPLETED"@
            && input.amount_cents > 0 && input.amount_cents > o.amount_cents ==> request_refused(
            Some(o),
            input,
        ) == Some("refund amount exceeds recharge amount"@),
{
}

}
