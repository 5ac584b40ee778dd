//! What payment gateways are answered that report a payment.
use vstd::prelude::*;

use crate::db;
use crate::maps;
use crate::urlencoded;

verus! {

/// What came of a report: whether the order that it is about is done with. A report that is
/// about no payment is done with too.
#[derive(Debug)]
pub enum Handled {
    /// The report was not believed, or could not be worked on.
    Failed,
    Done { done: bool },
}

/// EasyPay repeats a report until it is answered `success`.
pub open spec fn easypay_answer(handled: Handled) -> Seq<char> {
    if handled matches Handled::Done { done } && done {
        "success"@
    } else {
        "fail"@
    }
}

pub fn answer_easypay(handled: &Handled) -> (r: &'static str)
    ensures
        r@ == easypay_answer(*handled),
{
    match handled {
        Handled::Done { done: true } => "success",
        _ => "fail",
    }
}

/// The instance that the query of a report names.
pub fn parse_inst(raw_query: &str) -> (r: Option<String>)
    ensures
        match urlencoded::query_map(raw_query@) {
            Ok(m) => db::opt_text(r) == maps::found(m, "inst"@),
            Err(_) => r is None,
        },
{
    match urlencoded::parse_query(raw_query) {
        Ok(m) => match m.get("inst") {
            Some(s) => Some(s.clone()),
            None => None,
        },
        Err(_) => None,
    }
}

/// The answer to Stripe: that the report was received, or a status at which it is repeated
/// or given up.
#[derive(Debug)]
pub struct StripeAnswer {
    pub status: u16,
    pub error: Option<&'static str>,
}

/// A report that is not believed is answered `400`; one whose order is not done with `500`,
/// so that it comes again.
pub open spec fn stripe_answered(r: StripeAnswer, handled: Handled) -> bool {
    match handled {
        Handled::Failed => r.status == 400 && db::opt_str(r.error) == Some(
            "Webhook processing failed"@,
        ),
        Handled::Done { done } => if done {
            r.status == 200 && r.error is None
        } else {
            r.status == 500 && db::opt_str(r.error) == Some("Processing failed, will retry"@)
        },
    }
}

pub fn answer_stripe(handled: &Handled) -> (r: StripeAnswer)
    ensures
        stripe_answered(r, *handled),
{
    match handled {
        Handled::Failed => StripeAnswer { status: 400, error: Some("Webhook processing failed") },
        Handled::Done { done: true } => StripeAnswer { status: 200, error: None },
        Handled::Done { done: false } => StripeAnswer {
            status: 500,
            error: Some("Processing failed, will retry"),
        },
    }
}

/// A gateway is told to stop reporting exactly where the order of its report is done with.
/// Stripe is told apart a report that is not believed, which is given up, and one whose order
/// is not done with, which comes again.
pub proof fn law_reports_come_again_until_done(r: StripeAnswer, handled: Handled)
    requires
        stripe_answered(r, handled),
    ensures
        easypay_answer(handled) == "success"@ <==> handled == (Handled::Done { done: true }),
        easypay_answer(handled) == "success"@ || easypay_answer(handled) == "fail"@,
        r.status == 200 <==> handled == (Handled::Done { done: true }),
        r.status == 500 <==> handled == (Handled::Done { done: false }),
        r.status == 400 <==> handled is Failed,
        r.error is None <==> r.status == 200,
{
    reveal_strlit("success");
    reveal_strlit("fail");
    assert("success"@.len() != "fail"@.len());
}

/// The instance of a report is the one that its address names.
pub proof fn law_addresses_name_their_instance(
    query: &str,
    r: Option<String>,
    m: Map<Seq<char>, Seq<char>>,
)
    requires
        call_ensures(parse_inst, (query,), r),
        urlencoded::query_map(query@) == Ok::<Map<Seq<char>, Seq<char>>, Seq<char>>(m),
    ensures
        r is Some <==> m.dom().contains("inst"@),
        r matches Some(i) ==> i@ == m["inst"@],
{
}

}
