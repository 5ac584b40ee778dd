//! Refunds that administrators give.
use vstd::prelude::*;

use crate::admin_auth;
use crate::db;
use crate::error::{AppError, ErrorKind, Refusal};
use crate::http::common;
use crate::http::common::said;
use crate::http::fields;
use crate::http::orders;
use crate::json::{JsonData, JsonValue};
use crate::order::refund::{ProcessRefundInput, ProcessRefundResult};
use crate::text;

verus! {

pub open spec fn invalid_parameters(locale: Seq<char>) -> Refusal {
    (ErrorKind::BadRequest, said(locale, "参数错误"@, "Invalid parameters"@))
}

/// The identifier of an order, which is not blank.
pub open spec fn order_id_in(v: Option<JsonValue>) -> Option<Seq<char>> {
    match v {
        Some(j) => match j.data {
            JsonData::Text { text } => admin_auth::filled_trimmed(Some(text@)),
            _ => None,
        },
        None => None,
    }
}

/// An amount in cents: none where it is left out or null, and no other value than a positive
/// number.
pub open spec fn optional_amount(v: Option<JsonValue>) -> Option<Option<i64>> {
    if fields::is_blank(v) {
        Some(None)
    } else {
        match orders::amount_in(v) {
            Some(n) => Some(Some(n)),
            None => None,
        }
    }
}

/// A flag that may be left out or null.
pub open spec fn flag_in(v: Option<JsonValue>, default: bool) -> Option<bool> {
    if fields::is_blank(v) {
        Some(default)
    } else {
        match v->0.data {
            JsonData::Flag { flag } => Some(flag),
            _ => None,
        }
    }
}

fn read_flag(v: Option<&JsonValue>, default: bool) -> (r: Option<bool>)
    ensures
        r == flag_in(fields::deref(v), default),
{
    match v {
        None => Some(default),
        Some(j) => match &j.data {
            JsonData::Null => Some(default),
            JsonData::Flag { flag } => Some(*flag),
            _ => None,
        },
    }
}

fn is_blank_field(v: Option<&JsonValue>) -> (r: bool)
    ensures
        r == fields::is_blank(fields::deref(v)),
{
    match v {
        None => true,
        Some(j) => match &j.data {
            JsonData::Null => true,
            _ => false,
        },
    }
}

/// Whether a request for a refund is in order.
pub open spec fn request_valid(body: JsonValue) -> bool {
    &&& body.data matches JsonData::Object { members }
    &&& order_id_in(fields::field(members@, "order_id"@)) is Some
    &&& optional_amount(fields::field(members@, "amount"@)) is Some
    &&& orders::reason_in(fields::field(members@, "reason"@)) is Some
    &&& flag_in(fields::field(members@, "force"@), false) is Some
    &&& flag_in(fields::field(members@, "deduct_balance"@), true) is Some
}

/// The refund that a request asks for. What is bought is taken back unless the request says
/// otherwise.
pub open spec fn request_reads(input: ProcessRefundInput, body: JsonValue) -> bool {
    &&& body.data matches JsonData::Object { members }
    &&& order_id_in(fields::field(members@, "order_id"@)) == Some(input.order_id@)
    &&& optional_amount(fields::field(members@, "amount"@)) == Some(input.amount_cents)
    &&& orders::reason_in(fields::field(members@, "reason"@)) == Some(db::opt_text(input.reason))
    &&& flag_in(fields::field(members@, "force"@), false) == Some(input.force)
    &&& flag_in(fields::field(members@, "deduct_balance"@), true) == Some(input.deduct_balance)
}

pub fn read_refund(body: &JsonValue, locale: &str) -> (r: Result<ProcessRefundInput, AppError>)
    requires
        body.wf(),
    ensures
        match r {
            Ok(input) => request_valid(*body) && request_reads(input, *body),
            Err(e) => !request_valid(*body) && e@ == invalid_parameters(locale@),
        },
{
    let message = common::message(locale, "参数错误", "Invalid parameters");
    let object = match fields::require_object(body, message) {
        Ok(o) => o,
        Err(e) => {
            return Err(e);
        },
    };
    let order_id = match fields::required_non_empty_string(
        fields::get_field(object, "order_id"),
        message,
    ) {
        Ok(id) => id,
        Err(e) => {
            return Err(e);
        },
    };
    let amount = fields::get_field(object, "amount");
    let amount_cents: Option<i64> = if is_blank_field(amount) {
        None
    } else {
        match orders::read_amount(amount) {
            Some(n) => Some(n),
            None => {
                return Err(AppError::bad_request(message));
            },
        }
    };
    let reason = match orders::read_reason(fields::get_field(object, "reason")) {
        Some(r) => r,
        None => {
            return Err(AppError::bad_request(message));
        },
    };
    let force = match read_flag(fields::get_field(object, "force"), false) {
        Some(b) => b,
        None => {
            return Err(AppError::bad_request(message));
        },
    };
    let deduct_balance = match read_flag(fields::get_field(object, "deduct_balance"), true) {
        Some(b) => b,
        None => {
            return Err(AppError::bad_request(message));
        },
    };
    Ok(ProcessRefundInput { order_id, amount_cents, reason, force, deduct_balance })
}

// ---------------------------------------------------------------------------
// What is answered
// ---------------------------------------------------------------------------
/// Whether a warning tells of a gateway that failed, after which everything was put back.
pub open spec fn tells_of_rollback(warning: Seq<char>) -> bool {
    "gateway refund failed: "@.is_prefix_of(warning) && text::is_suffix(
        ", deduction rolled back"@,
        warning,
    )
}

/// A warning in the language of the administrator.
pub open spec fn localized_warning(locale: Seq<char>, warning: Seq<char>) -> Seq<char> {
    if warning == "cannot fetch subscription info, use force"@ {
        said(
            locale,
            "无法获取订阅信息，请勾选强制退款"@,
            "Cannot fetch subscription info, use force"@,
        )
    } else if warning == "cannot fetch user balance, use force"@ {
        said(
            locale,
            "无法获取用户余额，请勾选强制退款"@,
            "Cannot fetch user balance, use force"@,
        )
    } else if tells_of_rollback(warning) && locale != "en"@ {
        "支付网关退款失败："@ + text::stripped_end(
            text::stripped_start(warning, "gateway refund failed: "@),
            ", deduction rolled back"@,
        ) + "，已回滚扣减"@
    } else {
        warning
    }
}

pub fn localize_refund_warning(locale: &str, warning: &str) -> (r: String)
    ensures
        r@ == localized_warning(locale@, warning@),
{
    if text::same(warning, "cannot fetch subscription info, use force") {
        common::message(
            locale,
            "无法获取订阅信息，请勾选强制退款",
            "Cannot fetch subscription info, use force",
        ).to_owned()
    } else if text::same(warning, "cannot fetch user balance, use force") {
        common::message(
            locale,
            "无法获取用户余额，请勾选强制退款",
            "Cannot fetch user balance, use force",
        ).to_owned()
    } else if text::starts_with(warning, "gateway refund failed: ") && text::strip_suffix(
        warning,
        ", deduction rolled back",
    ).is_some() && !text::same(locale, "en") {
        let reason = text::strip_all_suffixes(
            text::strip_all_prefixes(warning, "gateway refund failed: "),
            ", deduction rolled back",
        );
        text::cat3("支付网关退款失败：", reason, "，已回滚扣减")
    } else {
        warning.to_owned()
    }
}

/// What is answered to a refund. The balance is in cents.
#[derive(Debug)]
pub struct RefundResponse {
    pub success: bool,
    pub warning: Option<String>,
    pub require_force: bool,
    pub balance_deducted_cents: Option<i64>,
    pub subscription_days_deducted: Option<i64>,
}

pub open spec fn refund_answered(
    r: RefundResponse,
    locale: Seq<char>,
    result: ProcessRefundResult,
) -> bool {
    &&& r.success == result.success
    &&& db::opt_text(r.warning) == match result.warning {
        Some(w) => Some(localized_warning(locale, w@)),
        None => None,
    }
    &&& r.require_force == (!result.success && result.require_force)
    &&& r.balance_deducted_cents == if result.success {
        Some(result.balance_deducted_cents)
    } else {
        None
    }
    &&& r.subscription_days_deducted == if result.success {
        Some(result.subscription_days_deducted)
    } else {
        None
    }
}

pub fn to_response(locale: &str, result: ProcessRefundResult) -> (r: RefundResponse)
    ensures
        refund_answered(r, locale@, result),
{
    let warning = match &result.warning {
        Some(w) => Some(localize_refund_warning(locale, w.as_str())),
        None => None,
    };
    if result.success {
        RefundResponse {
            success: true,
            warning,
            require_force: false,
            balance_deducted_cents: Some(result.balance_deducted_cents),
            subscription_days_deducted: Some(result.subscription_days_deducted),
        }
    } else {
        RefundResponse {
            success: false,
            warning,
            require_force: result.require_force,
            balance_deducted_cents: None,
            subscription_days_deducted: None,
        }
    }
}

/// What is said of a refund that failed.
pub open spec fn process_refund_refusal(error: Seq<char>, locale: Seq<char>) -> Refusal {
    if error == "order not found"@ {
        (ErrorKind::NotFound, said(locale, "订单不存在"@, "Order not found"@))
    } else if error == "order is not refundable in current status"@ {
        (
            ErrorKind::BadRequest,
            said(
                locale,
                "仅已完成、已申请退款或退款失败的订单允许退款"@,
                "Only completed, refund-requested, or refund-failed orders can be refunded"@,
            ),
        )
    } else if error == "refund amount must be positive"@ {
        (
            ErrorKind::BadRequest,
            said(locale, "退款金额必须大于 0"@, "Refund amount must be greater than 0"@),
        )
    } else if error == "refund amount exceeds recharge amount"@ {
        (
            ErrorKind::BadRequest,
            said(
                locale,
                "退款金额不能超过充值金额"@,
                "Refund amount cannot exceed recharge amount"@,
            ),
        )
    } else if error == "order status changed, refresh and retry"@ {
        (
            ErrorKind::Conflict,
            said(
                locale,
                "订单状态已变更，请刷新后重试"@,
                "Order status changed, refresh and retry"@,
            ),
        )
    } else {
        (ErrorKind::PublicInternal, said(locale, "退款失败"@, "Refund failed"@))
    }
}

pub fn map_process_refund_error(error: &str, locale: &str) -> (r: AppError)
    ensures
        r@ == process_refund_refusal(error@, locale@),
{
    if text::same(error, "order not found") {
        AppError::not_found(common::message(locale, "订单不存在", "Order not found"))
    } else if text::same(error, "order is not refundable in current status") {
        AppError::bad_request(
            common::message(
                locale,
                "仅已完成、已申请退款或退款失败的订单允许退款",
                "Only completed, refund-requested, or refund-failed orders can be refunded",
            ),
        )
    } else if text::same(error, "refund amount must be positive") {
        AppError::bad_request(
            common::message(locale, "退款金额必须大于 0", "Refund amount must be greater than 0"),
        )
    } else if text::same(error, "refund amount exceeds recharge amount") {
        AppError::bad_request(
            common::message(
                locale,
                "退款金额不能超过充值金额",
                "Refund amount cannot exceed recharge amount",
            ),
        )
    } else if text::same(error, "order status changed, refresh and retry") {
        AppError::conflict(
            common::message(
                locale,
                "订单状态已变更，请刷新后重试",
                "Order status changed, refresh and retry",
            ),
        )
    } else {
        AppError::public_internal(common::message(locale, "退款失败", "Refund failed"))
    }
}

/// A refund is asked for as the body says: of its order, of its amount or all where it names
/// none, by force only where it says so, and taking back what was credited unless it says not
/// to.
pub proof fn law_refunds_are_asked_for_as_written(
    input: ProcessRefundInput,
    members: Map<Seq<char>, JsonValue>,
    body: JsonValue,
)
    requires
        request_reads(input, body),
        body.data matches JsonData::Object { members: m } && m@ == members,
    ensures
        members.dom().contains("order_id"@) && (members["order_id"@].data matches JsonData::Text {
            text,
        } && input.order_id@ == text::trimmed(text@)) && input.order_id@.len() > 0,
        !members.dom().contains("amount"@) ==> input.amount_cents is None,
        members.dom().contains("amount"@) && !(members["amount"@].data is Null) ==> (
        members["amount"@].data matches JsonData::Number { number } && number.positive_cents
            is Some && input.amount_cents == number.positive_cents),
        !members.dom().contains("force"@) ==> !input.force,
        members.dom().contains("force"@) && (members["force"@].data is Flag) ==> input.force
            == members["force"@].data->flag,
        !members.dom().contains("deduct_balance"@) ==> input.deduct_balance,
        members.dom().contains("deduct_balance"@) && (members["deduct_balance"@].data is Flag)
            ==> input.deduct_balance == members["deduct_balance"@].data->flag,
{
}

/// A refund that went through is answered with what was taken off the user; one that did not
/// with neither, and with whether force is needed.
pub proof fn law_refunds_are_answered_as_they_went(
    r: RefundResponse,
    locale: Seq<char>,
    result: ProcessRefundResult,
)
    requires
        refund_answered(r, locale, result),
    ensures
        r.success == result.success,
        result.success ==> r.balance_deducted_cents == Some(result.balance_deducted_cents)
            && r.subscription_days_deducted == Some(result.subscription_days_deducted)
            && !r.require_force,
        !result.success ==> r.balance_deducted_cents is None
            && r.subscription_days_deducted is None && r.require_force == result.require_force,
        r.warning is Some <==> result.warning is Some,
{
}

/// A refund that is refused is told apart: an order that is not there, one in no state for it,
/// an amount that cannot be, and one that has changed meanwhile.
pub proof fn law_refusals_of_refunds_are_told_apart(error: Seq<char>, locale: Seq<char>)
    ensures
        process_refund_refusal("order not found"@, locale).0 == ErrorKind::NotFound,
        process_refund_refusal(error, locale).0 == ErrorKind::NotFound ==> error
            == "order not found"@,
        process_refund_refusal(error, locale).0 == ErrorKind::Conflict ==> error
            == "order status changed, refresh and retry"@,
        process_refund_refusal(error, locale).0 == ErrorKind::BadRequest ==> error
            == "order is not refundable in current status"@ || error
            == "refund amount must be positive"@ || error
            == "refund amount exceeds recharge amount"@,
{
}

/// In English a warning is told as it is, but that the two that ask for force begin with a
/// capital.
pub proof fn law_warnings_are_told(warning: Seq<char>)
    ensures
        warning != "cannot fetch subscription info, use force"@ && warning
            != "cannot fetch user balance, use force"@ ==> localized_warning("en"@, warning)
            == warning,
        localized_warning("en"@, "cannot fetch user balance, use force"@)
            == "Cannot fetch user balance, use force"@,
{
    reveal_strlit("cannot fetch subscription info, use force");
    reveal_strlit("cannot fetch user balance, use force");
    assert("cannot fetch subscription info, use force"@.len()
        != "cannot fetch user balance, use force"@.len());
}


/// A body asks for a refund exactly where it names an order, and where its amount is above
/// zero, its reason a text and its flags are flags, as far as it has them.
pub proof fn law_refund_bodies_are_valid(body: JsonValue, m: Map<Seq<char>, JsonValue>)
    requires
        body.data matches JsonData::Object { members } && members@ == m,
    ensures
        ({
            let absent = |key: Seq<char>| !m.dom().contains(key) || m[key].data is Null;
            request_valid(body) <==> {
                &&& m.dom().contains("order_id"@)
                &&& m["order_id"@].data is Text
                &&& text::trimmed(m["order_id"@].data->text@).len() > 0
                &&& absent("amount"@) || (m["amount"@].data is Number
                    && m["amount"@].data->number.positive_cents is Some)
                &&& absent("reason"@) || m["reason"@].data is Text
                &&& absent("force"@) || m["force"@].data is Flag
                &&& absent("deduct_balance"@) || m["deduct_balance"@].data is Flag
            }
        }),
{
}

}
