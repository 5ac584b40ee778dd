//! New orders, and what is noted of them until they are paid.
use vstd::prelude::*;

use crate::db;
use crate::ids;
use crate::json;
use crate::order::audit;
use crate::order::audit::NewAuditLog;
use crate::order::cancel;
use crate::order::codegen;
use crate::order::repository::{NewPendingOrder, OrderRecord};
use crate::order::status::OrderStatus;
use crate::payment_provider::CreatePaymentResponse;
use crate::text;

verus! {

pub const DEFAULT_MAX_PENDING_ORDERS: i64 = 3;

pub const DEFAULT_ORDER_TIMEOUT_MINUTES: i64 = 5;

/// How often orders past their time are looked for, in seconds.
pub const EXPIRY_SCAN_INTERVAL_SECONDS: u64 = 30;

/// How many orders past their time are closed at once.
pub const EXPIRY_SCAN_BATCH_SIZE: i64 = 50;

#[derive(Debug)]
pub struct CreatePendingOrderInput {
    pub user_id: i64,
    pub amount_cents: i64,
    pub pay_amount_cents: Option<i64>,
    pub fee_rate_bps: Option<i64>,
    pub payment_type: String,
    pub order_type: String,
    pub plan_id: Option<String>,
    pub subscription_group_id: Option<i64>,
    pub subscription_days: Option<i64>,
    pub provider_instance_id: Option<String>,
}

/// What the settings say of new orders. An amount is given in cents where the setting
/// holds one.
pub struct OrderRules {
    pub balance_payment_disabled: Option<String>,
    pub min_amount_cents: Option<i64>,
    pub max_amount_cents: Option<i64>,
    pub max_pending_orders: Option<String>,
    pub order_timeout_minutes: Option<String>,
    /// The amounts that hold where the settings have none.
    pub default_min_amount_cents: i64,
    pub default_max_amount_cents: i64,
}

/// Whether an optional number is there and positive.
pub open spec fn positive(n: Option<i64>) -> bool {
    n matches Some(v) && v > 0
}

/// Why the order cannot be placed whatever the settings say, if it cannot.
pub open spec fn order_malformed(input: CreatePendingOrderInput) -> Option<Seq<char>> {
    if input.user_id <= 0 {
        Some("invalid user id"@)
    } else if input.amount_cents <= 0 {
        Some("amount must be positive"@)
    } else if input.order_type@ == "balance"@ {
        None
    } else if input.order_type@ == "subscription"@ {
        if input.plan_id is None || input.plan_id->0@.len() == 0 {
            Some("subscription plan is required"@)
        } else if !positive(input.subscription_group_id) {
            Some("subscription group is required"@)
        } else if !positive(input.subscription_days) {
            Some("subscription validity is required"@)
        } else {
            None
        }
    } else {
        Some("unsupported order type "@ + input.order_type@)
    }
}

/// The number that a setting holds, or else the default.
pub open spec fn setting_number(value: Option<Seq<char>>, default: int) -> int {
    match value {
        Some(v) => match text::i64_in(v) {
            Some(n) => n,
            None => default,
        },
        None => default,
    }
}

pub open spec fn cents_or(value: Option<i64>, default: i64) -> i64 {
    match value {
        Some(v) => v,
        None => default,
    }
}

/// Why the settings do not let the order be placed, if they do not.
pub open spec fn order_refused(
    input: CreatePendingOrderInput,
    rules: OrderRules,
    pending_count: int,
) -> Option<Seq<char>> {
    let balance = input.order_type@ == "balance"@;
    if balance && db::opt_text(rules.balance_payment_disabled) == Some("true"@) {
        Some("balance payment is disabled"@)
    } else if balance && !(cents_or(rules.min_amount_cents, rules.default_min_amount_cents)
        <= input.amount_cents <= cents_or(rules.max_amount_cents, rules.default_max_amount_cents)) {
        Some("amount out of allowed range"@)
    } else if pending_count >= setting_number(
        db::opt_text(rules.max_pending_orders),
        DEFAULT_MAX_PENDING_ORDERS as int,
    ) {
        Some("too many pending orders"@)
    } else {
        None
    }
}

/// How long an order awaits payment, in minutes: at least one.
pub open spec fn timeout_minutes(rules: OrderRules) -> int {
    let minutes = setting_number(
        db::opt_text(rules.order_timeout_minutes),
        DEFAULT_ORDER_TIMEOUT_MINUTES as int,
    );
    if minutes < 1 {
        1
    } else {
        minutes
    }
}

fn read_number(value: &Option<String>, default: i64) -> (r: i64)
    ensures
        r == setting_number(db::opt_text(*value), default as int),
{
    match value {
        Some(v) => match text::parse_i64(v.as_str()) {
            Some(n) => n,
            None => default,
        },
        None => default,
    }
}

/// Checks what does not depend on the settings.
pub fn check_new_order(input: &CreatePendingOrderInput) -> (r: Option<String>)
    ensures
        db::opt_text(r) == order_malformed(*input),
{
    if input.user_id <= 0 {
        return Some("invalid user id".to_owned());
    }
    if input.amount_cents <= 0 {
        return Some("amount must be positive".to_owned());
    }
    if text::same(input.order_type.as_str(), "balance") {
        return None;
    }
    if !text::same(input.order_type.as_str(), "subscription") {
        let mut e = "unsupported order type ".to_owned();
        e.append(input.order_type.as_str());
        return Some(e);
    }
    let planned = match &input.plan_id {
        Some(id) => !id.as_str().is_empty(),
        None => false,
    };
    if !planned {
        return Some("subscription plan is required".to_owned());
    }
    let grouped = match input.subscription_group_id {
        Some(v) => v > 0,
        None => false,
    };
    if !grouped {
        return Some("subscription group is required".to_owned());
    }
    let lasting = match input.subscription_days {
        Some(v) => v > 0,
        None => false,
    };
    if !lasting {
        return Some("subscription validity is required".to_owned());
    }
    None
}

/// The order as it is to be placed holds what was asked for.
pub open spec fn placed_as(
    order: NewPendingOrder,
    input: CreatePendingOrderInput,
    expires_at: int,
) -> bool {
    &&& order.user_id == input.user_id
    &&& order.amount_cents == input.amount_cents
    &&& order.pay_amount_cents == input.pay_amount_cents
    &&& order.fee_rate_bps == input.fee_rate_bps
    &&& order.status@ == OrderStatus::Pending.name()
    &&& order.payment_type == input.payment_type
    &&& order.order_type == input.order_type
    &&& order.plan_id == input.plan_id
    &&& order.subscription_group_id == input.subscription_group_id
    &&& order.subscription_days == input.subscription_days
    &&& order.provider_instance_id == input.provider_instance_id
    &&& order.expires_at == expires_at
}

/// Whether an order with these settings expires at a time that can be counted.
pub open spec fn expiry_fits(rules: OrderRules, now: int) -> bool {
    &&& timeout_minutes(rules) * 60 <= i64::MAX
    &&& now + timeout_minutes(rules) * 60 <= i64::MAX
}

/// Checks an order against the settings and what its buyer has yet to pay.
pub fn check_rules(input: &CreatePendingOrderInput, rules: &OrderRules, pending_count: i64) -> (r:
    Option<String>)
    ensures
        db::opt_text(r) == order_refused(*input, *rules, pending_count as int),
{
    if text::same(input.order_type.as_str(), "balance") {
        let disabled = match &rules.balance_payment_disabled {
            Some(v) => text::same(v.as_str(), "true"),
            None => false,
        };
        if disabled {
            return Some("balance payment is disabled".to_owned());
        }
        let min: i64 = match rules.min_amount_cents {
            Some(v) => v,
            None => rules.default_min_amount_cents,
        };
        let max: i64 = match rules.max_amount_cents {
            Some(v) => v,
            None => rules.default_max_amount_cents,
        };
        if input.amount_cents < min || input.amount_cents > max {
            return Some("amount out of allowed range".to_owned());
        }
    }
    let max_pending: i64 = read_number(&rules.max_pending_orders, DEFAULT_MAX_PENDING_ORDERS);
    if pending_count >= max_pending {
        return Some("too many pending orders".to_owned());
    }
    None
}

/// Decides whether an order is placed, and how. The time at which one that is placed expires
/// must be one that can be counted.
pub fn plan_new_order(
    input: CreatePendingOrderInput,
    rules: &OrderRules,
    pending_count: i64,
    now: i64,
) -> (r: Result<NewPendingOrder, String>)
    requires
        order_malformed(input) is None && order_refused(input, *rules, pending_count as int) is None
            ==> expiry_fits(*rules, now as int),
    ensures
        match r {
            Ok(order) => order_malformed(input) is None && order_refused(
                input,
                *rules,
                pending_count as int,
            ) is None && placed_as(order, input, now + timeout_minutes(*rules) * 60),
            Err(e) => if order_malformed(input) is Some {
                order_malformed(input) == Some(e@)
            } else {
                order_refused(input, *rules, pending_count as int) == Some(e@)
            },
        },
{
    if let Some(e) = check_new_order(&input) {
        return Err(e);
    }
    if let Some(e) = check_rules(&input, rules, pending_count) {
        return Err(e);
    }
    let minutes: i64 = read_number(&rules.order_timeout_minutes, DEFAULT_ORDER_TIMEOUT_MINUTES);
    let minutes: i64 = if minutes < 1 {
        1
    } else {
        minutes
    };
    let expires_at: i64 = now + minutes * 60;
    Ok(
        NewPendingOrder {
            user_id: input.user_id,
            amount_cents: input.amount_cents,
            pay_amount_cents: input.pay_amount_cents,
            fee_rate_bps: input.fee_rate_bps,
            status: OrderStatus::Pending.as_str().to_owned(),
            payment_type: input.payment_type,
            order_type: input.order_type,
            plan_id: input.plan_id,
            subscription_group_id: input.subscription_group_id,
            subscription_days: input.subscription_days,
            provider_instance_id: input.provider_instance_id,
            expires_at,
        },
    )
}

pub fn timeout_fits(rules: &OrderRules, now: i64) -> (r: bool)
    ensures
        r == expiry_fits(*rules, now as int),
{
    let minutes: i64 = read_number(&rules.order_timeout_minutes, DEFAULT_ORDER_TIMEOUT_MINUTES);
    let minutes: i64 = if minutes < 1 {
        1
    } else {
        minutes
    };
    let seconds: i128 = (minutes as i128) * 60;
    seconds <= 9223372036854775807 && (now as i128) + seconds <= 9223372036854775807
}

/// An order that is placed is a pending one with a positive amount, and it expires
/// after it was placed. A balance order is within the amounts that are allowed.
pub proof fn law_placed_orders_are_payable(
    input: CreatePendingOrderInput,
    rules: OrderRules,
    pending_count: int,
    now: int,
    order: NewPendingOrder,
)
    requires
        order_malformed(input) is None,
        order_refused(input, rules, pending_count) is None,
        placed_as(order, input, now + timeout_minutes(rules) * 60),
    ensures
        order.status@ == OrderStatus::Pending.name(),
        order.amount_cents > 0,
        order.expires_at >= now + 60,
        order.order_type@ == "balance"@ ==> cents_or(
            rules.min_amount_cents,
            rules.default_min_amount_cents,
        ) <= order.amount_cents <= cents_or(
            rules.max_amount_cents,
            rules.default_max_amount_cents,
        ),
        order.order_type@ == "balance"@ || order.order_type@ == "subscription"@,
{
}

// ---------------------------------------------------------------------------
// Identifiers
// ---------------------------------------------------------------------------
/// The order as it enters the table, under an identifier and a code made of random
/// bytes.
pub fn pending_record_with(
    order: NewPendingOrder,
    id_bytes: &[u8; 16],
    code_bytes: &[u8; 16],
    now: i64,
) -> (r: OrderRecord)
    ensures
        r.id@ == ids::hyphenated(id_bytes@),
        r.recharge_code@ == codegen::recharge_code(r.id@, code_bytes@),
        pending_record_holds(r, order, now),
{
    let id = ids::hyphenate(id_bytes);
    proof {
        codegen::lemma_uuid_can_be_cut(id_bytes@);
    }
    let code = codegen::recharge_code_with(id.as_str(), code_bytes);
    order.into_record(id, code, now)
}

/// The record holds the order as it was placed, at the given time.
pub open spec fn pending_record_holds(r: OrderRecord, order: NewPendingOrder, now: i64) -> bool {
    &&& r.user_id == order.user_id
    &&& r.amount_cents == order.amount_cents
    &&& r.pay_amount_cents == order.pay_amount_cents
    &&& r.fee_rate_bps == order.fee_rate_bps
    &&& r.status == order.status
    &&& r.payment_type == order.payment_type
    &&& r.order_type == order.order_type
    &&& r.plan_id == order.plan_id
    &&& r.subscription_group_id == order.subscription_group_id
    &&& r.subscription_days == order.subscription_days
    &&& r.provider_instance_id == order.provider_instance_id
    &&& r.expires_at == order.expires_at
    &&& r.created_at == now
    &&& r.updated_at == now
    &&& r.payment_trade_no is None
    &&& r.pay_url is None
    &&& r.qr_code is None
    &&& r.refund_amount_cents is None
    &&& r.refund_reason is None
    &&& r.refund_at is None
    &&& !r.force_refund
    &&& r.refund_requested_at is None
    &&& r.refund_request_reason is None
    &&& r.refund_requested_by is None
    &&& r.paid_at is None
    &&& r.completed_at is None
    &&& r.failed_at is None
    &&& r.failed_reason is None
    &&& r.user_email is None
    &&& r.user_name is None
    &&& r.user_notes is None
    &&& r.client_ip is None
    &&& r.src_host is None
    &&& r.src_url is None
}

/// The order as it enters the table, under a new identifier and a new code.
pub fn pending_record(order: NewPendingOrder, now: i64) -> (r: OrderRecord)
    ensures
        exists|id_bytes: Seq<u8>|
            id_bytes.len() == 16 && r.id@ == #[trigger] ids::hyphenated(id_bytes),
        exists|code_bytes: Seq<u8>|
            code_bytes.len() == 16 && r.recharge_code@ == #[trigger] codegen::recharge_code(
                r.id@,
                code_bytes,
            ),
        pending_record_holds(r, order, now),
{
    let id_bytes = ids::random_uuid();
    let code_bytes = ids::random_uuid();
    let r = pending_record_with(order, &id_bytes, &code_bytes, now);
    assert(id_bytes@.len() == 16 && r.id@ == ids::hyphenated(id_bytes@));
    assert(code_bytes@.len() == 16 && r.recharge_code@ == codegen::recharge_code(
        r.id@,
        code_bytes@,
    ));
    r
}

// ---------------------------------------------------------------------------
// What is logged
// ---------------------------------------------------------------------------
pub open spec fn created_members(order: OrderRecord) -> Seq<(Seq<char>, Seq<char>)> {
    seq![
        ("amountCents"@, text::decimal(order.amount_cents as int)),
        (
            "feeRateBps"@,
            text::decimal(
                match order.fee_rate_bps {
                    Some(v) => v as int,
                    None => 0,
                },
            ),
        ),
        ("orderType"@, json::json_quoted(order.order_type@)),
        (
            "payAmountCents"@,
            text::decimal(
                match order.pay_amount_cents {
                    Some(v) => v as int,
                    None => order.amount_cents as int,
                },
            ),
        ),
        ("paymentType"@, json::json_quoted(order.payment_type@)),
        ("planId"@, json::opt_quoted(db::opt_text(order.plan_id))),
        ("subscriptionDays"@, json::opt_number_text(order.subscription_days)),
        ("subscriptionGroupId"@, json::opt_number_text(order.subscription_group_id)),
        ("userId"@, text::decimal(order.user_id as int)),
    ]
}

/// The entry for an order that was placed.
pub fn created_entry(order: &OrderRecord) -> (r: NewAuditLog)
    ensures
        audit::entry(
            r,
            order.id@,
            "ORDER_CREATED"@,
            json::object_text(created_members(*order)),
            "user:"@ + text::decimal(order.user_id as int),
        ),
{
    let mut detail = json::ObjectText::new();
    detail.number("amountCents", order.amount_cents);
    detail.number("feeRateBps", match order.fee_rate_bps {
        Some(v) => v,
        None => 0,
    });
    detail.string("orderType", order.order_type.as_str());
    detail.number("payAmountCents", match order.pay_amount_cents {
        Some(v) => v,
        None => order.amount_cents,
    });
    detail.string("paymentType", order.payment_type.as_str());
    detail.opt_string("planId", &order.plan_id);
    detail.opt_number("subscriptionDays", order.subscription_days);
    detail.opt_number("subscriptionGroupId", order.subscription_group_id);
    detail.number("userId", order.user_id);
    assert(detail@ =~= created_members(*order));
    audit::new_entry(
        order.id.as_str(),
        "ORDER_CREATED",
        detail.finish(),
        cancel::user_operator(order.user_id).as_str(),
    )
}

/// The entry for an order that was closed because its time had passed.
pub fn expired_entry(order_id: &str) -> (r: NewAuditLog)
    ensures
        audit::entry(r, order_id@, "ORDER_EXPIRED"@, "Order expired"@, "timeout"@),
{
    audit::new_entry(order_id, "ORDER_EXPIRED", "Order expired".to_owned(), "timeout")
}

pub open spec fn payment_created_detail(payment: CreatePaymentResponse) -> Seq<char> {
    "{\"provider\":\""@ + payment.provider_name@ + "\",\"tradeNo\":\""@ + payment.trade_no@
        + "\",\"hasPayUrl\":"@ + json::flag_text(payment.pay_url is Some) + ",\"hasQrCode\":"@
        + json::flag_text(payment.qr_code is Some) + ",\"hasClientSecret\":"@ + json::flag_text(
        payment.client_secret is Some,
    ) + "}"@
}

fn flag_str(b: bool) -> (r: &'static str)
    ensures
        r@ == json::flag_text(b),
{
    if b {
        "true"
    } else {
        "false"
    }
}

/// The entry for a payment that was created at a provider.
pub fn payment_created_entry(order_id: &str, payment: &CreatePaymentResponse) -> (r: NewAuditLog)
    ensures
        audit::entry(
            r,
            order_id@,
            "PAYMENT_CREATED"@,
            payment_created_detail(*payment),
            payment.provider_name@,
        ),
{
    let mut detail = "{\"provider\":\"".to_owned();
    detail.append(payment.provider_name.as_str());
    detail.append("\",\"tradeNo\":\"");
    detail.append(payment.trade_no.as_str());
    detail.append("\",\"hasPayUrl\":");
    detail.append(flag_str(payment.pay_url.is_some()));
    detail.append(",\"hasQrCode\":");
    detail.append(flag_str(payment.qr_code.is_some()));
    detail.append(",\"hasClientSecret\":");
    detail.append(flag_str(payment.client_secret.is_some()));
    detail.append("}");
    audit::new_entry(
        order_id,
        "PAYMENT_CREATED",
        detail,
        payment.provider_name.as_str(),
    )
}

/// An order is placed exactly by a user, for an amount above zero, as a recharge, or as a
/// subscription with a plan, a group and a length; where its buyer has fewer orders to pay than
/// allowed, three unless set otherwise; and, for a recharge, where recharges are on and the
/// amount is within what is allowed.
pub proof fn law_orders_are_placed_within_the_rules(
    input: CreatePendingOrderInput,
    rules: OrderRules,
    pending_count: int,
)
    ensures
        order_malformed(input) is None <==> {
            &&& input.user_id > 0
            &&& input.amount_cents > 0
            &&& input.order_type@ == "balance"@ || (input.order_type@ == "subscription"@ && (
            input.plan_id matches Some(p) && p@.len() > 0) && (
            input.subscription_group_id matches Some(g) && g > 0) && (
            input.subscription_days matches Some(d) && d > 0))
        },
        order_refused(input, rules, pending_count) is None <==> {
            let most = match rules.max_pending_orders {
                Some(v) => match text::i64_in(v@) {
                    Some(n) => n,
                    None => 3,
                },
                None => 3,
            };
            let off = rules.balance_payment_disabled matches Some(v) && v@ == "true"@;
            let least = match rules.min_amount_cents {
                Some(c) => c,
                None => rules.default_min_amount_cents,
            };
            let greatest = match rules.max_amount_cents {
                Some(c) => c,
                None => rules.default_max_amount_cents,
            };
            &&& pending_count < most
            &&& input.order_type@ == "balance"@ ==> !off && least <= input.amount_cents
                <= greatest
        },
{
    reveal_strlit("balance");
    reveal_strlit("subscription");
    assert("balance"@.len() != "subscription"@.len());
}

/// An order that is placed awaits payment for the minutes that are set, five unless set
/// otherwise and one at least; it is of the amounts, for the user and of the type asked for.
pub proof fn law_placed_orders_are_as_asked(
    input: CreatePendingOrderInput,
    rules: OrderRules,
    now: i64,
    order: NewPendingOrder,
    record: OrderRecord,
)
    requires
        placed_as(order, input, now + timeout_minutes(rules) * 60),
        pending_record_holds(record, order, now),
    ensures
        ({
            let minutes = match rules.order_timeout_minutes {
                Some(v) => match text::i64_in(v@) {
                    Some(n) => n,
                    None => 5,
                },
                None => 5,
            };
            &&& record.status@ == "PENDING"@
            &&& record.expires_at == now + 60 * (if minutes < 1 { 1 } else { minutes })
            &&& record.created_at == now
            &&& record.user_id == input.user_id
            &&& record.amount_cents == input.amount_cents
            &&& record.pay_amount_cents == input.pay_amount_cents
            &&& record.fee_rate_bps == input.fee_rate_bps
            &&& record.payment_type == input.payment_type
            &&& record.order_type == input.order_type
            &&& record.plan_id == input.plan_id
            &&& record.subscription_group_id == input.subscription_group_id
            &&& record.subscription_days == input.subscription_days
            &&& record.provider_instance_id == input.provider_instance_id
            &&& record.paid_at is None && record.completed_at is None
        }),
{
}

/// An order is planned exactly where it is well formed and keeps the rules, and is then as it
/// was asked for and awaits payment for the minutes that are set.
pub proof fn law_orders_are_planned_as_asked(
    input: CreatePendingOrderInput,
    rules: OrderRules,
    pending_count: i64,
    now: i64,
    r: Result<NewPendingOrder, String>,
)
    requires
        call_ensures(plan_new_order, (input, &rules, pending_count, now), r),
    ensures
        r is Ok <==> order_malformed(input) is None && order_refused(
            input,
            rules,
            pending_count as int,
        ) is None,
        r matches Ok(order) ==> {
            &&& order.status@ == "PENDING"@
            &&& order.user_id == input.user_id
            &&& order.amount_cents == input.amount_cents
            &&& order.pay_amount_cents == input.pay_amount_cents
            &&& order.payment_type == input.payment_type
            &&& order.order_type == input.order_type
            &&& order.plan_id == input.plan_id
            &&& order.subscription_group_id == input.subscription_group_id
            &&& order.subscription_days == input.subscription_days
            &&& order.provider_instance_id == input.provider_instance_id
            &&& rules.order_timeout_minutes is None ==> order.expires_at == now + 300
        },
{
}

/// An order is stored as it was planned, under an identifier and a code of its own.
pub proof fn law_orders_are_stored_as_planned(
    order: NewPendingOrder,
    id_bytes: [u8; 16],
    code_bytes: [u8; 16],
    now: i64,
    r: OrderRecord,
)
    requires
        call_ensures(pending_record_with, (order, &id_bytes, &code_bytes, now), r),
    ensures
        r.id@ == ids::hyphenated(id_bytes@),
        r.recharge_code@ == codegen::recharge_code(r.id@, code_bytes@),
        r.status == order.status,
        r.amount_cents == order.amount_cents && r.pay_amount_cents == order.pay_amount_cents,
        r.user_id == order.user_id && r.expires_at == order.expires_at,
        r.created_at == now && r.updated_at == now,
        r.paid_at is None && r.completed_at is None && r.failed_at is None && r.refund_at is None,
{
}

/// The note of a new order tells its buyer, its amount, what is to be paid and what for; that
/// of its payment the gateway and its number.
pub proof fn law_new_orders_are_noted(
    order: OrderRecord,
    log: NewAuditLog,
    payment: CreatePaymentResponse,
    id: &str,
    paid: NewAuditLog,
    expired: NewAuditLog,
)
    requires
        call_ensures(created_entry, (&order,), log),
        call_ensures(payment_created_entry, (id, &payment), paid),
        call_ensures(expired_entry, (id,), expired),
    ensures
        log.order_id@ == order.id@ && log.action@ == "ORDER_CREATED"@,
        log.operator matches Some(o) && o@ == "user:"@ + text::decimal(order.user_id as int),
        log.detail matches Some(d) && d@ == json::object_text(created_members(order)),
        ({
            let m = created_members(order);
            &&& m.contains(("amountCents"@, text::decimal(order.amount_cents as int)))
            &&& m.contains(("userId"@, text::decimal(order.user_id as int)))
            &&& order.pay_amount_cents matches Some(c) ==> m.contains(
                ("payAmountCents"@, text::decimal(c as int)),
            )
            &&& order.pay_amount_cents is None ==> m.contains(
                ("payAmountCents"@, text::decimal(order.amount_cents as int)),
            )
            &&& order.fee_rate_bps matches Some(b) ==> m.contains(
                ("feeRateBps"@, text::decimal(b as int)),
            )
            &&& m.contains(("orderType"@, json::json_quoted(order.order_type@)))
            &&& m.contains(("paymentType"@, json::json_quoted(order.payment_type@)))
            &&& order.subscription_days matches Some(d) ==> m.contains(
                ("subscriptionDays"@, text::decimal(d as int)),
            )
            &&& order.subscription_group_id matches Some(g) ==> m.contains(
                ("subscriptionGroupId"@, text::decimal(g as int)),
            )
        }),
        paid.order_id@ == id@ && paid.action@ == "PAYMENT_CREATED"@,
        paid.operator matches Some(o) && o@ == payment.provider_name@,
        expired.order_id@ == id@ && expired.action@ == "ORDER_EXPIRED"@,
{
    let m = created_members(order);
    assert(m[0].0 == "amountCents"@);
    assert(m[1].0 == "feeRateBps"@);
    assert(m[2].0 == "orderType"@);
    assert(m[3].0 == "payAmountCents"@);
    assert(m[4].0 == "paymentType"@);
    assert(m[6].0 == "subscriptionDays"@);
    assert(m[7].0 == "subscriptionGroupId"@);
    assert(m[8].0 == "userId"@);
}

/// Overdue orders are looked for every half a minute, fifty at a time.
pub proof fn law_overdue_orders_are_looked_for()
    ensures
        EXPIRY_SCAN_INTERVAL_SECONDS == 30,
        EXPIRY_SCAN_BATCH_SIZE == 50,
{
}

/// The note of a payment tells its gateway and its number, and what the buyer was given to pay
/// with; that of a new order tells its plan, and no fee where there is none.
pub proof fn law_payments_are_noted_with_their_means(
    order: OrderRecord,
    payment: CreatePaymentResponse,
)
    ensures
        ({
            let told = |b: bool|
                if b {
                    "true"@
                } else {
                    "false"@
                };
            payment_created_detail(payment) == "{\"provider\":\""@ + payment.provider_name@
                + "\",\"tradeNo\":\""@ + payment.trade_no@ + "\",\"hasPayUrl\":"@ + told(
                payment.pay_url is Some,
            ) + ",\"hasQrCode\":"@ + told(payment.qr_code is Some) + ",\"hasClientSecret\":"@
                + told(payment.client_secret is Some) + "}"@
        }),
        order.plan_id matches Some(p) ==> created_members(order).contains(
            ("planId"@, json::json_quoted(p@)),
        ),
        order.plan_id is None ==> created_members(order).contains(("planId"@, "null"@)),
        order.fee_rate_bps is None ==> created_members(order).contains(
            ("feeRateBps"@, text::decimal(0)),
        ),
        created_members(order).len() == 9,
{
    let m = created_members(order);
    assert(m[1].0 == "feeRateBps"@);
    assert(m[5].0 == "planId"@);
}


/// A new order tells nothing yet of its payment, of a refund, or of its buyer beside their
/// number.
pub proof fn law_new_orders_are_blank(r: OrderRecord, order: NewPendingOrder, now: i64)
    requires
        pending_record_holds(r, order, now),
    ensures
        r.payment_trade_no is None && r.pay_url is None && r.qr_code is None,
        r.refund_amount_cents is None && r.refund_reason is None && r.refund_at is None,
        r.refund_requested_at is None && r.refund_request_reason is None
            && r.refund_requested_by is None && !r.force_refund,
        r.paid_at is None && r.completed_at is None && r.failed_at is None
            && r.failed_reason is None,
        r.user_email is None && r.user_name is None && r.user_notes is None,
        r.client_ip is None && r.src_host is None && r.src_url is None,
{
}

}
