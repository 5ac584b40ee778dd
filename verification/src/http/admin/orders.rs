//! Orders, as administrators see them and act on them.
use vstd::prelude::*;

use crate::clock;
use crate::db;
use crate::error::{AppError, ErrorKind, Refusal};
use crate::http::common;
use crate::http::common::said;
use crate::http::orders::{order_missing, order_state, recharge_status_text, recharge_text};
use crate::order::audit::AuditLogRecord;
use crate::order::repository::{AdminOrderListFilters, OrderRecord};
use crate::order::status;
use crate::order::status::{is_status, OrderStatus};
use crate::text;

verus! {

// ---------------------------------------------------------------------------
// Which orders are listed
// ---------------------------------------------------------------------------
/// What an administrator asks for.
#[derive(Debug)]
pub struct AdminOrdersQuery {
    pub page: Option<i64>,
    pub page_size: Option<i64>,
    pub status: Option<String>,
    pub order_type: Option<String>,
    pub user_id: Option<String>,
    pub date_from: Option<String>,
    pub date_to: Option<String>,
}

/// Whether a text is the name of a status.
pub open spec fn names_status(s: Seq<char>) -> bool {
    exists|status: OrderStatus| #[trigger] status.name() == s
}

fn is_status_name(s: &str) -> (r: bool)
    ensures
        r == names_status(s@),
{
    let found = is_status(s, OrderStatus::Pending) || is_status(s, OrderStatus::Paid) || is_status(
        s,
        OrderStatus::Recharging,
    ) || is_status(s, OrderStatus::Completed) || is_status(s, OrderStatus::RefundRequested)
        || is_status(s, OrderStatus::Refunding) || is_status(s, OrderStatus::PartiallyRefunded)
        || is_status(s, OrderStatus::Expired) || is_status(s, OrderStatus::Cancelled) || is_status(
        s,
        OrderStatus::Failed,
    ) || is_status(s, OrderStatus::Refunded) || is_status(s, OrderStatus::RefundFailed);
    proof {
        if names_status(s@) {
            let status = choose|status: OrderStatus| #[trigger] status.name() == s@;
            match status {
                OrderStatus::Pending => {},
                _ => {},
            }
        }
    }
    found
}

/// A status to list, where the text names one.
pub open spec fn status_filter(s: Option<Seq<char>>) -> Option<Seq<char>> {
    match s {
        Some(t) => if names_status(text::trimmed(t)) {
            Some(text::trimmed(t))
        } else {
            None
        },
        None => None,
    }
}

/// A kind of order to list, where the text names one.
pub open spec fn type_filter(s: Option<Seq<char>>) -> Option<Seq<char>> {
    match s {
        Some(t) => if text::trimmed(t) == "balance"@ || text::trimmed(t) == "subscription"@ {
            Some(text::trimmed(t))
        } else {
            None
        },
        None => None,
    }
}

/// The positive integer that a text holds.
pub open spec fn positive_in(s: Option<Seq<char>>) -> Option<i64> {
    match s {
        Some(t) => match text::i64_in(text::trimmed(t)) {
            Some(n) => if n > 0 {
                Some(n as i64)
            } else {
                None
            },
            None => None,
        },
        None => None,
    }
}

pub fn parse_positive_i64(s: Option<&str>) -> (r: Option<i64>)
    ensures
        r == positive_in(db::opt_str(s)),
{
    match s {
        Some(t) => match text::parse_i64(text::trim(t)) {
            Some(n) => if n > 0 {
                Some(n)
            } else {
                None
            },
            None => None,
        },
        None => None,
    }
}

pub open spec fn time_filter(s: Option<Seq<char>>, end_of_day: bool) -> Option<int> {
    match s {
        Some(t) => if text::trimmed(t).len() == 0 {
            None
        } else {
            clock::query_timestamp(t, end_of_day)
        },
        None => None,
    }
}

pub open spec fn opt_int(n: Option<i64>) -> Option<int> {
    match n {
        Some(v) => Some(v as int),
        None => None,
    }
}

/// The page, from one.
pub open spec fn page_of(page: Option<i64>) -> i64 {
    match page {
        Some(n) => if n < 1 {
            1
        } else {
            n
        },
        None => 1,
    }
}

/// How many orders stand on a page: twenty, or as many as are asked for, up to a hundred.
pub open spec fn page_size_of(page_size: Option<i64>) -> i64 {
    match page_size {
        Some(n) => if n < 1 {
            1
        } else if n > 100 {
            100
        } else {
            n
        },
        None => 20,
    }
}

/// The filters are what the query asks for; what cannot be read filters nothing.
pub open spec fn filters_for(f: AdminOrderListFilters, q: AdminOrdersQuery) -> bool {
    &&& db::opt_text(f.status) == status_filter(db::opt_text(q.status))
    &&& db::opt_text(f.order_type) == type_filter(db::opt_text(q.order_type))
    &&& f.user_id == positive_in(db::opt_text(q.user_id))
    &&& opt_int(f.created_from) == time_filter(db::opt_text(q.date_from), false)
    &&& opt_int(f.created_to) == time_filter(db::opt_text(q.date_to), true)
    &&& f.limit == page_size_of(q.page_size)
    &&& f.offset == (page_of(q.page) - 1) * page_size_of(q.page_size)
}

/// The listing that a query asks for, where the orders before its page can be counted.
pub fn read_query(q: &AdminOrdersQuery) -> (r: Option<(i64, AdminOrderListFilters)>)
    ensures
        match r {
            Some((page, f)) => page == page_of(q.page) && filters_for(f, *q),
            None => (page_of(q.page) - 1) * page_size_of(q.page_size) > i64::MAX,
        },
{
    let page: i64 = match q.page {
        Some(n) => if n < 1 {
            1
        } else {
            n
        },
        None => 1,
    };
    let limit: i64 = match q.page_size {
        Some(n) => if n < 1 {
            1
        } else if n > 100 {
            100
        } else {
            n
        },
        None => 20,
    };
    let before: i64 = page - 1;
    assert(before * limit >= 0) by (nonlinear_arith)
        requires
            before >= 0,
            limit >= 0,
    ;
    let offset: i64 = match before.checked_mul(limit) {
        Some(n) => n,
        None => {
            return None;
        },
    };
    let status = match &q.status {
        Some(s) => {
            let t = text::trim(s.as_str());
            if is_status_name(t) {
                Some(t.to_owned())
            } else {
                None
            }
        },
        None => None,
    };
    let order_type = match &q.order_type {
        Some(s) => {
            let t = text::trim(s.as_str());
            if text::same(t, "balance") || text::same(t, "subscription") {
                Some(t.to_owned())
            } else {
                None
            }
        },
        None => None,
    };
    let created_from: Option<i64> = match &q.date_from {
        Some(s) => clock::parse_query_timestamp(s.as_str(), false),
        None => None,
    };
    let created_to: Option<i64> = match &q.date_to {
        Some(s) => clock::parse_query_timestamp(s.as_str(), true),
        None => None,
    };
    let filters = AdminOrderListFilters {
        status,
        order_type,
        user_id: parse_positive_i64(db::as_deref(&q.user_id)),
        created_from,
        created_to,
        offset,
        limit,
    };
    Some((page, filters))
}

// ---------------------------------------------------------------------------
// What is shown
// ---------------------------------------------------------------------------
/// An order of a listing. Amounts are in cents.
#[derive(Debug)]
pub struct AdminOrderListItem {
    pub id: String,
    pub user_id: i64,
    pub user_name: Option<String>,
    pub user_email: Option<String>,
    pub user_notes: Option<String>,
    pub amount_cents: i64,
    pub pay_amount_cents: Option<i64>,
    pub status: String,
    pub payment_type: String,
    pub created_at: String,
    pub paid_at: Option<String>,
    pub completed_at: Option<String>,
    pub failed_reason: Option<String>,
    pub expires_at: String,
    pub src_host: Option<String>,
    pub order_type: String,
    pub plan_id: Option<String>,
    pub subscription_group_id: Option<i64>,
    pub subscription_days: Option<i64>,
    pub refund_amount_cents: Option<i64>,
    pub refund_at: Option<String>,
    pub refund_requested_at: Option<String>,
    pub refund_request_reason: Option<String>,
    pub refund_requested_by: Option<i64>,
    pub recharge_retryable: bool,
}

pub open spec fn list_item(v: AdminOrderListItem, order: OrderRecord) -> bool {
    &&& v.id == order.id
    &&& v.user_id == order.user_id
    &&& v.user_name == order.user_name
    &&& v.user_email == order.user_email
    &&& v.user_notes == order.user_notes
    &&& v.amount_cents == order.amount_cents
    &&& v.pay_amount_cents == order.pay_amount_cents
    &&& v.status == order.status
    &&& v.payment_type == order.payment_type
    &&& v.created_at@ == clock::shown_time(order.created_at)
    &&& db::opt_text(v.paid_at) == clock::opt_shown_time(order.paid_at)
    &&& db::opt_text(v.completed_at) == clock::opt_shown_time(order.completed_at)
    &&& v.failed_reason == order.failed_reason
    &&& v.expires_at@ == clock::shown_time(order.expires_at)
    &&& v.src_host == order.src_host
    &&& v.order_type == order.order_type
    &&& v.plan_id == order.plan_id
    &&& v.subscription_group_id == order.subscription_group_id
    &&& v.subscription_days == order.subscription_days
    &&& v.refund_amount_cents == order.refund_amount_cents
    &&& db::opt_text(v.refund_at) == clock::opt_shown_time(order.refund_at)
    &&& db::opt_text(v.refund_requested_at) == clock::opt_shown_time(order.refund_requested_at)
    &&& v.refund_request_reason == order.refund_request_reason
    &&& v.refund_requested_by == order.refund_requested_by
    &&& v.recharge_retryable == status::retryable(order.status@, order.paid_at)
}

pub fn to_admin_order_list_item(order: OrderRecord) -> (r: AdminOrderListItem)
    ensures
        list_item(r, order),
{
    let recharge_retryable = status::is_recharge_retryable(&order);
    AdminOrderListItem {
        id: order.id,
        user_id: order.user_id,
        user_name: order.user_name,
        user_email: order.user_email,
        user_notes: order.user_notes,
        amount_cents: order.amount_cents,
        pay_amount_cents: order.pay_amount_cents,
        status: order.status,
        payment_type: order.payment_type,
        created_at: clock::timestamp_to_rfc3339(order.created_at),
        paid_at: clock::optional_timestamp_to_rfc3339(order.paid_at),
        completed_at: clock::optional_timestamp_to_rfc3339(order.completed_at),
        failed_reason: order.failed_reason,
        expires_at: clock::timestamp_to_rfc3339(order.expires_at),
        src_host: order.src_host,
        order_type: order.order_type,
        plan_id: order.plan_id,
        subscription_group_id: order.subscription_group_id,
        subscription_days: order.subscription_days,
        refund_amount_cents: order.refund_amount_cents,
        refund_at: clock::optional_timestamp_to_rfc3339(order.refund_at),
        refund_requested_at: clock::optional_timestamp_to_rfc3339(order.refund_requested_at),
        refund_request_reason: order.refund_request_reason,
        refund_requested_by: order.refund_requested_by,
        recharge_retryable,
    }
}

/// Shows a listing.
pub fn list_orders(orders: &Vec<OrderRecord>) -> (r: Vec<AdminOrderListItem>)
    ensures
        r@.len() == orders@.len(),
        forall|i: int| 0 <= i < r@.len() ==> list_item(#[trigger] r@[i], orders@[i]),
{
    let mut out: Vec<AdminOrderListItem> = Vec::new();
    let mut i: usize = 0;
    while i < orders.len()
        invariant
            i <= orders@.len(),
            out@.len() == i,
            forall|j: int| 0 <= j < i ==> list_item(#[trigger] out@[j], orders@[j]),
        decreases orders@.len() - i,
    {
        out.push(to_admin_order_list_item(orders[i].clone()));
        i += 1;
    }
    out
}

/// An entry of the log of an order.
#[derive(Debug)]
pub struct AuditLogView {
    pub id: String,
    pub action: String,
    pub detail: Option<String>,
    pub operator: Option<String>,
    pub created_at: String,
}

pub open spec fn log_view(v: AuditLogView, item: AuditLogRecord) -> bool {
    &&& v.id@ == item.id@
    &&& v.action@ == item.action@
    &&& db::opt_text(v.detail) == db::opt_text(item.detail)
    &&& db::opt_text(v.operator) == db::opt_text(item.operator)
    &&& v.created_at@ == clock::shown_time(item.created_at)
}

pub fn to_audit_log_view(item: &AuditLogRecord) -> (r: AuditLogView)
    ensures
        log_view(r, *item),
{
    AuditLogView {
        id: item.id.clone(),
        action: item.action.clone(),
        detail: db::copy_opt(&item.detail),
        operator: db::copy_opt(&item.operator),
        created_at: clock::timestamp_to_rfc3339(item.created_at),
    }
}

/// An order in full, with its log. Amounts are in cents.
#[derive(Debug)]
pub struct AdminOrderDetail {
    pub id: String,
    pub user_id: i64,
    pub user_name: Option<String>,
    pub user_email: Option<String>,
    pub user_notes: Option<String>,
    pub amount_cents: i64,
    pub pay_amount_cents: Option<i64>,
    pub fee_rate_bps: Option<i64>,
    pub status: String,
    pub payment_type: String,
    pub recharge_code: String,
    pub payment_trade_no: Option<String>,
    pub refund_amount_cents: Option<i64>,
    pub refund_reason: Option<String>,
    pub refund_at: Option<String>,
    pub force_refund: bool,
    pub refund_requested_at: Option<String>,
    pub refund_request_reason: Option<String>,
    pub refund_requested_by: Option<i64>,
    pub expires_at: String,
    pub paid_at: Option<String>,
    pub completed_at: Option<String>,
    pub failed_at: Option<String>,
    pub failed_reason: Option<String>,
    pub created_at: String,
    pub updated_at: String,
    pub client_ip: Option<String>,
    pub src_host: Option<String>,
    pub src_url: Option<String>,
    pub order_type: String,
    pub plan_id: Option<String>,
    pub subscription_group_id: Option<i64>,
    pub subscription_days: Option<i64>,
    pub payment_success: bool,
    pub recharge_success: bool,
    pub recharge_status: &'static str,
    pub audit_logs: Vec<AuditLogView>,
}

pub open spec fn order_detail(v: AdminOrderDetail, order: OrderRecord) -> bool {
    &&& v.id == order.id
    &&& v.user_id == order.user_id
    &&& v.user_name == order.user_name
    &&& v.user_email == order.user_email
    &&& v.user_notes == order.user_notes
    &&& v.amount_cents == order.amount_cents
    &&& v.pay_amount_cents == order.pay_amount_cents
    &&& v.fee_rate_bps == order.fee_rate_bps
    &&& v.status == order.status
    &&& v.payment_type == order.payment_type
    &&& v.recharge_code == order.recharge_code
    &&& v.payment_trade_no == order.payment_trade_no
    &&& v.refund_amount_cents == order.refund_amount_cents
    &&& v.refund_reason == order.refund_reason
    &&& db::opt_text(v.refund_at) == clock::opt_shown_time(order.refund_at)
    &&& v.force_refund == order.force_refund
    &&& db::opt_text(v.refund_requested_at) == clock::opt_shown_time(order.refund_requested_at)
    &&& v.refund_request_reason == order.refund_request_reason
    &&& v.refund_requested_by == order.refund_requested_by
    &&& v.expires_at@ == clock::shown_time(order.expires_at)
    &&& db::opt_text(v.paid_at) == clock::opt_shown_time(order.paid_at)
    &&& db::opt_text(v.completed_at) == clock::opt_shown_time(order.completed_at)
    &&& db::opt_text(v.failed_at) == clock::opt_shown_time(order.failed_at)
    &&& v.failed_reason == order.failed_reason
    &&& v.created_at@ == clock::shown_time(order.created_at)
    &&& v.updated_at@ == clock::shown_time(order.updated_at)
    &&& v.client_ip == order.client_ip
    &&& v.src_host == order.src_host
    &&& v.src_url == order.src_url
    &&& v.order_type == order.order_type
    &&& v.plan_id == order.plan_id
    &&& v.subscription_group_id == order.subscription_group_id
    &&& v.subscription_days == order.subscription_days
    &&& v.payment_success == order_state(order).payment_success
    &&& v.recharge_success == order_state(order).recharge_success
    &&& v.recharge_status@ == recharge_text(order_state(order).recharge_status)
}

pub fn to_admin_order_detail(order: OrderRecord, audit_logs: &Vec<AuditLogRecord>) -> (r:
    AdminOrderDetail)
    ensures
        order_detail(r, order),
        r.audit_logs@.len() == audit_logs@.len(),
        forall|i: int|
            0 <= i < r.audit_logs@.len() ==> log_view(#[trigger] r.audit_logs@[i], audit_logs@[i]),
{
    let derived = status::derive_order_state(&order);
    let mut logs: Vec<AuditLogView> = Vec::new();
    let mut i: usize = 0;
    while i < audit_logs.len()
        invariant
            i <= audit_logs@.len(),
            logs@.len() == i,
            forall|j: int| 0 <= j < i ==> log_view(#[trigger] logs@[j], audit_logs@[j]),
        decreases audit_logs@.len() - i,
    {
        logs.push(to_audit_log_view(&audit_logs[i]));
        i += 1;
    }
    AdminOrderDetail {
        id: order.id,
        user_id: order.user_id,
        user_name: order.user_name,
        user_email: order.user_email,
        user_notes: order.user_notes,
        amount_cents: order.amount_cents,
        pay_amount_cents: order.pay_amount_cents,
        fee_rate_bps: order.fee_rate_bps,
        status: order.status,
        payment_type: order.payment_type,
        recharge_code: order.recharge_code,
        payment_trade_no: order.payment_trade_no,
        refund_amount_cents: order.refund_amount_cents,
        refund_reason: order.refund_reason,
        refund_at: clock::optional_timestamp_to_rfc3339(order.refund_at),
        force_refund: order.force_refund,
        refund_requested_at: clock::optional_timestamp_to_rfc3339(order.refund_requested_at),
        refund_request_reason: order.refund_request_reason,
        refund_requested_by: order.refund_requested_by,
        expires_at: clock::timestamp_to_rfc3339(order.expires_at),
        paid_at: clock::optional_timestamp_to_rfc3339(order.paid_at),
        completed_at: clock::optional_timestamp_to_rfc3339(order.completed_at),
        failed_at: clock::optional_timestamp_to_rfc3339(order.failed_at),
        failed_reason: order.failed_reason,
        created_at: clock::timestamp_to_rfc3339(order.created_at),
        updated_at: clock::timestamp_to_rfc3339(order.updated_at),
        client_ip: order.client_ip,
        src_host: order.src_host,
        src_url: order.src_url,
        order_type: order.order_type,
        plan_id: order.plan_id,
        subscription_group_id: order.subscription_group_id,
        subscription_days: order.subscription_days,
        payment_success: derived.payment_success,
        recharge_success: derived.recharge_success,
        recharge_status: recharge_status_text(derived.recharge_status),
        audit_logs: logs,
    }
}

/// An order that must be there.
pub fn require_order(found: Option<OrderRecord>, locale: &str) -> (r: Result<OrderRecord, AppError>)
    ensures
        match found {
            Some(o) => r == Ok::<OrderRecord, AppError>(o),
            None => r matches Err(e) && e@ == order_missing(locale@),
        },
{
    match found {
        Some(o) => Ok(o),
        None => Err(AppError::not_found(common::message(locale, "订单不存在", "Order not found"))),
    }
}

// ---------------------------------------------------------------------------
// What went wrong
// ---------------------------------------------------------------------------
/// What is said of a retry that failed.
pub open spec fn retry_refusal(error: Seq<char>, locale: Seq<char>) -> Refusal {
    if error == "order not found"@ {
        (ErrorKind::NotFound, said(locale, "订单不存在"@, "Order not found"@))
    } else if error == "order is not paid, retry denied"@ {
        (
            ErrorKind::BadRequest,
            said(locale, "订单未支付，不允许重试"@, "Order is not paid, retry denied"@),
        )
    } else if error == "refund-related order cannot retry"@ {
        (
            ErrorKind::BadRequest,
            said(locale, "退款相关订单不允许重试"@, "Refund-related order cannot retry"@),
        )
    } else if error == "order is recharging, retry later"@ {
        (
            ErrorKind::Conflict,
            said(locale, "订单正在充值中，请稍后重试"@, "Order is recharging, retry later"@),
        )
    } else if error == "order already completed"@ {
        (ErrorKind::BadRequest, said(locale, "订单已完成"@, "Order already completed"@))
    } else if error == "only paid and failed orders can retry"@ {
        (
            ErrorKind::BadRequest,
            said(locale, "仅已支付和失败订单允许重试"@, "Only paid and failed orders can retry"@),
        )
    } else if error == "order status changed, refresh and retry"@ {
        (
            ErrorKind::Conflict,
            said(
                locale,
                "订单状态已变更，请刷新后重试"@,
                "Order status changed, refresh and retry"@,
            ),
        )
    } else {
        (ErrorKind::PublicInternal, said(locale, "重试充值失败"@, "Recharge retry failed"@))
    }
}

pub fn map_retry_error(error: &str, locale: &str) -> (r: AppError)
    ensures
        r@ == retry_refusal(error@, locale@),
{
    if text::same(error, "order not found") {
        AppError::not_found(common::message(locale, "订单不存在", "Order not found"))
    } else if text::same(error, "order is not paid, retry denied") {
        AppError::bad_request(
            common::message(locale, "订单未支付，不允许重试", "Order is not paid, retry denied"),
        )
    } else if text::same(error, "refund-related order cannot retry") {
        AppError::bad_request(
            common::message(locale, "退款相关订单不允许重试", "Refund-related order cannot retry"),
        )
    } else if text::same(error, "order is recharging, retry later") {
        AppError::conflict(
            common::message(
                locale,
                "订单正在充值中，请稍后重试",
                "Order is recharging, retry later",
            ),
        )
    } else if text::same(error, "order already completed") {
        AppError::bad_request(common::message(locale, "订单已完成", "Order already completed"))
    } else if text::same(error, "only paid and failed orders can retry") {
        AppError::bad_request(
            common::message(
                locale,
                "仅已支付和失败订单允许重试",
                "Only paid and failed orders can retry",
            ),
        )
    } else if text::same(error, "order status changed, refresh and retry") {
        AppError::conflict(
            common::message(
                locale,
                "订单状态已变更，请刷新后重试",
                "Order status changed, refresh and retry",
            ),
        )
    } else {
        AppError::public_internal(common::message(locale, "重试充值失败", "Recharge retry failed"))
    }
}

/// What is said of a cancellation that failed.
pub open spec fn cancel_refusal(error: Seq<char>, locale: Seq<char>) -> Refusal {
    if error == "order not found"@ {
        (ErrorKind::NotFound, said(locale, "订单不存在"@, "Order not found"@))
    } else if error == "order cannot be cancelled"@ {
        (ErrorKind::BadRequest, said(locale, "订单当前状态不可取消"@, "Order cannot be cancelled"@))
    } else {
        (ErrorKind::PublicInternal, said(locale, "取消订单失败"@, "Cancel order failed"@))
    }
}

pub fn map_cancel_error(error: &str, locale: &str) -> (r: AppError)
    ensures
        r@ == cancel_refusal(error@, locale@),
{
    if text::same(error, "order not found") {
        AppError::not_found(common::message(locale, "订单不存在", "Order not found"))
    } else if text::same(error, "order cannot be cancelled") {
        AppError::bad_request(
            common::message(locale, "订单当前状态不可取消", "Order cannot be cancelled"),
        )
    } else {
        AppError::public_internal(common::message(locale, "取消订单失败", "Cancel order failed"))
    }
}

/// What is said of an order that was to be cancelled and had been paid.
pub fn already_paid_text(locale: &str) -> (r: &'static str)
    ensures
        r@ == said(locale@, "订单已支付完成"@, "Order has already been paid"@),
{
    common::message(locale, "订单已支付完成", "Order has already been paid")
}

/// A listing is of the status, the type, the user and the time asked for where they can be
/// read, and of any where they cannot; its page is of one to a hundred, twenty where none is
/// asked for, and begins where the pages before it end.
pub proof fn law_listings_are_filtered_as_asked(f: AdminOrderListFilters, q: AdminOrdersQuery)
    requires
        filters_for(f, q),
    ensures
        f.status matches Some(s) ==> q.status is Some && s@ == text::trimmed(q.status->0@),
        q.status matches Some(s) ==> text::trimmed(s@) == "PAID"@ ==> (f.status matches Some(t)
            && t@ == "PAID"@),
        q.status is None ==> f.status is None,
        f.order_type matches Some(s) ==> (s@ == "balance"@ || s@ == "subscription"@)
            && q.order_type is Some && s@ == text::trimmed(q.order_type->0@),
        q.order_type matches Some(s) ==> text::trimmed(s@) == "balance"@ || text::trimmed(s@)
            == "subscription"@ ==> f.order_type is Some,
        f.user_id matches Some(n) ==> n > 0 && q.user_id is Some && text::i64_in(
            text::trimmed(q.user_id->0@),
        ) == Some(n as int),
        q.user_id is Some && text::i64_in(text::trimmed(q.user_id->0@)) is Some && text::i64_in(
            text::trimmed(q.user_id->0@),
        )->0 > 0 ==> f.user_id is Some,
        1 <= f.limit <= 100,
        q.page_size is None ==> f.limit == 20,
        q.page_size matches Some(n) ==> 1 <= n <= 100 ==> f.limit == n,
        q.page is None ==> f.offset == 0,
        q.page matches Some(p) ==> p >= 1 ==> f.offset == (p - 1) * f.limit,
        q.date_from is None ==> f.created_from is None,
        q.date_to is None ==> f.created_to is None,
        q.date_from is Some && text::trimmed(q.date_from->0@).len() > 0 ==> opt_int(f.created_from)
            == clock::query_timestamp(q.date_from->0@, false),
        q.date_to is Some && text::trimmed(q.date_to->0@).len() > 0 ==> opt_int(f.created_to)
            == clock::query_timestamp(q.date_to->0@, true),
{
    assert((1 - 1) * f.limit == 0) by (nonlinear_arith);
    let paid = crate::order::status::OrderStatus::Paid;
    assert(paid.name() == "PAID"@);
}

/// An administrator is shown an order as it is.
pub proof fn law_orders_are_shown_as_they_are(
    v: AdminOrderListItem,
    d: AdminOrderDetail,
    order: OrderRecord,
)
    requires
        list_item(v, order),
        order_detail(d, order),
    ensures
        v.id == order.id && d.id == order.id,
        v.user_id == order.user_id && d.user_id == order.user_id,
        v.amount_cents == order.amount_cents && d.amount_cents == order.amount_cents,
        v.pay_amount_cents == order.pay_amount_cents && d.pay_amount_cents
            == order.pay_amount_cents,
        v.status == order.status && d.status == order.status,
        v.payment_type == order.payment_type && d.payment_type == order.payment_type,
        v.refund_amount_cents == order.refund_amount_cents && d.refund_amount_cents
            == order.refund_amount_cents,
        d.payment_trade_no == order.payment_trade_no && d.recharge_code == order.recharge_code,
        d.fee_rate_bps == order.fee_rate_bps && d.force_refund == order.force_refund,
        v.subscription_days == order.subscription_days && d.subscription_days
            == order.subscription_days,
        v.subscription_group_id == order.subscription_group_id && d.subscription_group_id
            == order.subscription_group_id,
        v.paid_at is Some <==> order.paid_at is Some,
        d.payment_success <==> order.paid_at is Some,
        d.recharge_success <==> order.completed_at is Some || order.status@ == "COMPLETED"@,
        v.recharge_retryable <==> order.paid_at is Some && (order.status@ == "FAILED"@),
{
}

/// An order that is not there is told apart from one that is in no state for what was asked of
/// it, and that from one which another has just changed.
pub proof fn law_refusals_tell_what_stands_in_the_way(error: Seq<char>, locale: Seq<char>)
    ensures
        retry_refusal("order not found"@, locale).0 == ErrorKind::NotFound,
        cancel_refusal("order not found"@, locale).0 == ErrorKind::NotFound,
        cancel_refusal(error, locale).0 == ErrorKind::NotFound ==> error == "order not found"@,
        retry_refusal(error, locale).0 == ErrorKind::NotFound ==> error == "order not found"@,
        retry_refusal(error, locale).0 == ErrorKind::Conflict ==> error
            == "order is recharging, retry later"@ || error
            == "order status changed, refresh and retry"@,
        cancel_refusal(error, locale).0 == ErrorKind::BadRequest ==> error
            == "order cannot be cancelled"@,
{
}

/// An administrator is shown when each thing happened to an order, who placed it and for what,
/// and what was asked for of its refund.
pub proof fn law_orders_are_shown_with_their_times(
    v: AdminOrderListItem,
    d: AdminOrderDetail,
    order: OrderRecord,
)
    requires
        list_item(v, order),
        order_detail(d, order),
    ensures
        v.created_at@ == clock::shown_time(order.created_at) && d.created_at@ == v.created_at@,
        v.expires_at@ == clock::shown_time(order.expires_at) && d.expires_at@ == v.expires_at@,
        d.updated_at@ == clock::shown_time(order.updated_at),
        order.paid_at matches Some(t) ==> db::opt_text(v.paid_at) == Some(clock::shown_time(t))
            && db::opt_text(d.paid_at) == Some(clock::shown_time(t)),
        order.completed_at matches Some(t) ==> db::opt_text(v.completed_at) == Some(
            clock::shown_time(t),
        ) && db::opt_text(d.completed_at) == Some(clock::shown_time(t)),
        order.refund_at matches Some(t) ==> db::opt_text(v.refund_at) == Some(clock::shown_time(t))
            && db::opt_text(d.refund_at) == Some(clock::shown_time(t)),
        order.failed_at matches Some(t) ==> db::opt_text(d.failed_at) == Some(clock::shown_time(t)),
        order.refund_requested_at matches Some(t) ==> db::opt_text(v.refund_requested_at) == Some(
            clock::shown_time(t),
        ) && db::opt_text(d.refund_requested_at) == Some(clock::shown_time(t)),
        order.completed_at is None ==> v.completed_at is None && d.completed_at is None,
        v.user_name == order.user_name && v.user_email == order.user_email && v.user_notes
            == order.user_notes && v.src_host == order.src_host,
        d.user_name == order.user_name && d.user_email == order.user_email && d.user_notes
            == order.user_notes && d.src_host == order.src_host && d.src_url == order.src_url
            && d.client_ip == order.client_ip,
        v.order_type == order.order_type && d.order_type == order.order_type,
        v.plan_id == order.plan_id && d.plan_id == order.plan_id,
        v.failed_reason == order.failed_reason && d.failed_reason == order.failed_reason,
        v.refund_request_reason == order.refund_request_reason && d.refund_request_reason
            == order.refund_request_reason,
        v.refund_requested_by == order.refund_requested_by && d.refund_requested_by
            == order.refund_requested_by,
        d.refund_reason == order.refund_reason,
{
}

/// A note is shown as it was made.
pub proof fn law_notes_are_shown_as_made(item: AuditLogRecord, v: AuditLogView)
    requires
        call_ensures(to_audit_log_view, (&item,), v),
    ensures
        v.id@ == item.id@ && v.action@ == item.action@,
        db::opt_text(v.detail) == db::opt_text(item.detail),
        db::opt_text(v.operator) == db::opt_text(item.operator),
        v.created_at@ == clock::shown_time(item.created_at),
{
}

}
