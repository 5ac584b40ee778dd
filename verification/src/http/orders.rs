//! Orders, as their buyers see them and act on them.
use vstd::prelude::*;

use crate::admin_auth;
use crate::clock;
use crate::db;
use crate::error;
use crate::error::{AppError, ErrorKind, Refusal};
use crate::http::common;
use crate::http::common::said;
use crate::http::fields;
use crate::http::gate;
use crate::http::gate::{EntryStep, Service};
use crate::json::{JsonData, JsonValue};
use crate::order::cancel;
use crate::order::cancel::{CancelOrderOutcome, Canceller};
use crate::order::repository::{OrderRecord, StatusCount};
use crate::order::status;
use crate::order::status::{OrderStatus, RechargeStatus};
use crate::provider_instances::ProviderInstanceRecord;
use crate::signing;
use crate::sub2api::{Float64, Sub2ApiUser};
use crate::text;

verus! {

pub open spec fn recharge_text(status: RechargeStatus) -> Seq<char> {
    match status {
        RechargeStatus::NotPaid => "not_paid"@,
        RechargeStatus::PaidPending => "paid_pending"@,
        RechargeStatus::Recharging => "recharging"@,
        RechargeStatus::Success => "success"@,
        RechargeStatus::Failed => "failed"@,
        RechargeStatus::Closed => "closed"@,
    }
}

pub fn recharge_status_text(status: RechargeStatus) -> (r: &'static str)
    ensures
        r@ == recharge_text(status),
{
    match status {
        RechargeStatus::NotPaid => "not_paid",
        RechargeStatus::PaidPending => "paid_pending",
        RechargeStatus::Recharging => "recharging",
        RechargeStatus::Success => "success",
        RechargeStatus::Failed => "failed",
        RechargeStatus::Closed => "closed",
    }
}

// ---------------------------------------------------------------------------
// What went wrong
// ---------------------------------------------------------------------------
/// What a buyer is told whose request for a refund failed.
pub open spec fn request_refund_refusal(error: Seq<char>, locale: Seq<char>) -> Refusal {
    if error == "order not found"@ {
        (ErrorKind::NotFound, said(locale, "订单不存在"@, "Order not found"@))
    } else if error == "forbidden"@ {
        (ErrorKind::Forbidden, said(locale, "无权申请该订单退款"@, "Forbidden"@))
    } else if error == "only balance orders support refund request"@ {
        (
            ErrorKind::BadRequest,
            said(locale, "仅余额充值订单支持退款申请"@, "Only balance orders can request refund"@),
        )
    } else if error == "only completed orders can request refund"@ {
        (
            ErrorKind::BadRequest,
            said(locale, "仅已完成订单可申请退款"@, "Only completed orders can request refund"@),
        )
    } else if error == "refund amount must be positive"@ {
        (
            ErrorKind::BadRequest,
            said(locale, "退款金额必须大于 0"@, "Refund amount must be greater than 0"@),
        )
    } else if error == "refund amount exceeds recharge amount"@ {
        (
            ErrorKind::BadRequest,
            said(
                locale,
                "退款金额不能超过充值金额"@,
                "Refund amount cannot exceed recharge amount"@,
            ),
        )
    } else if error == "refund amount exceeds current balance"@ {
        (
            ErrorKind::BadRequest,
            said(
                locale,
                "退款金额不能超过当前余额"@,
                "Refund amount cannot exceed current balance"@,
            ),
        )
    } else if error == "order status changed, refresh and retry"@ {
        (
            ErrorKind::Conflict,
            said(
                locale,
                "订单状态已变更，请刷新后重试"@,
                "Order status changed, refresh and retry"@,
            ),
        )
    } else {
        (ErrorKind::PublicInternal, said(locale, "退款申请失败"@, "Refund request failed"@))
    }
}

pub fn map_request_refund_error(error: &str, locale: &str) -> (r: AppError)
    ensures
        r@ == request_refund_refusal(error@, locale@),
{
    if text::same(error, "order not found") {
        AppError::not_found(common::message(locale, "订单不存在", "Order not found"))
    } else if text::same(error, "forbidden") {
        AppError::forbidden(common::message(locale, "无权申请该订单退款", "Forbidden"))
    } else if text::same(error, "only balance orders support refund request") {
        AppError::bad_request(
            common::message(
                locale,
                "仅余额充值订单支持退款申请",
                "Only balance orders can request refund",
            ),
        )
    } else if text::same(error, "only completed orders can request refund") {
        AppError::bad_request(
            common::message(
                locale,
                "仅已完成订单可申请退款",
                "Only completed orders can request refund",
            ),
        )
    } else if text::same(error, "refund amount must be positive") {
        AppError::bad_request(
            common::message(locale, "退款金额必须大于 0", "Refund amount must be greater than 0"),
        )
    } else if text::same(error, "refund amount exceeds recharge amount") {
        AppError::bad_request(
            common::message(
                locale,
                "退款金额不能超过充值金额",
                "Refund amount cannot exceed recharge amount",
            ),
        )
    } else if text::same(error, "refund amount exceeds current balance") {
        AppError::bad_request(
            common::message(
                locale,
                "退款金额不能超过当前余额",
                "Refund amount cannot exceed current balance",
            ),
        )
    } else if text::same(error, "order status changed, refresh and retry") {
        AppError::conflict(
            common::message(
                locale,
                "订单状态已变更，请刷新后重试",
                "Order status changed, refresh and retry",
            ),
        )
    } else {
        AppError::public_internal(common::message(locale, "退款申请失败", "Refund request failed"))
    }
}

/// What a buyer is told whose order could not be cancelled.
pub open spec fn cancel_order_refusal(error: Seq<char>) -> Refusal {
    if error == "order not found"@ {
        (ErrorKind::NotFound, "订单不存在"@)
    } else if error == "forbidden"@ {
        (ErrorKind::Forbidden, "无权操作该订单"@)
    } else if error == "order cannot be cancelled"@ {
        (ErrorKind::BadRequest, "订单当前状态不可取消"@)
    } else {
        (ErrorKind::PublicInternal, "取消订单失败"@)
    }
}

pub fn map_cancel_order_error(error: &str) -> (r: AppError)
    ensures
        r@ == cancel_order_refusal(error@),
{
    if text::same(error, "order not found") {
        AppError::not_found("订单不存在")
    } else if text::same(error, "forbidden") {
        AppError::forbidden("无权操作该订单")
    } else if text::same(error, "order cannot be cancelled") {
        AppError::bad_request("订单当前状态不可取消")
    } else {
        AppError::public_internal("取消订单失败")
    }
}

/// What a buyer is told whose order was cancelled, or found to be paid.
#[derive(Debug)]
pub struct CancelOrderResponse {
    pub success: bool,
    pub status: Option<&'static str>,
    pub message: Option<&'static str>,
}

pub open spec fn cancel_answered(r: CancelOrderResponse, outcome: CancelOrderOutcome, paid: Seq<char>) -> bool {
    &&& r.success
    &&& match outcome {
        CancelOrderOutcome::Cancelled => r.status is None && r.message is None,
        CancelOrderOutcome::AlreadyPaid => db::opt_str(r.status) == Some("PAID"@) && db::opt_str(
            r.message,
        ) == Some(paid),
    }
}

/// The answer to a cancellation, with what is said of an order that was paid.
pub fn cancel_response(outcome: CancelOrderOutcome, paid: &'static str) -> (r: CancelOrderResponse)
    ensures
        cancel_answered(r, outcome, paid@),
{
    match outcome {
        CancelOrderOutcome::Cancelled => CancelOrderResponse {
            success: true,
            status: None,
            message: None,
        },
        CancelOrderOutcome::AlreadyPaid => CancelOrderResponse {
            success: true,
            status: Some("PAID"),
            message: Some(paid),
        },
    }
}

// ---------------------------------------------------------------------------
// A buyer's orders
// ---------------------------------------------------------------------------
/// Which page of a listing, and how many orders stand on it.
#[derive(Debug, Clone, Copy, PartialEq, Eq, Structural)]
pub struct Page {
    pub page: i64,
    pub page_size: i64,
}

pub open spec fn page_of(page: Option<i64>, page_size: Option<i64>) -> Page {
    let p = match page {
        Some(n) => n,
        None => 1,
    };
    Page {
        page: if p < 1 {
            1
        } else {
            p
        },
        page_size: match page_size {
            Some(n) => if n == 50 || n == 100 {
                n
            } else {
                20
            },
            None => 20,
        },
    }
}

/// The page that a buyer asks for: twenty orders, unless fifty or a hundred are asked for.
pub fn my_orders_page(page: Option<i64>, page_size: Option<i64>) -> (r: Page)
    ensures
        r == page_of(page, page_size),
        r.page >= 1,
        r.page_size == 20 || r.page_size == 50 || r.page_size == 100,
{
    let p: i64 = match page {
        Some(n) => n,
        None => 1,
    };
    let page: i64 = if p < 1 {
        1
    } else {
        p
    };
    let page_size: i64 = match page_size {
        Some(n) => if n == 50 || n == 100 {
            n
        } else {
            20
        },
        None => 20,
    };
    Page { page, page_size }
}

/// How many orders stand before a page, where they can be counted.
pub open spec fn before_page(page: Page) -> int {
    (page.page - 1) * page.page_size
}

pub fn page_offset(page: Page) -> (r: Option<i64>)
    requires
        page.page >= 1,
    ensures
        match r {
            Some(n) => n == before_page(page),
            None => !(i64::MIN <= before_page(page) <= i64::MAX),
        },
{
    let before: i64 = page.page - 1;
    before.checked_mul(page.page_size)
}

/// Whether the instance with an identifier gives refunds: of two, the later counts.
pub open spec fn gives_refunds(instances: Seq<ProviderInstanceRecord>, id: Seq<char>) -> bool
    decreases instances.len(),
{
    if instances.len() == 0 {
        false
    } else if instances.last().id@ == id {
        instances.last().refund_enabled
    } else {
        gives_refunds(instances.drop_last(), id)
    }
}

fn find_gives_refunds(instances: &Vec<ProviderInstanceRecord>, id: &str) -> (r: bool)
    ensures
        r == gives_refunds(instances@, id@),
{
    let mut n: usize = instances.len();
    assert(instances@.take(n as int) =~= instances@);
    while n > 0
        invariant
            n <= instances@.len(),
            gives_refunds(instances@, id@) == gives_refunds(instances@.take(n as int), id@),
        decreases n,
    {
        assert(instances@.take(n as int).drop_last() =~= instances@.take(n - 1));
        if text::same(instances[n - 1].id.as_str(), id) {
            return instances[n - 1].refund_enabled;
        }
        n -= 1;
    }
    false
}

/// Whether the buyer of an order can ask for a refund: it is a recharge that was completed,
/// and the instance that took the payment gives refunds.
pub open spec fn may_request_refund(
    order: OrderRecord,
    instances: Seq<ProviderInstanceRecord>,
) -> bool {
    &&& order.order_type@ == "balance"@
    &&& order.status@ == "COMPLETED"@
    &&& order.provider_instance_id matches Some(id)
    &&& gives_refunds(instances, id@)
}

/// An order as its buyer sees it. Amounts are in cents.
#[derive(Debug)]
pub struct MyOrderItem {
    pub id: String,
    pub amount_cents: i64,
    pub status: String,
    pub payment_type: String,
    pub created_at: String,
    pub order_type: String,
    pub can_refund_request: bool,
    pub refund_requested_at: Option<String>,
    pub refund_request_reason: Option<String>,
    pub refund_amount_cents: Option<i64>,
    pub payment_success: bool,
    pub recharge_success: bool,
    pub recharge_status: &'static str,
    pub recharge_retryable: bool,
}

pub open spec fn order_state(order: OrderRecord) -> status::DerivedOrderState {
    status::derived(order.status@, order.paid_at, order.completed_at)
}

pub open spec fn my_item(
    item: MyOrderItem,
    order: OrderRecord,
    instances: Seq<ProviderInstanceRecord>,
) -> bool {
    &&& item.id == order.id
    &&& item.amount_cents == order.amount_cents
    &&& item.status == order.status
    &&& item.payment_type == order.payment_type
    &&& item.created_at@ == clock::shown_time(order.created_at)
    &&& item.order_type == order.order_type
    &&& item.can_refund_request == may_request_refund(order, instances)
    &&& db::opt_text(item.refund_requested_at) == clock::opt_shown_time(order.refund_requested_at)
    &&& item.refund_request_reason == order.refund_request_reason
    &&& item.refund_amount_cents == order.refund_amount_cents
    &&& item.payment_success == order_state(order).payment_success
    &&& item.recharge_success == order_state(order).recharge_success
    &&& item.recharge_status@ == recharge_text(order_state(order).recharge_status)
    &&& item.recharge_retryable == status::retryable(order.status@, order.paid_at)
}

pub fn to_my_order_item(order: OrderRecord, instances: &Vec<ProviderInstanceRecord>) -> (r:
    MyOrderItem)
    ensures
        my_item(r, order, instances@),
{
    let derived = status::derive_order_state(&order);
    let recharge_retryable = status::is_recharge_retryable(&order);
    let refunds = match &order.provider_instance_id {
        Some(id) => find_gives_refunds(instances, id.as_str()),
        None => false,
    };
    let can_refund_request = text::same(order.order_type.as_str(), "balance") && text::same(
        order.status.as_str(),
        "COMPLETED",
    ) && refunds;
    MyOrderItem {
        id: order.id,
        amount_cents: order.amount_cents,
        status: order.status,
        payment_type: order.payment_type,
        created_at: clock::timestamp_to_rfc3339(order.created_at),
        order_type: order.order_type,
        can_refund_request,
        refund_requested_at: clock::optional_timestamp_to_rfc3339(order.refund_requested_at),
        refund_request_reason: order.refund_request_reason,
        refund_amount_cents: order.refund_amount_cents,
        payment_success: derived.payment_success,
        recharge_success: derived.recharge_success,
        recharge_status: recharge_status_text(derived.recharge_status),
        recharge_retryable,
    }
}

/// How many orders have a status: of two counts, the later.
pub open spec fn count_of(counts: Seq<StatusCount>, status: Seq<char>) -> i64
    decreases counts.len(),
{
    if counts.len() == 0 {
        0
    } else if counts.last().status@ == status {
        counts.last().count
    } else {
        count_of(counts.drop_last(), status)
    }
}

fn find_count(counts: &Vec<StatusCount>, status: &str) -> (r: i64)
    ensures
        r == count_of(counts@, status@),
{
    let mut n: usize = counts.len();
    assert(counts@.take(n as int) =~= counts@);
    while n > 0
        invariant
            n <= counts@.len(),
            count_of(counts@, status@) == count_of(counts@.take(n as int), status@),
        decreases n,
    {
        assert(counts@.take(n as int).drop_last() =~= counts@.take(n - 1));
        if text::same(counts[n - 1].status.as_str(), status) {
            return counts[n - 1].count;
        }
        n -= 1;
    }
    0
}

#[derive(Debug, Clone, Copy, PartialEq, Eq, Structural)]
pub struct MyOrdersSummary {
    pub total: i64,
    pub pending: i64,
    pub completed: i64,
    pub failed: i64,
}

/// The orders that were paid for, whether or not they are credited yet.
pub open spec fn completed_count(counts: Seq<StatusCount>) -> int {
    count_of(counts, "COMPLETED"@) + count_of(counts, "PAID"@) + count_of(counts, "RECHARGING"@)
}

/// The orders that came to nothing.
pub open spec fn failed_count(counts: Seq<StatusCount>) -> int {
    count_of(counts, "FAILED"@) + count_of(counts, "CANCELLED"@) + count_of(counts, "EXPIRED"@)
}

pub open spec fn counts_fit(counts: Seq<StatusCount>) -> bool {
    i64::MIN <= completed_count(counts) <= i64::MAX && i64::MIN <= failed_count(counts) <= i64::MAX
}

fn sum_of_three(a: i64, b: i64, c: i64) -> (r: Option<i64>)
    ensures
        match r {
            Some(n) => n == a + b + c,
            None => !(i64::MIN <= a + b + c <= i64::MAX),
        },
{
    let sum: i128 = (a as i128) + (b as i128) + (c as i128);
    if -0x8000_0000_0000_0000 <= sum && sum <= 0x7fff_ffff_ffff_ffff {
        Some(sum as i64)
    } else {
        None
    }
}

/// How a buyer's orders stand, where they can be counted.
pub fn summarize(total: i64, counts: &Vec<StatusCount>) -> (r: Option<MyOrdersSummary>)
    ensures
        match r {
            Some(s) => s.total == total && s.pending == count_of(counts@, "PENDING"@)
                && s.completed == completed_count(counts@) && s.failed == failed_count(counts@),
            None => !counts_fit(counts@),
        },
{
    let completed = sum_of_three(
        find_count(counts, "COMPLETED"),
        find_count(counts, "PAID"),
        find_count(counts, "RECHARGING"),
    );
    let failed = sum_of_three(
        find_count(counts, "FAILED"),
        find_count(counts, "CANCELLED"),
        find_count(counts, "EXPIRED"),
    );
    match (completed, failed) {
        (Some(completed), Some(failed)) => Some(
            MyOrdersSummary { total, pending: find_count(counts, "PENDING"), completed, failed },
        ),
        _ => None,
    }
}

/// A buyer, as they are addressed.
#[derive(Debug)]
pub struct MyOrdersUser {
    pub id: i64,
    pub username: Option<String>,
    pub email: Option<String>,
    pub display_name: String,
    pub balance: Option<Float64>,
}

pub open spec fn display_name(user: Sub2ApiUser) -> Seq<char> {
    match user.username {
        Some(name) => name@,
        None => match user.email {
            Some(email) => email@,
            None => "User #"@ + text::decimal(user.id as int),
        },
    }
}

pub fn to_my_orders_user(user: Sub2ApiUser) -> (r: MyOrdersUser)
    ensures
        r.id == user.id,
        r.username == user.username,
        r.email == user.email,
        r.display_name@ == display_name(user),
        r.balance == user.balance,
{
    let display_name = match &user.username {
        Some(name) => name.clone(),
        None => match &user.email {
            Some(email) => email.clone(),
            None => text::cat("User #", text::i64_text(user.id).as_str()),
        },
    };
    MyOrdersUser {
        id: user.id,
        username: user.username,
        email: user.email,
        display_name,
        balance: user.balance,
    }
}

/// What a buyer is shown of their orders.
#[derive(Debug)]
pub struct MyOrdersResponse {
    pub user: MyOrdersUser,
    pub orders: Vec<MyOrderItem>,
    pub summary: MyOrdersSummary,
    pub page: i64,
    pub page_size: i64,
    pub total_pages: i64,
}

/// What was asked of the database for a page of a buyer's orders.
#[derive(Debug)]
pub struct MyOrdersFacts {
    pub orders: Vec<OrderRecord>,
    pub total: i64,
    pub counts: Vec<StatusCount>,
    pub instances: Vec<ProviderInstanceRecord>,
}

fn list_items(orders: &Vec<OrderRecord>, instances: &Vec<ProviderInstanceRecord>) -> (r: Vec<
    MyOrderItem,
>)
    ensures
        r@.len() == orders@.len(),
        forall|i: int|
            0 <= i < r@.len() ==> my_item(#[trigger] r@[i], orders@[i], instances@),
{
    let mut out: Vec<MyOrderItem> = Vec::new();
    let mut i: usize = 0;
    while i < orders.len()
        invariant
            i <= orders@.len(),
            out@.len() == i,
            forall|j: int|
                0 <= j < i ==> my_item(#[trigger] out@[j], orders@[j], instances@),
        decreases orders@.len() - i,
    {
        out.push(to_my_order_item(orders[i].clone(), instances));
        i += 1;
    }
    out
}

/// Shows a page of a buyer's orders, where they can be counted.
pub fn list_my_orders(user: Sub2ApiUser, page: Page, facts: MyOrdersFacts) -> (r: Option<
    MyOrdersResponse,
>)
    ensures
        r is Some <==> counts_fit(facts.counts@),
        r matches Some(v) ==> {
            &&& v.user.id == user.id
            &&& v.user.username == user.username
            &&& v.user.email == user.email
            &&& v.user.display_name@ == display_name(user)
            &&& v.user.balance == user.balance
            &&& v.orders@.len() == facts.orders@.len()
            &&& forall|i: int|
                0 <= i < v.orders@.len() ==> my_item(
                    #[trigger] v.orders@[i],
                    facts.orders@[i],
                    facts.instances@,
                )
            &&& v.summary.total == facts.total
            &&& v.summary.pending == count_of(facts.counts@, "PENDING"@)
            &&& v.summary.completed == completed_count(facts.counts@)
            &&& v.summary.failed == failed_count(facts.counts@)
            &&& v.page == page.page
            &&& v.page_size == page.page_size
            &&& v.total_pages == common::pages(facts.total as int, page.page_size as int)
        },
{
    let summary = match summarize(facts.total, &facts.counts) {
        Some(s) => s,
        None => {
            return None;
        },
    };
    Some(
        MyOrdersResponse {
            user: to_my_orders_user(user),
            orders: list_items(&facts.orders, &facts.instances),
            summary,
            page: page.page,
            page_size: page.page_size,
            total_pages: common::total_pages(facts.total, page.page_size),
        },
    )
}

// ---------------------------------------------------------------------------
// The status of an order
// ---------------------------------------------------------------------------
#[derive(Debug)]
pub struct OrderStatusResponse {
    pub id: String,
    pub status: String,
    pub expires_at: String,
    pub payment_success: bool,
    pub recharge_success: bool,
    pub recharge_status: &'static str,
    pub failed_reason: Option<String>,
}

pub open spec fn status_shown(r: OrderStatusResponse, order: OrderRecord) -> bool {
    &&& r.id == order.id
    &&& r.status == order.status
    &&& r.expires_at@ == clock::shown_time(order.expires_at)
    &&& r.payment_success == order_state(order).payment_success
    &&& r.recharge_success == order_state(order).recharge_success
    &&& r.recharge_status@ == recharge_text(order_state(order).recharge_status)
    &&& r.failed_reason == order.failed_reason
}

pub open spec fn order_missing(locale: Seq<char>) -> Refusal {
    (ErrorKind::NotFound, said(locale, "订单不存在"@, "Order not found"@))
}

/// The status of an order, which must be there.
pub fn order_status_response(order: Option<OrderRecord>, locale: &str) -> (r: Result<
    OrderStatusResponse,
    AppError,
>)
    ensures
        match order {
            Some(o) => r matches Ok(v) && status_shown(v, o),
            None => r matches Err(e) && e@ == order_missing(locale@),
        },
{
    let order = match order {
        Some(o) => o,
        None => {
            return Err(
                AppError::not_found(common::message(locale, "订单不存在", "Order not found")),
            );
        },
    };
    let derived = status::derive_order_state(&order);
    Ok(
        OrderStatusResponse {
            id: order.id,
            status: order.status,
            expires_at: clock::timestamp_to_rfc3339(order.expires_at),
            payment_success: derived.payment_success,
            recharge_success: derived.recharge_success,
            recharge_status: recharge_status_text(derived.recharge_status),
            failed_reason: order.failed_reason,
        },
    )
}

/// Who asks for the status of an order.
#[derive(Debug)]
pub struct StatusCaller {
    pub access_token: Option<String>,
    pub authorization: Option<String>,
    pub token: Option<String>,
    pub lang: Option<String>,
}

/// Whether the status of an order is told: to the bearer of a token for the order, and to
/// an administrator.
pub open spec fn status_open(
    caller: StatusCaller,
    admin_token: Option<Seq<char>>,
    order_id: Seq<char>,
    now_ms: int,
) -> bool {
    signing::token_opens(
        admin_token,
        order_id,
        db::opt_text(caller.access_token),
        now_ms,
    ) || admin_auth::admin_refusal(
        db::opt_text(caller.authorization),
        db::opt_text(caller.token),
        db::opt_text(caller.lang),
        admin_token,
    ) is None
}

pub fn authorize_status(
    caller: &StatusCaller,
    admin_token: Option<&str>,
    order_id: &str,
    now_ms: i64,
) -> (r: Result<(), AppError>)
    ensures
        match r {
            Ok(_) => status_open(*caller, db::opt_str(admin_token), order_id@, now_ms as int),
            Err(e) => !status_open(*caller, db::opt_str(admin_token), order_id@, now_ms as int)
                && e@ == (
                ErrorKind::Unauthorized,
                said(
                    common::locale(db::opt_text(caller.lang)),
                    "未授权访问该订单状态"@,
                    "Unauthorized to access this order status"@,
                ),
            ),
        },
{
    let access = signing::verify_order_status_access_token(
        admin_token,
        order_id,
        db::as_deref(&caller.access_token),
        now_ms,
    );
    let admin = admin_auth::verify_admin_values(
        db::as_deref(&caller.authorization),
        db::as_deref(&caller.token),
        db::as_deref(&caller.lang),
        admin_token,
    ).is_ok();
    if access || admin {
        return Ok(());
    }
    let locale = common::resolve_locale(db::as_deref(&caller.lang));
    Err(
        AppError::unauthorized(
            common::message(
                locale,
                "未授权访问该订单状态",
                "Unauthorized to access this order status",
            ),
        ),
    )
}

// ---------------------------------------------------------------------------
// A request for a refund
// ---------------------------------------------------------------------------
/// What a buyer asks for: how much, in cents, and why.
#[derive(Debug)]
pub struct RefundAsk {
    pub amount_cents: i64,
    pub reason: Option<String>,
}

/// The positive amount, in cents, that a field holds.
pub open spec fn amount_in(v: Option<JsonValue>) -> Option<i64> {
    match v {
        Some(j) => match j.data {
            JsonData::Number { number } => number.positive_cents,
            _ => None,
        },
        None => None,
    }
}

pub fn read_amount(v: Option<&JsonValue>) -> (r: Option<i64>)
    ensures
        r == amount_in(fields::deref(v)),
{
    match v {
        Some(j) => match &j.data {
            JsonData::Number { number } => number.positive_cents,
            _ => None,
        },
        None => None,
    }
}

/// A reason that may be left out or null, but is no other value than a text.
pub open spec fn reason_in(v: Option<JsonValue>) -> Option<Option<Seq<char>>> {
    if fields::is_blank(v) {
        Some(None)
    } else {
        match v->0.data {
            JsonData::Text { text } => Some(Some(text@)),
            _ => None,
        }
    }
}

pub fn read_reason(v: Option<&JsonValue>) -> (r: Option<Option<String>>)
    ensures
        match r {
            Some(o) => reason_in(fields::deref(v)) == Some(db::opt_text(o)),
            None => reason_in(fields::deref(v)) is None,
        },
{
    match v {
        None => Some(None),
        Some(j) => match &j.data {
            JsonData::Null => Some(None),
            JsonData::Text { text } => Some(Some(text.clone())),
            _ => None,
        },
    }
}

/// Whether a request for a refund is in order.
pub open spec fn refund_asked(body: JsonValue) -> bool {
    &&& body.data matches JsonData::Object { members }
    &&& amount_in(fields::field(members@, "amount"@)) is Some
    &&& reason_in(fields::field(members@, "reason"@)) is Some
}

pub fn read_refund_request(body: &JsonValue, locale: &str) -> (r: Result<RefundAsk, AppError>)
    requires
        body.wf(),
    ensures
        match r {
            Ok(ask) => refund_asked(*body) && amount_in(
                fields::field((body.data)->members@, "amount"@),
            ) == Some(ask.amount_cents) && reason_in(
                fields::field((body.data)->members@, "reason"@),
            ) == Some(db::opt_text(ask.reason)),
            Err(e) => !refund_asked(*body) && e@ == (
                ErrorKind::BadRequest,
                said(locale@, "参数错误"@, "Invalid parameters"@),
            ),
        },
{
    let message = common::message(locale, "参数错误", "Invalid parameters");
    let object = match fields::require_object(body, message) {
        Ok(o) => o,
        Err(e) => {
            return Err(e);
        },
    };
    let amount_cents: i64 = match read_amount(fields::get_field(object, "amount")) {
        Some(n) => n,
        None => {
            return Err(AppError::bad_request(message));
        },
    };
    match read_reason(fields::get_field(object, "reason")) {
        Some(reason) => Ok(RefundAsk { amount_cents, reason }),
        None => Err(AppError::bad_request(message)),
    }
}

/// A request for a refund begins: its token is looked at before what it says, and that before
/// the platform is asked whose the token is.
pub fn begin_refund_request(
    body: &JsonValue,
    token: Option<&str>,
    locale: &'static str,
    platform: bool,
) -> (r: Result<(RefundAsk, EntryStep), AppError>)
    requires
        body.wf(),
    ensures
        match admin_auth::filled_trimmed(db::opt_str(token)) {
            None => r matches Err(e) && e@ == gate::token_missing(
                Service::RefundRequest,
                locale@,
            ),
            Some(t) => if !refund_asked(*body) {
                r matches Err(e) && e@ == (
                    ErrorKind::BadRequest,
                    said(locale@, "参数错误"@, "Invalid parameters"@),
                )
            } else {
                &&& r matches Ok((ask, step))
                &&& amount_in(fields::field((body.data)->members@, "amount"@)) == Some(
                    ask.amount_cents,
                )
                &&& reason_in(fields::field((body.data)->members@, "reason"@)) == Some(
                    db::opt_text(ask.reason),
                )
                &&& if platform {
                    gate::asks_for_user(step, Service::RefundRequest, t, locale@)
                } else {
                    gate::turns_away(
                        step,
                        gate::platform_missing(Service::RefundRequest, locale@),
                    )
                }
            },
        },
{
    match gate::require_user_token(Service::RefundRequest, token, locale) {
        Err(e) => Err(e),
        Ok(_) => match read_refund_request(body, locale) {
            Err(e) => Err(e),
            Ok(ask) => {
                let step = gate::begin_entry(Service::RefundRequest, token, locale, platform);
                Ok((ask, step))
            },
        },
    }
}

// ---------------------------------------------------------------------------
// Laws
// ---------------------------------------------------------------------------
/// A buyer is offered a refund only for a completed recharge that an instance took which gives
/// refunds; without an instance there is none.
pub proof fn law_refunds_are_offered_for_completed_recharges(
    order: OrderRecord,
    instances: Seq<ProviderInstanceRecord>,
)
    requires
        may_request_refund(order, instances),
    ensures
        order.status@ == OrderStatus::Completed.name(),
        order.provider_instance_id is Some,
        exists|i: int|
            0 <= i < instances.len() && (#[trigger] instances[i]).id@
                == order.provider_instance_id->0@ && instances[i].refund_enabled,
    decreases instances.len(),
{
    let id = order.provider_instance_id->0@;
    if instances.last().id@ == id {
        assert(instances[instances.len() - 1].refund_enabled);
    } else {
        let before = instances.drop_last();
        law_refunds_are_offered_for_completed_recharges(order, before);
        let i = choose|i: int|
            0 <= i < before.len() && (#[trigger] before[i]).id@ == id && before[i].refund_enabled;
        assert(instances[i].id@ == id && instances[i].refund_enabled);
    }
}

/// A buyer whose order cannot be cancelled is told why: that there is none, that it is another
/// buyer's, or that it does not await payment.
pub proof fn law_cancel_refusals_are_told_apart(order: Option<OrderRecord>, user_id: i64)
    requires
        cancel::cancel_refused(order, Canceller::User { user_id }) is Some,
    ensures
        ({
            let why = cancel::cancel_refused(order, Canceller::User { user_id })->0;
            cancel_order_refusal(why).0 == match order {
                None => ErrorKind::NotFound,
                Some(o) => if o.user_id != user_id {
                    ErrorKind::Forbidden
                } else {
                    ErrorKind::BadRequest
                },
            }
        }),
{
    reveal_strlit("order not found");
    reveal_strlit("forbidden");
    reveal_strlit("order cannot be cancelled");
    assert("order not found"@.len() == 15);
    assert("forbidden"@.len() == 9);
    assert("order cannot be cancelled"@.len() == 25);
}

/// The pages of a buyer's orders follow on one another: a page begins where the one before it
/// ends.
pub proof fn law_pages_follow_on(page: Page)
    requires
        page.page < i64::MAX,
    ensures
        before_page(Page { page: (page.page + 1) as i64, ..page }) == before_page(page)
            + page.page_size,
        page.page == 1 ==> before_page(page) == 0,
{
    assert((page.page + 1 - 1) * page.page_size == (page.page - 1) * page.page_size
        + page.page_size) by (nonlinear_arith);
    assert(0 * page.page_size == 0) by (nonlinear_arith);
}

/// A buyer is shown their order as it is: its amount, its status, when it was placed, and
/// whether it was paid and credited; a refund may be asked for exactly for a completed recharge
/// that an instance took which gives refunds.
pub proof fn law_buyers_see_their_orders_as_they_are(
    item: MyOrderItem,
    order: OrderRecord,
    instances: Seq<ProviderInstanceRecord>,
)
    requires
        my_item(item, order, instances),
    ensures
        item.id == order.id,
        item.amount_cents == order.amount_cents,
        item.status == order.status,
        item.payment_type == order.payment_type,
        item.order_type == order.order_type,
        item.created_at@ == clock::shown_time(order.created_at),
        item.refund_amount_cents == order.refund_amount_cents,
        item.payment_success <==> order.paid_at is Some,
        item.recharge_success <==> order.completed_at is Some || order.status@ == "COMPLETED"@,
        item.recharge_success <==> item.recharge_status@ == "success"@,
        item.recharge_retryable <==> order.paid_at is Some && order.status@ == "FAILED"@,
        item.can_refund_request ==> order.order_type@ == "balance"@ && order.status@
            == "COMPLETED"@ && order.provider_instance_id is Some,
        order.order_type@ == "balance"@ && order.status@ == "COMPLETED"@
            && order.provider_instance_id is Some ==> item.can_refund_request == gives_refunds(
            instances,
            order.provider_instance_id->0@,
        ),
{
    reveal_strlit("not_paid");
    reveal_strlit("paid_pending");
    reveal_strlit("recharging");
    reveal_strlit("success");
    reveal_strlit("failed");
    reveal_strlit("closed");
    assert("not_paid"@.len() == 8 && "paid_pending"@.len() == 12 && "recharging"@.len() == 10
        && "success"@.len() == 7 && "failed"@.len() == 6 && "closed"@.len() == 6);
}

/// An instance gives refunds exactly where the last one with its identifier does.
pub proof fn law_refunds_are_given_by_the_instance(
    instances: Seq<ProviderInstanceRecord>,
    id: Seq<char>,
    i: int,
)
    requires
        0 <= i < instances.len(),
        instances[i].id@ == id,
        forall|j: int| i < j < instances.len() ==> (#[trigger] instances[j]).id@ != id,
    ensures
        gives_refunds(instances, id) == instances[i].refund_enabled,
    decreases instances.len(),
{
    let n = instances.len() - 1;
    if i < n {
        assert(instances[n].id@ != id);
        let before = instances.drop_last();
        assert forall|j: int| i < j < before.len() implies (#[trigger] before[j]).id@ != id by {
            assert(instances[j].id@ != id);
        }
        law_refunds_are_given_by_the_instance(before, id, i);
    }
}

/// The summary counts each status where it belongs: those completed, paid or being credited
/// together, and those failed, cancelled or expired together.
pub proof fn law_summaries_count_by_status(counts: Seq<StatusCount>, status: Seq<char>, i: int)
    ensures
        completed_count(counts) == count_of(counts, "PAID"@) + count_of(counts, "RECHARGING"@)
            + count_of(counts, "COMPLETED"@),
        failed_count(counts) == count_of(counts, "CANCELLED"@) + count_of(counts, "EXPIRED"@)
            + count_of(counts, "FAILED"@),
        0 <= i < counts.len() && counts[i].status@ == status && (forall|j: int|
            i < j < counts.len() ==> (#[trigger] counts[j]).status@ != status) ==> count_of(
            counts,
            status,
        ) == counts[i].count,
        (forall|j: int| 0 <= j < counts.len() ==> (#[trigger] counts[j]).status@ != status)
            ==> count_of(counts, status) == 0,
    decreases counts.len(),
{
    if counts.len() > 0 {
        let before = counts.drop_last();
        let n = before.len() as int;
        assert(counts[n] == counts.last());
        law_summaries_count_by_status(before, status, i);
        assert forall|j: int| 0 <= j < n implies #[trigger] before[j] == counts[j] by {}
        if forall|j: int| 0 <= j < counts.len() ==> (#[trigger] counts[j]).status@ != status {
            assert(counts[n].status@ != status);
            assert forall|j: int| 0 <= j < before.len() implies (#[trigger] before[j]).status@
                != status by {
                assert(counts[j].status@ != status);
            }
        }
        if 0 <= i < n && counts[i].status@ == status && (forall|j: int|
            i < j < counts.len() ==> (#[trigger] counts[j]).status@ != status) {
            assert(counts[n].status@ != status);
            assert forall|j: int| i < j < before.len() implies (#[trigger] before[j]).status@
                != status by {
                assert(counts[j].status@ != status);
            }
        }
    }
}

/// A page of orders holds twenty, fifty or a hundred, and is the first where none is asked for.
pub proof fn law_pages_have_known_sizes(page: Option<i64>, page_size: Option<i64>)
    ensures
        page_of(page, page_size).page >= 1,
        page matches Some(p) ==> p >= 1 ==> page_of(page, page_size).page == p,
        page is None ==> page_of(page, page_size).page == 1,
        page_size == Some(50i64) || page_size == Some(100i64) ==> page_of(
            page,
            page_size,
        ).page_size == page_size->0,
        page_size != Some(50i64) && page_size != Some(100i64) ==> page_of(
            page,
            page_size,
        ).page_size == 20,
{
}

/// The status of an order is told exactly to who holds a token for that order, or the
/// administrator's.
pub proof fn law_status_is_told_to_its_holder(
    caller: StatusCaller,
    admin_token: Option<Seq<char>>,
    order_id: Seq<char>,
    now_ms: int,
)
    ensures
        status_open(caller, admin_token, order_id, now_ms) <==> (caller.access_token is Some
            && signing::token_opens(
            admin_token,
            order_id,
            Some(caller.access_token->0@),
            now_ms,
        )) || (admin_token is Some && admin_auth::token_of(
            db::opt_text(caller.authorization),
            db::opt_text(caller.token),
        ) == admin_token),
{
}

/// A status is told as the order has it.
pub proof fn law_statuses_are_told_as_they_are(r: OrderStatusResponse, order: OrderRecord)
    requires
        status_shown(r, order),
    ensures
        r.id == order.id,
        r.status == order.status,
        r.expires_at@ == clock::shown_time(order.expires_at),
        r.payment_success <==> order.paid_at is Some,
        r.recharge_success <==> order.completed_at is Some || order.status@ == "COMPLETED"@,
        r.failed_reason == order.failed_reason,
{
}

/// A cancellation that came too late is told as a payment; one in time as nothing more than
/// done.
pub proof fn law_late_cancellations_are_told(
    r: CancelOrderResponse,
    outcome: CancelOrderOutcome,
    paid: Seq<char>,
)
    requires
        cancel_answered(r, outcome, paid),
    ensures
        r.success,
        r.status is Some <==> outcome is AlreadyPaid,
        r.status matches Some(s) ==> s@ == "PAID"@,
        r.message is Some <==> outcome is AlreadyPaid,
        r.message matches Some(m) ==> m@ == paid,
{
}

/// A buyer is shown every order of the page as it is, under their own name, with all their
/// orders counted.
pub proof fn law_buyers_see_their_own_page(
    user: Sub2ApiUser,
    page: Page,
    facts: MyOrdersFacts,
    r: Option<MyOrdersResponse>,
    v: MyOrdersResponse,
    i: int,
)
    requires
        call_ensures(list_my_orders, (user, page, facts), r),
        r == Some(v),
        0 <= i < facts.orders@.len(),
    ensures
        v.user.id == user.id && v.user.balance == user.balance,
        user.username matches Some(n) ==> v.user.display_name@ == n@,
        user.username is None && user.email is Some ==> v.user.display_name@ == user.email->0@,
        user.username is None && user.email is None ==> v.user.display_name@ == "User #"@
            + text::decimal(user.id as int),
        v.orders@.len() == facts.orders@.len(),
        v.orders@[i].id == facts.orders@[i].id && v.orders@[i].amount_cents
            == facts.orders@[i].amount_cents && v.orders@[i].status == facts.orders@[i].status,
        v.summary.total == facts.total,
        v.summary.pending == count_of(facts.counts@, "PENDING"@),
        v.summary.completed == count_of(facts.counts@, "PAID"@) + count_of(
            facts.counts@,
            "RECHARGING"@,
        ) + count_of(facts.counts@, "COMPLETED"@),
        v.summary.failed == count_of(facts.counts@, "CANCELLED"@) + count_of(
            facts.counts@,
            "EXPIRED"@,
        ) + count_of(facts.counts@, "FAILED"@),
        v.page == page.page && v.page_size == page.page_size,
        page.page_size > 0 ==> v.total_pages * page.page_size >= facts.total,
{
    assert(my_item(v.orders@[i], facts.orders@[i], facts.instances@));
    if page.page_size > 0 {
        common::law_pages_hold_everything(facts.total as int, page.page_size as int);
    }
}

/// What is refused to a buyer is told apart: an order that is not there, one of another, one
/// that can have no such refund, and one that has changed meanwhile.
pub proof fn law_refund_refusals_are_told_apart(error: Seq<char>, locale: Seq<char>)
    ensures
        request_refund_refusal("order not found"@, locale).0 == ErrorKind::NotFound,
        request_refund_refusal(error, locale).0 == ErrorKind::NotFound ==> error
            == "order not found"@,
        request_refund_refusal(error, locale).0 == ErrorKind::Forbidden ==> error == "forbidden"@,
        request_refund_refusal(error, locale).0 == ErrorKind::Conflict ==> error
            == "order status changed, refresh and retry"@,
        cancel_order_refusal(error).0 == ErrorKind::Forbidden ==> error == "forbidden"@,
        cancel_order_refusal(error).0 == ErrorKind::NotFound ==> error == "order not found"@,
{
}

/// A refund is asked for exactly with an amount above zero, and a reason that is a text or is
/// left out.
pub proof fn law_refund_requests_are_read_as_written(
    body: JsonValue,
    locale: &str,
    r: Result<RefundAsk, AppError>,
    o: Map<Seq<char>, JsonValue>,
)
    requires
        call_ensures(read_refund_request, (&body, locale), r),
        body.data matches JsonData::Object { members } && members@ == o,
    ensures
        r matches Ok(ask) ==> o.dom().contains("amount"@) && (
        o["amount"@].data matches JsonData::Number { number } && number.positive_cents == Some(
            ask.amount_cents,
        )) && (ask.reason matches Some(s) ==> o.dom().contains("reason"@) && (
        o["reason"@].data matches JsonData::Text { text } && text@ == s@)),
        r matches Err(e) ==> e@.0 == ErrorKind::BadRequest,
{
}

/// A status is told exactly where the caller may see it.
pub proof fn law_status_is_told_where_it_is_open(
    caller: StatusCaller,
    admin_token: Option<&str>,
    order_id: &str,
    now_ms: i64,
    r: Result<(), AppError>,
)
    requires
        call_ensures(authorize_status, (&caller, admin_token, order_id, now_ms), r),
    ensures
        r is Ok <==> status_open(caller, db::opt_str(admin_token), order_id@, now_ms as int),
        r matches Err(e) ==> e.kind is Unauthorized,
        admin_token is None ==> r is Err,
{
}

/// A page begins after all the pages before it.
pub proof fn law_pages_begin_where_others_end(page: Page, r: Option<i64>)
    requires
        call_ensures(page_offset, (page,), r),
    ensures
        r matches Some(n) ==> n == (page.page - 1) * page.page_size,
{
}

}
