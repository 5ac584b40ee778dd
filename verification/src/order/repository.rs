//! The order table: what an order holds, how a row is read and written, and the
//! guarded changes of state that an order undergoes.
use vstd::prelude::*;

use crate::db;
use crate::db::{Column, SqlValue};
use crate::order::status::{is_status, OrderStatus, OrderStatusLike};
use crate::text;

verus! {

/// The columns of the order table, in the order in which a row holds them.
pub const ORDER_SELECT_COLUMNS: &'static str = "id, user_id, user_email, user_name, user_notes, amount_cents, pay_amount_cents, fee_rate_bps, recharge_code, status, payment_type, payment_trade_no, pay_url, qr_code, refund_amount_cents, refund_reason, refund_at, force_refund, refund_requested_at, refund_request_reason, refund_requested_by, expires_at, paid_at, completed_at, failed_at, failed_reason, created_at, updated_at, client_ip, src_host, src_url, order_type, plan_id, subscription_group_id, subscription_days, provider_instance_id";

/// The orders that are overdue at a time, so many at most: those that are pending and were to
/// be paid before it, the longest overdue first.
pub const OVERDUE_ORDERS: &'static str =
    "WHERE status = 'PENDING' AND expires_at < ?1 ORDER BY expires_at ASC LIMIT ?2";

/// The orders of a user, the latest first: so many at most, after so many others.
pub const ORDERS_OF_USER: &'static str =
    "WHERE user_id = ?1 ORDER BY created_at DESC LIMIT ?2 OFFSET ?3";

pub const COUNT_PENDING_OF_USER: &'static str =
    "SELECT COUNT(*) FROM orders WHERE user_id = ?1 AND status = 'PENDING'";

pub const COUNT_OF_USER: &'static str = "SELECT COUNT(*) FROM orders WHERE user_id = ?1";

pub const COUNT_STATUSES_OF_USER: &'static str =
    "SELECT status, COUNT(*) FROM orders WHERE user_id = ?1 GROUP BY status";

#[derive(Debug)]
pub struct OrderRecord {
    pub id: String,
    pub user_id: i64,
    pub user_email: Option<String>,
    pub user_name: Option<String>,
    pub user_notes: Option<String>,
    pub amount_cents: i64,
    pub pay_amount_cents: Option<i64>,
    pub fee_rate_bps: Option<i64>,
    pub recharge_code: String,
    pub status: String,
    pub payment_type: String,
    pub payment_trade_no: Option<String>,
    pub pay_url: Option<String>,
    pub qr_code: Option<String>,
    pub refund_amount_cents: Option<i64>,
    pub refund_reason: Option<String>,
    pub refund_at: Option<i64>,
    pub force_refund: bool,
    pub refund_requested_at: Option<i64>,
    pub refund_request_reason: Option<String>,
    pub refund_requested_by: Option<i64>,
    pub expires_at: i64,
    pub paid_at: Option<i64>,
    pub completed_at: Option<i64>,
    pub failed_at: Option<i64>,
    pub failed_reason: Option<String>,
    pub created_at: i64,
    pub updated_at: i64,
    pub client_ip: Option<String>,
    pub src_host: Option<String>,
    pub src_url: Option<String>,
    pub order_type: String,
    pub plan_id: Option<String>,
    pub subscription_group_id: Option<i64>,
    pub subscription_days: Option<i64>,
    pub provider_instance_id: Option<String>,
}

#[derive(Debug)]
pub struct StatusCount {
    pub status: String,
    pub count: i64,
}

#[derive(Debug)]
pub struct AdminOrderListFilters {
    pub status: Option<String>,
    pub order_type: Option<String>,
    pub user_id: Option<i64>,
    pub created_from: Option<i64>,
    pub created_to: Option<i64>,
    pub offset: i64,
    pub limit: i64,
}

#[derive(Debug)]
pub struct NewPendingOrder {
    pub user_id: i64,
    pub amount_cents: i64,
    pub pay_amount_cents: Option<i64>,
    pub fee_rate_bps: Option<i64>,
    pub status: String,
    pub payment_type: String,
    pub order_type: String,
    pub plan_id: Option<String>,
    pub subscription_group_id: Option<i64>,
    pub subscription_days: Option<i64>,
    pub provider_instance_id: Option<String>,
    pub expires_at: i64,
}

#[derive(Debug)]
pub struct MarkPaidInput {
    pub order_id: String,
    pub trade_no: String,
    pub paid_amount_cents: i64,
    pub paid_at: i64,
    pub grace_updated_at_gte: i64,
}

#[derive(Debug)]
pub struct MarkRefundRequestedInput {
    pub order_id: String,
    pub user_id: i64,
    pub refund_amount_cents: i64,
    pub refund_request_reason: Option<String>,
    pub refund_requested_by: i64,
    pub refund_requested_at: i64,
}

#[derive(Debug)]
pub struct MarkRefundedInput {
    pub order_id: String,
    pub status: String,
    pub refund_amount_cents: i64,
    pub refund_reason: String,
    pub refund_at: i64,
    pub force_refund: bool,
}

impl OrderStatusLike for OrderRecord {
    open spec fn status_text(&self) -> Seq<char> {
        self.status@
    }

    open spec fn paid_time(&self) -> Option<i64> {
        self.paid_at
    }

    open spec fn completed_time(&self) -> Option<i64> {
        self.completed_at
    }

    fn status(&self) -> (r: &str) {
        self.status.as_str()
    }

    fn paid_at(&self) -> (r: Option<i64>) {
        self.paid_at
    }

    fn completed_at(&self) -> (r: Option<i64>) {
        self.completed_at
    }
}

impl Clone for OrderRecord {
    fn clone(&self) -> (r: Self)
        ensures
            r == *self,
    {
        OrderRecord {
            id: self.id.clone(),
            user_id: self.user_id,
            user_email: db::copy_opt(&self.user_email),
            user_name: db::copy_opt(&self.user_name),
            user_notes: db::copy_opt(&self.user_notes),
            amount_cents: self.amount_cents,
            pay_amount_cents: self.pay_amount_cents,
            fee_rate_bps: self.fee_rate_bps,
            recharge_code: self.recharge_code.clone(),
            status: self.status.clone(),
            payment_type: self.payment_type.clone(),
            payment_trade_no: db::copy_opt(&self.payment_trade_no),
            pay_url: db::copy_opt(&self.pay_url),
            qr_code: db::copy_opt(&self.qr_code),
            refund_amount_cents: self.refund_amount_cents,
            refund_reason: db::copy_opt(&self.refund_reason),
            refund_at: self.refund_at,
            force_refund: self.force_refund,
            refund_requested_at: self.refund_requested_at,
            refund_request_reason: db::copy_opt(&self.refund_request_reason),
            refund_requested_by: self.refund_requested_by,
            expires_at: self.expires_at,
            paid_at: self.paid_at,
            completed_at: self.completed_at,
            failed_at: self.failed_at,
            failed_reason: db::copy_opt(&self.failed_reason),
            created_at: self.created_at,
            updated_at: self.updated_at,
            client_ip: db::copy_opt(&self.client_ip),
            src_host: db::copy_opt(&self.src_host),
            src_url: db::copy_opt(&self.src_url),
            order_type: self.order_type.clone(),
            plan_id: db::copy_opt(&self.plan_id),
            subscription_group_id: self.subscription_group_id,
            subscription_days: self.subscription_days,
            provider_instance_id: db::copy_opt(&self.provider_instance_id),
        }
    }
}

// ---------------------------------------------------------------------------
// Rows
// ---------------------------------------------------------------------------
pub open spec fn order_columns() -> Seq<Column> {
    seq![
        Column::Text,
        Column::Int,
        Column::OptText,
        Column::OptText,
        Column::OptText,
        Column::Int,
        Column::OptInt,
        Column::OptInt,
        Column::Text,
        Column::Text,
        Column::Text,
        Column::OptText,
        Column::OptText,
        Column::OptText,
        Column::OptInt,
        Column::OptText,
        Column::OptInt,
        Column::Flag,
        Column::OptInt,
        Column::OptText,
        Column::OptInt,
        Column::Int,
        Column::OptInt,
        Column::OptInt,
        Column::OptInt,
        Column::OptText,
        Column::Int,
        Column::Int,
        Column::OptText,
        Column::OptText,
        Column::OptText,
        Column::Text,
        Column::OptText,
        Column::OptInt,
        Column::OptInt,
        Column::OptText,
    ]
}

fn order_column_list() -> (r: Vec<Column>)
    ensures
        r@ == order_columns(),
{
    vec![
        Column::Text,
        Column::Int,
        Column::OptText,
        Column::OptText,
        Column::OptText,
        Column::Int,
        Column::OptInt,
        Column::OptInt,
        Column::Text,
        Column::Text,
        Column::Text,
        Column::OptText,
        Column::OptText,
        Column::OptText,
        Column::OptInt,
        Column::OptText,
        Column::OptInt,
        Column::Flag,
        Column::OptInt,
        Column::OptText,
        Column::OptInt,
        Column::Int,
        Column::OptInt,
        Column::OptInt,
        Column::OptInt,
        Column::OptText,
        Column::Int,
        Column::Int,
        Column::OptText,
        Column::OptText,
        Column::OptText,
        Column::Text,
        Column::OptText,
        Column::OptInt,
        Column::OptInt,
        Column::OptText,
    ]
}

/// The record `o` is what the row `row` holds.
pub open spec fn order_row_reads(row: Seq<SqlValue>, o: OrderRecord) -> bool {
    &&& db::sql_text(row[0]) == Ok::<Seq<char>, Seq<char>>(o.id@)
    &&& db::sql_int(row[1]) == Ok::<int, Seq<char>>(o.user_id as int)
    &&& db::opt_text_is(row[2], o.user_email)
    &&& db::opt_text_is(row[3], o.user_name)
    &&& db::opt_text_is(row[4], o.user_notes)
    &&& db::sql_int(row[5]) == Ok::<int, Seq<char>>(o.amount_cents as int)
    &&& db::opt_int_is(row[6], o.pay_amount_cents)
    &&& db::opt_int_is(row[7], o.fee_rate_bps)
    &&& db::sql_text(row[8]) == Ok::<Seq<char>, Seq<char>>(o.recharge_code@)
    &&& db::sql_text(row[9]) == Ok::<Seq<char>, Seq<char>>(o.status@)
    &&& db::sql_text(row[10]) == Ok::<Seq<char>, Seq<char>>(o.payment_type@)
    &&& db::opt_text_is(row[11], o.payment_trade_no)
    &&& db::opt_text_is(row[12], o.pay_url)
    &&& db::opt_text_is(row[13], o.qr_code)
    &&& db::opt_int_is(row[14], o.refund_amount_cents)
    &&& db::opt_text_is(row[15], o.refund_reason)
    &&& db::opt_int_is(row[16], o.refund_at)
    &&& db::sql_flag(row[17]) == Ok::<bool, Seq<char>>(o.force_refund)
    &&& db::opt_int_is(row[18], o.refund_requested_at)
    &&& db::opt_text_is(row[19], o.refund_request_reason)
    &&& db::opt_int_is(row[20], o.refund_requested_by)
    &&& db::sql_int(row[21]) == Ok::<int, Seq<char>>(o.expires_at as int)
    &&& db::opt_int_is(row[22], o.paid_at)
    &&& db::opt_int_is(row[23], o.completed_at)
    &&& db::opt_int_is(row[24], o.failed_at)
    &&& db::opt_text_is(row[25], o.failed_reason)
    &&& db::sql_int(row[26]) == Ok::<int, Seq<char>>(o.created_at as int)
    &&& db::sql_int(row[27]) == Ok::<int, Seq<char>>(o.updated_at as int)
    &&& db::opt_text_is(row[28], o.client_ip)
    &&& db::opt_text_is(row[29], o.src_host)
    &&& db::opt_text_is(row[30], o.src_url)
    &&& db::sql_text(row[31]) == Ok::<Seq<char>, Seq<char>>(o.order_type@)
    &&& db::opt_text_is(row[32], o.plan_id)
    &&& db::opt_int_is(row[33], o.subscription_group_id)
    &&& db::opt_int_is(row[34], o.subscription_days)
    &&& db::opt_text_is(row[35], o.provider_instance_id)
}

/// Reads one row of the order table. A row that does not fit the columns is
/// refused for its first column that does not.
pub fn parse_order_row(row: &Vec<SqlValue>) -> (r: Result<OrderRecord, String>)
    ensures
        match r {
            Ok(o) => db::row_error(row@, order_columns()) is None && order_row_reads(row@, o),
            Err(e) => db::row_error(row@, order_columns()) == Some(e@),
        },
{
    let columns = order_column_list();
    if let Some(e) = db::check_row(row, &columns) {
        return Err(e);
    }
    proof {
        db::lemma_row_fits(row@, order_columns());
    }
    Ok(
        OrderRecord {
            id: db::text_in(&row[0]),
            user_id: db::int_in(&row[1]),
            user_email: db::opt_text_in(&row[2]),
            user_name: db::opt_text_in(&row[3]),
            user_notes: db::opt_text_in(&row[4]),
            amount_cents: db::int_in(&row[5]),
            pay_amount_cents: db::opt_int_in(&row[6]),
            fee_rate_bps: db::opt_int_in(&row[7]),
            recharge_code: db::text_in(&row[8]),
            status: db::text_in(&row[9]),
            payment_type: db::text_in(&row[10]),
            payment_trade_no: db::opt_text_in(&row[11]),
            pay_url: db::opt_text_in(&row[12]),
            qr_code: db::opt_text_in(&row[13]),
            refund_amount_cents: db::opt_int_in(&row[14]),
            refund_reason: db::opt_text_in(&row[15]),
            refund_at: db::opt_int_in(&row[16]),
            force_refund: db::flag_in(&row[17]),
            refund_requested_at: db::opt_int_in(&row[18]),
            refund_request_reason: db::opt_text_in(&row[19]),
            refund_requested_by: db::opt_int_in(&row[20]),
            expires_at: db::int_in(&row[21]),
            paid_at: db::opt_int_in(&row[22]),
            completed_at: db::opt_int_in(&row[23]),
            failed_at: db::opt_int_in(&row[24]),
            failed_reason: db::opt_text_in(&row[25]),
            created_at: db::int_in(&row[26]),
            updated_at: db::int_in(&row[27]),
            client_ip: db::opt_text_in(&row[28]),
            src_host: db::opt_text_in(&row[29]),
            src_url: db::opt_text_in(&row[30]),
            order_type: db::text_in(&row[31]),
            plan_id: db::opt_text_in(&row[32]),
            subscription_group_id: db::opt_int_in(&row[33]),
            subscription_days: db::opt_int_in(&row[34]),
            provider_instance_id: db::opt_text_in(&row[35]),
        },
    )
}

/// The row `row` stores the record `o`.
pub open spec fn order_row_stores(row: Seq<SqlValue>, o: OrderRecord) -> bool {
    &&& row.len() == 36
    &&& db::is_text(row[0], o.id@)
    &&& row[1] == SqlValue::Integer(o.user_id)
    &&& db::is_opt_text(row[2], db::opt_text(o.user_email))
    &&& db::is_opt_text(row[3], db::opt_text(o.user_name))
    &&& db::is_opt_text(row[4], db::opt_text(o.user_notes))
    &&& row[5] == SqlValue::Integer(o.amount_cents)
    &&& row[6] == db::opt_int_value(o.pay_amount_cents)
    &&& row[7] == db::opt_int_value(o.fee_rate_bps)
    &&& db::is_text(row[8], o.recharge_code@)
    &&& db::is_text(row[9], o.status@)
    &&& db::is_text(row[10], o.payment_type@)
    &&& db::is_opt_text(row[11], db::opt_text(o.payment_trade_no))
    &&& db::is_opt_text(row[12], db::opt_text(o.pay_url))
    &&& db::is_opt_text(row[13], db::opt_text(o.qr_code))
    &&& row[14] == db::opt_int_value(o.refund_amount_cents)
    &&& db::is_opt_text(row[15], db::opt_text(o.refund_reason))
    &&& row[16] == db::opt_int_value(o.refund_at)
    &&& row[17] == db::flag_value(o.force_refund)
    &&& row[18] == db::opt_int_value(o.refund_requested_at)
    &&& db::is_opt_text(row[19], db::opt_text(o.refund_request_reason))
    &&& row[20] == db::opt_int_value(o.refund_requested_by)
    &&& row[21] == SqlValue::Integer(o.expires_at)
    &&& row[22] == db::opt_int_value(o.paid_at)
    &&& row[23] == db::opt_int_value(o.completed_at)
    &&& row[24] == db::opt_int_value(o.failed_at)
    &&& db::is_opt_text(row[25], db::opt_text(o.failed_reason))
    &&& row[26] == SqlValue::Integer(o.created_at)
    &&& row[27] == SqlValue::Integer(o.updated_at)
    &&& db::is_opt_text(row[28], db::opt_text(o.client_ip))
    &&& db::is_opt_text(row[29], db::opt_text(o.src_host))
    &&& db::is_opt_text(row[30], db::opt_text(o.src_url))
    &&& db::is_text(row[31], o.order_type@)
    &&& db::is_opt_text(row[32], db::opt_text(o.plan_id))
    &&& row[33] == db::opt_int_value(o.subscription_group_id)
    &&& row[34] == db::opt_int_value(o.subscription_days)
    &&& db::is_opt_text(row[35], db::opt_text(o.provider_instance_id))
}

/// The row that stores the order.
pub fn order_row(o: &OrderRecord) -> (r: Vec<SqlValue>)
    ensures
        order_row_stores(r@, *o),
{
    vec![
        db::text_value(o.id.as_str()),
        SqlValue::Integer(o.user_id),
        db::opt_text_value(&o.user_email),
        db::opt_text_value(&o.user_name),
        db::opt_text_value(&o.user_notes),
        SqlValue::Integer(o.amount_cents),
        db::write_opt_int(o.pay_amount_cents),
        db::write_opt_int(o.fee_rate_bps),
        db::text_value(o.recharge_code.as_str()),
        db::text_value(o.status.as_str()),
        db::text_value(o.payment_type.as_str()),
        db::opt_text_value(&o.payment_trade_no),
        db::opt_text_value(&o.pay_url),
        db::opt_text_value(&o.qr_code),
        db::write_opt_int(o.refund_amount_cents),
        db::opt_text_value(&o.refund_reason),
        db::write_opt_int(o.refund_at),
        db::write_flag(o.force_refund),
        db::write_opt_int(o.refund_requested_at),
        db::opt_text_value(&o.refund_request_reason),
        db::write_opt_int(o.refund_requested_by),
        SqlValue::Integer(o.expires_at),
        db::write_opt_int(o.paid_at),
        db::write_opt_int(o.completed_at),
        db::write_opt_int(o.failed_at),
        db::opt_text_value(&o.failed_reason),
        SqlValue::Integer(o.created_at),
        SqlValue::Integer(o.updated_at),
        db::opt_text_value(&o.client_ip),
        db::opt_text_value(&o.src_host),
        db::opt_text_value(&o.src_url),
        db::text_value(o.order_type.as_str()),
        db::opt_text_value(&o.plan_id),
        db::write_opt_int(o.subscription_group_id),
        db::write_opt_int(o.subscription_days),
        db::opt_text_value(&o.provider_instance_id),
    ]
}

/// Two records that hold the same contents.
pub open spec fn same_order(a: OrderRecord, b: OrderRecord) -> bool {
    &&& a.id@ == b.id@
    &&& a.user_id == b.user_id
    &&& db::opt_text(a.user_email) == db::opt_text(b.user_email)
    &&& db::opt_text(a.user_name) == db::opt_text(b.user_name)
    &&& db::opt_text(a.user_notes) == db::opt_text(b.user_notes)
    &&& a.amount_cents == b.amount_cents
    &&& a.pay_amount_cents == b.pay_amount_cents
    &&& a.fee_rate_bps == b.fee_rate_bps
    &&& a.recharge_code@ == b.recharge_code@
    &&& a.status@ == b.status@
    &&& a.payment_type@ == b.payment_type@
    &&& db::opt_text(a.payment_trade_no) == db::opt_text(b.payment_trade_no)
    &&& db::opt_text(a.pay_url) == db::opt_text(b.pay_url)
    &&& db::opt_text(a.qr_code) == db::opt_text(b.qr_code)
    &&& a.refund_amount_cents == b.refund_amount_cents
    &&& db::opt_text(a.refund_reason) == db::opt_text(b.refund_reason)
    &&& a.refund_at == b.refund_at
    &&& a.force_refund == b.force_refund
    &&& a.refund_requested_at == b.refund_requested_at
    &&& db::opt_text(a.refund_request_reason) == db::opt_text(b.refund_request_reason)
    &&& a.refund_requested_by == b.refund_requested_by
    &&& a.expires_at == b.expires_at
    &&& a.paid_at == b.paid_at
    &&& a.completed_at == b.completed_at
    &&& a.failed_at == b.failed_at
    &&& db::opt_text(a.failed_reason) == db::opt_text(b.failed_reason)
    &&& a.created_at == b.created_at
    &&& a.updated_at == b.updated_at
    &&& db::opt_text(a.client_ip) == db::opt_text(b.client_ip)
    &&& db::opt_text(a.src_host) == db::opt_text(b.src_host)
    &&& db::opt_text(a.src_url) == db::opt_text(b.src_url)
    &&& a.order_type@ == b.order_type@
    &&& db::opt_text(a.plan_id) == db::opt_text(b.plan_id)
    &&& a.subscription_group_id == b.subscription_group_id
    &&& a.subscription_days == b.subscription_days
    &&& db::opt_text(a.provider_instance_id) == db::opt_text(b.provider_instance_id)
}

/// What is read from the row that stores an order is that order.
pub proof fn law_stored_order_reads_back(row: Seq<SqlValue>, a: OrderRecord, b: OrderRecord)
    requires
        order_row_stores(row, a),
    ensures
        db::row_error(row, order_columns()) is None,
        order_row_reads(row, b) ==> same_order(a, b),
{
    assert forall|i: int| 0 <= i < 36 implies db::column_error(
        order_columns()[i],
        #[trigger] row[i],
    ) is None by {
        lemma_stored_column_fits(row, a, i);
    }
    db::lemma_row_fits_converse(row, order_columns());
}

proof fn lemma_stored_column_fits(row: Seq<SqlValue>, a: OrderRecord, i: int)
    requires
        order_row_stores(row, a),
        0 <= i < 36,
    ensures
        db::column_error(order_columns()[i], row[i]) is None,
{
}
// ---------------------------------------------------------------------------
// Changes of state
// ---------------------------------------------------------------------------
/// The statuses that may follow each status.
pub open spec fn may_follow(from: Seq<char>, to: Seq<char>) -> bool {
    ||| from == OrderStatus::Pending.name() && (to == OrderStatus::Expired.name() || to
        == OrderStatus::Cancelled.name() || to == OrderStatus::Paid.name())
    ||| from == OrderStatus::Expired.name() && to == OrderStatus::Paid.name()
    ||| (from == OrderStatus::Paid.name() || from == OrderStatus::Failed.name()) && (to
        == OrderStatus::Recharging.name() || to == OrderStatus::Paid.name() || to
        == OrderStatus::Completed.name())
    ||| from == OrderStatus::Recharging.name() && (to == OrderStatus::Completed.name() || to
        == OrderStatus::Failed.name())
    ||| from == OrderStatus::Completed.name() && (to == OrderStatus::RefundRequested.name() || to
        == OrderStatus::Refunding.name())
    ||| from == OrderStatus::RefundRequested.name() && to == OrderStatus::Refunding.name()
    ||| from == OrderStatus::RefundFailed.name() && to == OrderStatus::Refunding.name()
    ||| from == OrderStatus::Refunding.name() && (to == OrderStatus::Completed.name() || to
        == OrderStatus::RefundRequested.name() || to == OrderStatus::RefundFailed.name() || to
        == OrderStatus::Refunded.name() || to == OrderStatus::PartiallyRefunded.name())
}

/// What no change of state touches: who ordered what, for how much, and under
/// which code it is credited. An order once paid stays paid.
pub open spec fn keeps_identity(o: OrderRecord, n: OrderRecord) -> bool {
    &&& n.id == o.id
    &&& n.user_id == o.user_id
    &&& n.amount_cents == o.amount_cents
    &&& n.fee_rate_bps == o.fee_rate_bps
    &&& n.recharge_code == o.recharge_code
    &&& n.payment_type == o.payment_type
    &&& n.order_type == o.order_type
    &&& n.plan_id == o.plan_id
    &&& n.subscription_group_id == o.subscription_group_id
    &&& n.subscription_days == o.subscription_days
    &&& n.provider_instance_id == o.provider_instance_id
    &&& n.expires_at == o.expires_at
    &&& n.created_at == o.created_at
    &&& o.paid_at is Some ==> n.paid_at is Some
}

pub open spec fn closed_as(o: OrderRecord, n: OrderRecord, status: Seq<char>, now: i64) -> bool {
    &&& n.status@ == status
    &&& n == (OrderRecord { status: n.status, updated_at: now, ..o })
}

pub open spec fn payable(o: OrderRecord, grace_updated_at_gte: int) -> bool {
    ||| o.status@ == OrderStatus::Pending.name()
    ||| o.status@ == OrderStatus::Expired.name() && o.updated_at >= grace_updated_at_gte
}

pub open spec fn paid_as(o: OrderRecord, n: OrderRecord, input: MarkPaidInput, now: i64) -> bool {
    &&& n.status@ == OrderStatus::Paid.name()
    &&& db::opt_text(n.payment_trade_no) == Some(input.trade_no@)
    &&& n == (OrderRecord {
        status: n.status,
        pay_amount_cents: Some(input.paid_amount_cents),
        payment_trade_no: n.payment_trade_no,
        paid_at: Some(input.paid_at),
        failed_at: None,
        failed_reason: None,
        updated_at: now,
        ..o
    })
}

pub open spec fn refundable_status(status: Seq<char>) -> bool {
    ||| status == OrderStatus::Completed.name()
    ||| status == OrderStatus::RefundRequested.name()
    ||| status == OrderStatus::RefundFailed.name()
}

/// Whether the order can be refunded in its current status.
pub fn is_refundable_status(status: &str) -> (r: bool)
    ensures
        r == refundable_status(status@),
{
    is_status(status, OrderStatus::Completed) || is_status(status, OrderStatus::RefundRequested)
        || is_status(status, OrderStatus::RefundFailed)
}

/// What each change of an order comes to: when it takes place, and what it leaves.
pub open spec fn closing(
    o: OrderRecord,
    n: OrderRecord,
    changed: bool,
    status: Seq<char>,
    now: i64,
) -> bool {
    &&& changed == (o.status@ == OrderStatus::Pending.name())
    &&& changed ==> closed_as(o, n, status, now)
    &&& !changed ==> n == o
}

pub open spec fn paying(
    o: OrderRecord,
    n: OrderRecord,
    changed: bool,
    input: MarkPaidInput,
    now: i64,
) -> bool {
    &&& changed == (o.id@ == input.order_id@ && payable(o, input.grace_updated_at_gte as int))
    &&& changed ==> paid_as(o, n, input, now)
    &&& !changed ==> n == o
}

pub open spec fn claiming(o: OrderRecord, n: OrderRecord, changed: bool, now: i64) -> bool {
    &&& changed == (o.status@ == OrderStatus::Paid.name() || o.status@
        == OrderStatus::Failed.name())
    &&& changed ==> closed_as(o, n, OrderStatus::Recharging.name(), now)
    &&& !changed ==> n == o
}

pub open spec fn resetting(o: OrderRecord, n: OrderRecord, changed: bool, now: i64) -> bool {
    &&& changed == ((o.status@ == OrderStatus::Paid.name() || o.status@
        == OrderStatus::Failed.name()) && o.paid_at is Some)
    &&& changed ==> n.status@ == OrderStatus::Paid.name() && n == (OrderRecord {
        status: n.status,
        failed_at: None,
        failed_reason: None,
        updated_at: now,
        ..o
    })
    &&& !changed ==> n == o
}

pub open spec fn asking_back(
    o: OrderRecord,
    n: OrderRecord,
    changed: bool,
    input: MarkRefundRequestedInput,
    now: i64,
) -> bool {
    &&& changed == (o.id@ == input.order_id@ && o.user_id == input.user_id && o.status@
        == OrderStatus::Completed.name() && o.order_type@ == "balance"@)
    &&& changed ==> n.status@ == OrderStatus::RefundRequested.name() && n == (OrderRecord {
        status: n.status,
        refund_requested_at: Some(input.refund_requested_at),
        refund_request_reason: input.refund_request_reason,
        refund_requested_by: Some(input.refund_requested_by),
        refund_amount_cents: Some(input.refund_amount_cents),
        updated_at: now,
        ..o
    })
    &&& !changed ==> n == o
}

pub open spec fn claiming_refund(o: OrderRecord, n: OrderRecord, changed: bool, now: i64) -> bool {
    &&& changed == refundable_status(o.status@)
    &&& changed ==> closed_as(o, n, OrderStatus::Refunding.name(), now)
    &&& !changed ==> n == o
}

pub open spec fn restoring(
    o: OrderRecord,
    n: OrderRecord,
    changed: bool,
    status: Seq<char>,
    now: i64,
) -> bool {
    &&& changed == (o.status@ == OrderStatus::Refunding.name())
    &&& changed ==> n.status@ == status && n == (OrderRecord {
        status: n.status,
        failed_at: None,
        failed_reason: None,
        updated_at: now,
        ..o
    })
    &&& !changed ==> n == o
}

/// A claim ends as failed: that of a refund, or that of a crediting.
pub open spec fn failing(
    o: OrderRecord,
    n: OrderRecord,
    changed: bool,
    claim: OrderStatus,
    end: OrderStatus,
    reason: Seq<char>,
    failed_at: i64,
    now: i64,
) -> bool {
    &&& changed == (o.status@ == claim.name())
    &&& changed ==> n.status@ == end.name() && db::opt_text(n.failed_reason) == Some(reason) && n
        == (OrderRecord {
        status: n.status,
        failed_at: Some(failed_at),
        failed_reason: n.failed_reason,
        updated_at: now,
        ..o
    })
    &&& !changed ==> n == o
}

pub open spec fn refunding(
    o: OrderRecord,
    n: OrderRecord,
    changed: bool,
    input: MarkRefundedInput,
    now: i64,
) -> bool {
    &&& changed == (o.id@ == input.order_id@ && o.status@ == OrderStatus::Refunding.name())
    &&& changed ==> n.status@ == input.status@ && db::opt_text(n.refund_reason) == Some(
        input.refund_reason@,
    ) && n == (OrderRecord {
        status: n.status,
        refund_amount_cents: Some(input.refund_amount_cents),
        refund_reason: n.refund_reason,
        refund_at: Some(input.refund_at),
        force_refund: input.force_refund,
        failed_at: None,
        failed_reason: None,
        updated_at: now,
        ..o
    })
    &&& !changed ==> n == o
}

pub open spec fn completing(
    o: OrderRecord,
    n: OrderRecord,
    changed: bool,
    completed_at: i64,
    now: i64,
) -> bool {
    &&& changed == (o.status@ == OrderStatus::Recharging.name() || o.status@
        == OrderStatus::Paid.name() || o.status@ == OrderStatus::Failed.name())
    &&& changed ==> n.status@ == OrderStatus::Completed.name() && n == (OrderRecord {
        status: n.status,
        completed_at: Some(completed_at),
        failed_at: None,
        failed_reason: None,
        updated_at: now,
        ..o
    })
    &&& !changed ==> n == o
}

impl OrderRecord {
    /// Closes an order that still awaits payment under another status.
    pub fn mark_status_if_pending(&mut self, status: &str, now: i64) -> (changed: bool)
        ensures
            changed == (old(self).status@ == OrderStatus::Pending.name()),
            changed ==> closed_as(*old(self), *final(self), status@, now) && keeps_identity(
                *old(self),
                *final(self),
            ),
            !changed ==> *final(self) == *old(self),
            closing(*old(self), *final(self), changed, status@, now),
    {
        if !is_status(self.status.as_str(), OrderStatus::Pending) {
            return false;
        }
        self.status = status.to_owned();
        self.updated_at = now;
        true
    }

    /// Takes the payment of an order that awaits it, or that expired no longer ago
    /// than the grace time allows.
    pub fn mark_paid_if_pending_or_recent_expired(
        &mut self,
        input: &MarkPaidInput,
        now: i64,
    ) -> (changed: bool)
        ensures
            changed == (old(self).id@ == input.order_id@ && payable(
                *old(self),
                input.grace_updated_at_gte as int,
            )),
            changed ==> paid_as(*old(self), *final(self), *input, now) && keeps_identity(
                *old(self),
                *final(self),
            ) && may_follow(old(self).status@, final(self).status@),
            !changed ==> *final(self) == *old(self),
            paying(*old(self), *final(self), changed, *input, now),
    {
        if !text::same(self.id.as_str(), input.order_id.as_str()) {
            return false;
        }
        let open = is_status(self.status.as_str(), OrderStatus::Pending) || (is_status(
            self.status.as_str(),
            OrderStatus::Expired,
        ) && self.updated_at >= input.grace_updated_at_gte);
        if !open {
            return false;
        }
        self.status = OrderStatus::Paid.as_str().to_owned();
        self.pay_amount_cents = Some(input.paid_amount_cents);
        self.payment_trade_no = Some(input.trade_no.clone());
        self.paid_at = Some(input.paid_at);
        self.failed_at = None;
        self.failed_reason = None;
        self.updated_at = now;
        true
    }

    /// Claims a paid or failed order for crediting. Only one claim can win.
    pub fn mark_recharging_if_paid_or_failed(&mut self, now: i64) -> (changed: bool)
        ensures
            changed == (old(self).status@ == OrderStatus::Paid.name() || old(self).status@
                == OrderStatus::Failed.name()),
            changed ==> closed_as(
                *old(self),
                *final(self),
                OrderStatus::Recharging.name(),
                now,
            ) && keeps_identity(*old(self), *final(self)) && may_follow(
                old(self).status@,
                final(self).status@,
            ),
            !changed ==> *final(self) == *old(self),
            claiming(*old(self), *final(self), changed, now),
    {
        if !is_status(self.status.as_str(), OrderStatus::Paid) && !is_status(
            self.status.as_str(),
            OrderStatus::Failed,
        ) {
            return false;
        }
        self.status = OrderStatus::Recharging.as_str().to_owned();
        self.updated_at = now;
        true
    }

    /// Puts a paid order whose crediting failed, or never began, back to paid.
    pub fn reset_to_paid_if_retryable(&mut self, now: i64) -> (changed: bool)
        ensures
            changed == ((old(self).status@ == OrderStatus::Paid.name() || old(self).status@
                == OrderStatus::Failed.name()) && old(self).paid_at is Some),
            changed ==> final(self).status@ == OrderStatus::Paid.name() && *final(self) == (
            OrderRecord {
                status: final(self).status,
                failed_at: None,
                failed_reason: None,
                updated_at: now,
                ..*old(self)
            }) && keeps_identity(*old(self), *final(self)) && may_follow(
                old(self).status@,
                final(self).status@,
            ),
            !changed ==> *final(self) == *old(self),
            resetting(*old(self), *final(self), changed, now),
    {
        let state_fits = is_status(self.status.as_str(), OrderStatus::Paid) || is_status(
            self.status.as_str(),
            OrderStatus::Failed,
        );
        if !state_fits || self.paid_at.is_none() {
            return false;
        }
        self.status = OrderStatus::Paid.as_str().to_owned();
        self.failed_at = None;
        self.failed_reason = None;
        self.updated_at = now;
        true
    }

    /// Notes that the buyer of a completed balance order asks for a refund.
    pub fn mark_refund_requested(
        &mut self,
        input: &MarkRefundRequestedInput,
        now: i64,
    ) -> (changed: bool)
        ensures
            changed == (old(self).id@ == input.order_id@ && old(self).user_id == input.user_id
                && old(self).status@ == OrderStatus::Completed.name() && old(self).order_type@
                == "balance"@),
            changed ==> final(self).status@ == OrderStatus::RefundRequested.name() && *final(self)
                == (OrderRecord {
                status: final(self).status,
                refund_requested_at: Some(input.refund_requested_at),
                refund_request_reason: input.refund_request_reason,
                refund_requested_by: Some(input.refund_requested_by),
                refund_amount_cents: Some(input.refund_amount_cents),
                updated_at: now,
                ..*old(self)
            }) && keeps_identity(*old(self), *final(self)) && may_follow(
                old(self).status@,
                final(self).status@,
            ),
            !changed ==> *final(self) == *old(self),
            asking_back(*old(self), *final(self), changed, *input, now),
    {
        if !text::same(self.id.as_str(), input.order_id.as_str()) || self.user_id != input.user_id
            || !is_status(self.status.as_str(), OrderStatus::Completed) || !text::same(
            self.order_type.as_str(),
            "balance",
        ) {
            return false;
        }
        self.status = OrderStatus::RefundRequested.as_str().to_owned();
        self.refund_requested_at = Some(input.refund_requested_at);
        self.refund_request_reason = db::copy_opt(&input.refund_request_reason);
        self.refund_requested_by = Some(input.refund_requested_by);
        self.refund_amount_cents = Some(input.refund_amount_cents);
        self.updated_at = now;
        true
    }

    /// Claims a refundable order for its refund. Only one claim can win.
    pub fn mark_refunding_if_refundable(&mut self, now: i64) -> (changed: bool)
        ensures
            changed == refundable_status(old(self).status@),
            changed ==> closed_as(
                *old(self),
                *final(self),
                OrderStatus::Refunding.name(),
                now,
            ) && keeps_identity(*old(self), *final(self)) && may_follow(
                old(self).status@,
                final(self).status@,
            ),
            !changed ==> *final(self) == *old(self),
            claiming_refund(*old(self), *final(self), changed, now),
    {
        if !is_refundable_status(self.status.as_str()) {
            return false;
        }
        self.status = OrderStatus::Refunding.as_str().to_owned();
        self.updated_at = now;
        true
    }

    /// Gives a refund up that the gateway refused: the order returns to the given
    /// status.
    pub fn restore_after_refund_gateway_failure(
        &mut self,
        restore_status: &str,
        now: i64,
    ) -> (changed: bool)
        ensures
            changed == (old(self).status@ == OrderStatus::Refunding.name()),
            changed ==> final(self).status@ == restore_status@ && *final(self) == (OrderRecord {
                status: final(self).status,
                failed_at: None,
                failed_reason: None,
                updated_at: now,
                ..*old(self)
            }) && keeps_identity(*old(self), *final(self)),
            !changed ==> *final(self) == *old(self),
            restoring(*old(self), *final(self), changed, restore_status@, now),
    {
        if !is_status(self.status.as_str(), OrderStatus::Refunding) {
            return false;
        }
        self.status = restore_status.to_owned();
        self.failed_at = None;
        self.failed_reason = None;
        self.updated_at = now;
        true
    }

    /// Ends a refund that failed, with the reason.
    pub fn mark_refund_failed(
        &mut self,
        failed_reason: &str,
        failed_at: i64,
        now: i64,
    ) -> (changed: bool)
        ensures
            changed == (old(self).status@ == OrderStatus::Refunding.name()),
            changed ==> final(self).status@ == OrderStatus::RefundFailed.name() && db::opt_text(
                final(self).failed_reason,
            ) == Some(failed_reason@) && *final(self) == (OrderRecord {
                status: final(self).status,
                failed_at: Some(failed_at),
                failed_reason: final(self).failed_reason,
                updated_at: now,
                ..*old(self)
            }) && keeps_identity(*old(self), *final(self)) && may_follow(
                old(self).status@,
                final(self).status@,
            ),
            !changed ==> *final(self) == *old(self),
            failing(
                *old(self),
                *final(self),
                changed,
                OrderStatus::Refunding,
                OrderStatus::RefundFailed,
                failed_reason@,
                failed_at,
                now,
            ),
    {
        if !is_status(self.status.as_str(), OrderStatus::Refunding) {
            return false;
        }
        self.status = OrderStatus::RefundFailed.as_str().to_owned();
        self.failed_at = Some(failed_at);
        self.failed_reason = Some(failed_reason.to_owned());
        self.updated_at = now;
        true
    }

    /// Ends a refund that went through.
    pub fn mark_refunded(&mut self, input: &MarkRefundedInput, now: i64) -> (changed: bool)
        ensures
            changed == (old(self).id@ == input.order_id@ && old(self).status@
                == OrderStatus::Refunding.name()),
            changed ==> final(self).status@ == input.status@ && db::opt_text(
                final(self).refund_reason,
            ) == Some(input.refund_reason@) && *final(self) == (OrderRecord {
                status: final(self).status,
                refund_amount_cents: Some(input.refund_amount_cents),
                refund_reason: final(self).refund_reason,
                refund_at: Some(input.refund_at),
                force_refund: input.force_refund,
                failed_at: None,
                failed_reason: None,
                updated_at: now,
                ..*old(self)
            }) && keeps_identity(*old(self), *final(self)),
            !changed ==> *final(self) == *old(self),
            refunding(*old(self), *final(self), changed, *input, now),
    {
        if !text::same(self.id.as_str(), input.order_id.as_str()) || !is_status(
            self.status.as_str(),
            OrderStatus::Refunding,
        ) {
            return false;
        }
        self.status = input.status.clone();
        self.refund_amount_cents = Some(input.refund_amount_cents);
        self.refund_reason = Some(input.refund_reason.clone());
        self.refund_at = Some(input.refund_at);
        self.force_refund = input.force_refund;
        self.failed_at = None;
        self.failed_reason = None;
        self.updated_at = now;
        true
    }

    /// Ends the crediting of an order that went through.
    pub fn mark_completed_after_fulfillment(
        &mut self,
        completed_at: i64,
        now: i64,
    ) -> (changed: bool)
        ensures
            changed == (old(self).status@ == OrderStatus::Recharging.name() || old(self).status@
                == OrderStatus::Paid.name() || old(self).status@ == OrderStatus::Failed.name()),
            changed ==> final(self).status@ == OrderStatus::Completed.name() && *final(self) == (
            OrderRecord {
                status: final(self).status,
                completed_at: Some(completed_at),
                failed_at: None,
                failed_reason: None,
                updated_at: now,
                ..*old(self)
            }) && keeps_identity(*old(self), *final(self)) && may_follow(
                old(self).status@,
                final(self).status@,
            ),
            !changed ==> *final(self) == *old(self),
            completing(*old(self), *final(self), changed, completed_at, now),
    {
        if !is_status(self.status.as_str(), OrderStatus::Recharging) && !is_status(
            self.status.as_str(),
            OrderStatus::Paid,
        ) && !is_status(self.status.as_str(), OrderStatus::Failed) {
            return false;
        }
        self.status = OrderStatus::Completed.as_str().to_owned();
        self.completed_at = Some(completed_at);
        self.failed_at = None;
        self.failed_reason = None;
        self.updated_at = now;
        true
    }

    /// Ends the crediting of an order that failed, with the reason.
    pub fn mark_failed_if_recharging(
        &mut self,
        failed_reason: &str,
        failed_at: i64,
        now: i64,
    ) -> (changed: bool)
        ensures
            changed == (old(self).status@ == OrderStatus::Recharging.name()),
            changed ==> final(self).status@ == OrderStatus::Failed.name() && db::opt_text(
                final(self).failed_reason,
            ) == Some(failed_reason@) && *final(self) == (OrderRecord {
                status: final(self).status,
                failed_at: Some(failed_at),
                failed_reason: final(self).failed_reason,
                updated_at: now,
                ..*old(self)
            }) && keeps_identity(*old(self), *final(self)) && may_follow(
                old(self).status@,
                final(self).status@,
            ),
            !changed ==> *final(self) == *old(self),
            failing(
                *old(self),
                *final(self),
                changed,
                OrderStatus::Recharging,
                OrderStatus::Failed,
                failed_reason@,
                failed_at,
                now,
            ),
    {
        if !is_status(self.status.as_str(), OrderStatus::Recharging) {
            return false;
        }
        self.status = OrderStatus::Failed.as_str().to_owned();
        self.failed_at = Some(failed_at);
        self.failed_reason = Some(failed_reason.to_owned());
        self.updated_at = now;
        true
    }

    /// Notes under which number and links the payment was created.
    pub fn set_payment_details(
        &mut self,
        trade_no: &str,
        pay_url: &Option<String>,
        qr_code: &Option<String>,
        now: i64,
    )
        ensures
            db::opt_text(final(self).payment_trade_no) == Some(trade_no@),
            *final(self) == (OrderRecord {
                payment_trade_no: final(self).payment_trade_no,
                pay_url: *pay_url,
                qr_code: *qr_code,
                updated_at: now,
                ..*old(self)
            }),
            keeps_identity(*old(self), *final(self)),
    {
        self.payment_trade_no = Some(trade_no.to_owned());
        self.pay_url = db::copy_opt(pay_url);
        self.qr_code = db::copy_opt(qr_code);
        self.updated_at = now;
    }
}

impl NewPendingOrder {
    /// The order as it enters the table.
    pub fn into_record(self, id: String, recharge_code: String, now: i64) -> (r: OrderRecord)
        ensures
            r == (OrderRecord {
                id,
                user_id: self.user_id,
                user_email: None,
                user_name: None,
                user_notes: None,
                amount_cents: self.amount_cents,
                pay_amount_cents: self.pay_amount_cents,
                fee_rate_bps: self.fee_rate_bps,
                recharge_code,
                status: self.status,
                payment_type: self.payment_type,
                payment_trade_no: None,
                pay_url: None,
                qr_code: None,
                refund_amount_cents: None,
                refund_reason: None,
                refund_at: None,
                force_refund: false,
                refund_requested_at: None,
                refund_request_reason: None,
                refund_requested_by: None,
                expires_at: self.expires_at,
                paid_at: None,
                completed_at: None,
                failed_at: None,
                failed_reason: None,
                created_at: now,
                updated_at: now,
                client_ip: None,
                src_host: None,
                src_url: None,
                order_type: self.order_type,
                plan_id: self.plan_id,
                subscription_group_id: self.subscription_group_id,
                subscription_days: self.subscription_days,
                provider_instance_id: self.provider_instance_id,
            }),
    {
        OrderRecord {
            id,
            user_id: self.user_id,
            user_email: None,
            user_name: None,
            user_notes: None,
            amount_cents: self.amount_cents,
            pay_amount_cents: self.pay_amount_cents,
            fee_rate_bps: self.fee_rate_bps,
            recharge_code,
            status: self.status,
            payment_type: self.payment_type,
            payment_trade_no: None,
            pay_url: None,
            qr_code: None,
            refund_amount_cents: None,
            refund_reason: None,
            refund_at: None,
            force_refund: false,
            refund_requested_at: None,
            refund_request_reason: None,
            refund_requested_by: None,
            expires_at: self.expires_at,
            paid_at: None,
            completed_at: None,
            failed_at: None,
            failed_reason: None,
            created_at: now,
            updated_at: now,
            client_ip: None,
            src_host: None,
            src_url: None,
            order_type: self.order_type,
            plan_id: self.plan_id,
            subscription_group_id: self.subscription_group_id,
            subscription_days: self.subscription_days,
            provider_instance_id: self.provider_instance_id,
        }
    }
}

// ---------------------------------------------------------------------------
// Laws on the changes of state
// ---------------------------------------------------------------------------
/// An order that was cancelled or refunded, in whole or in part, stays so: no
/// status may follow.
pub proof fn law_closed_orders_stay_closed(to: Seq<char>)
    ensures
        !may_follow(OrderStatus::Cancelled.name(), to),
        !may_follow(OrderStatus::Refunded.name(), to),
        !may_follow(OrderStatus::PartiallyRefunded.name(), to),
{
    lemma_names_differ(OrderStatus::Cancelled);
    lemma_names_differ(OrderStatus::Refunded);
    lemma_names_differ(OrderStatus::PartiallyRefunded);
}

/// The name of a status is the name of no other.
pub proof fn lemma_names_differ(s: OrderStatus)
    ensures
        forall|t: OrderStatus| #[trigger] t.name() == s.name() ==> t == s,
{
    assert forall|t: OrderStatus| #[trigger] t.name() == s.name() implies t == s by {
        crate::order::status::law_status_names_distinct(t, s);
    }
}

/// An order that was claimed for crediting cannot be claimed again, nor cancelled,
/// paid or expired, until the claim ends.
pub proof fn law_claimed_order_is_locked(o: OrderRecord, n: OrderRecord, now: i64)
    requires
        closed_as(o, n, OrderStatus::Recharging.name(), now),
    ensures
        n.status@ != OrderStatus::Paid.name(),
        n.status@ != OrderStatus::Failed.name(),
        n.status@ != OrderStatus::Pending.name(),
        forall|since: int| !payable(n, since),
        !refundable_status(n.status@),
{
    lemma_names_differ(OrderStatus::Recharging);
}

/// An order that was claimed for its refund cannot be claimed again, neither for
/// a refund nor for crediting, until the refund ends.
pub proof fn law_refund_claim_is_locked(o: OrderRecord, n: OrderRecord, now: i64)
    requires
        closed_as(o, n, OrderStatus::Refunding.name(), now),
    ensures
        !refundable_status(n.status@),
        n.status@ != OrderStatus::Paid.name(),
        n.status@ != OrderStatus::Failed.name(),
{
    lemma_names_differ(OrderStatus::Refunding);
}

/// A payment is taken at most once: an order that was paid is not payable again.
pub proof fn law_paid_once(o: OrderRecord, n: OrderRecord, input: MarkPaidInput, now: i64)
    requires
        paid_as(o, n, input, now),
    ensures
        forall|since: int| !payable(n, since),
        n.paid_at == Some(input.paid_at),
        n.pay_amount_cents == Some(input.paid_amount_cents),
{
    lemma_names_differ(OrderStatus::Paid);
}

/// Only an order that awaits payment is closed, and nothing of it changes but its status.
pub proof fn law_only_pending_orders_are_closed(
    o: OrderRecord,
    n: OrderRecord,
    changed: bool,
    status: Seq<char>,
    now: i64,
)
    requires
        closing(o, n, changed, status, now),
    ensures
        changed <==> o.status@ == "PENDING"@,
        changed ==> n.status@ == status && n.updated_at == now && unpaid_as_before(o, n),
        !changed ==> n == o,
{
}

/// Who ordered what for how much, what it costs, and when it was paid and credited are as
/// before.
pub open spec fn unpaid_as_before(o: OrderRecord, n: OrderRecord) -> bool {
    &&& n.id == o.id
    &&& n.user_id == o.user_id
    &&& n.amount_cents == o.amount_cents
    &&& n.pay_amount_cents == o.pay_amount_cents
    &&& n.recharge_code == o.recharge_code
    &&& n.order_type == o.order_type
    &&& n.payment_type == o.payment_type
    &&& n.payment_trade_no == o.payment_trade_no
    &&& n.paid_at == o.paid_at
    &&& n.completed_at == o.completed_at
    &&& n.refund_amount_cents == o.refund_amount_cents
    &&& n.expires_at == o.expires_at
    &&& n.created_at == o.created_at
}

/// A payment is taken exactly by the order that it is for, where that awaits payment or
/// expired at the given time or later; the order is then paid with the payment's money, at its
/// time and under its number, and no longer failed.
pub proof fn law_payments_are_taken_by_open_orders(
    o: OrderRecord,
    n: OrderRecord,
    changed: bool,
    input: MarkPaidInput,
    now: i64,
)
    requires
        paying(o, n, changed, input, now),
    ensures
        changed <==> o.id@ == input.order_id@ && (o.status@ == "PENDING"@ || (o.status@
            == "EXPIRED"@ && o.updated_at >= input.grace_updated_at_gte)),
        changed ==> {
            &&& n.status@ == "PAID"@
            &&& n.pay_amount_cents == Some(input.paid_amount_cents)
            &&& n.paid_at == Some(input.paid_at)
            &&& n.payment_trade_no matches Some(t) && t@ == input.trade_no@
            &&& n.failed_at is None && n.failed_reason is None
            &&& n.amount_cents == o.amount_cents && n.user_id == o.user_id && n.id == o.id
            &&& n.completed_at == o.completed_at
        },
        !changed ==> n == o,
{
}

/// Crediting claims exactly an order that is paid or failed, and a second claim finds it
/// taken.
pub proof fn law_one_claim_wins(
    o: OrderRecord,
    n: OrderRecord,
    m: OrderRecord,
    first: bool,
    second: bool,
    now: i64,
    later: i64,
)
    requires
        claiming(o, n, first, now),
        claiming(n, m, second, later),
    ensures
        first <==> o.status@ == "PAID"@ || o.status@ == "FAILED"@,
        first ==> n.status@ == "RECHARGING"@ && unpaid_as_before(o, n),
        !second,
        m == n,
{
    lemma_names_differ(OrderStatus::Recharging);
}

/// An order is put back to paid exactly where it was paid, and is paid or failed now; what it
/// failed for is forgotten.
pub proof fn law_only_paid_orders_are_put_back(
    o: OrderRecord,
    n: OrderRecord,
    changed: bool,
    now: i64,
)
    requires
        resetting(o, n, changed, now),
    ensures
        changed <==> o.paid_at is Some && (o.status@ == "PAID"@ || o.status@ == "FAILED"@),
        changed ==> n.status@ == "PAID"@ && n.failed_at is None && n.failed_reason is None
            && unpaid_as_before(o, n),
        !changed ==> n == o,
{
}

/// A refund is noted as asked for exactly by the buyer of a completed recharge, with the amount,
/// the reason and the time given.
pub proof fn law_refunds_are_asked_for_by_their_buyer(
    o: OrderRecord,
    n: OrderRecord,
    changed: bool,
    input: MarkRefundRequestedInput,
    now: i64,
)
    requires
        asking_back(o, n, changed, input, now),
    ensures
        changed <==> o.id@ == input.order_id@ && o.user_id == input.user_id && o.status@
            == "COMPLETED"@ && o.order_type@ == "balance"@,
        changed ==> {
            &&& n.status@ == "REFUND_REQUESTED"@
            &&& n.refund_amount_cents == Some(input.refund_amount_cents)
            &&& n.refund_requested_at == Some(input.refund_requested_at)
            &&& n.refund_requested_by == Some(input.refund_requested_by)
            &&& n.refund_request_reason == input.refund_request_reason
            &&& n.amount_cents == o.amount_cents && n.paid_at == o.paid_at
        },
        !changed ==> n == o,
{
}

/// A refund claims exactly an order that is completed, has its refund asked for or whose refund
/// failed, and a second claim finds it taken.
pub proof fn law_one_refund_claim_wins(
    o: OrderRecord,
    n: OrderRecord,
    m: OrderRecord,
    first: bool,
    second: bool,
    now: i64,
    later: i64,
)
    requires
        claiming_refund(o, n, first, now),
        claiming_refund(n, m, second, later),
    ensures
        first <==> o.status@ == "COMPLETED"@ || o.status@ == "REFUND_REQUESTED"@ || o.status@
            == "REFUND_FAILED"@,
        first ==> n.status@ == "REFUNDING"@ && unpaid_as_before(o, n),
        !second,
        m == n,
{
    lemma_names_differ(OrderStatus::Refunding);
}

/// A refund ends only under its claim: given up with the status it is given, failed with its
/// reason and time, or done with its amount, reason and time.
pub proof fn law_refunds_end_under_their_claim(
    o: OrderRecord,
    n: OrderRecord,
    restored: bool,
    status: Seq<char>,
    f: OrderRecord,
    failed: bool,
    reason: Seq<char>,
    failed_at: i64,
    d: OrderRecord,
    done: bool,
    input: MarkRefundedInput,
    now: i64,
)
    requires
        restoring(o, n, restored, status, now),
        failing(
            o,
            f,
            failed,
            OrderStatus::Refunding,
            OrderStatus::RefundFailed,
            reason,
            failed_at,
            now,
        ),
        refunding(o, d, done, input, now),
    ensures
        restored <==> o.status@ == "REFUNDING"@,
        restored ==> n.status@ == status && unpaid_as_before(o, n),
        failed <==> o.status@ == "REFUNDING"@,
        failed ==> f.status@ == "REFUND_FAILED"@ && f.failed_at == Some(failed_at) && (
        f.failed_reason matches Some(r) && r@ == reason) && unpaid_as_before(o, f),
        done <==> o.status@ == "REFUNDING"@ && o.id@ == input.order_id@,
        done ==> {
            &&& d.status@ == input.status@
            &&& d.refund_amount_cents == Some(input.refund_amount_cents)
            &&& d.refund_reason matches Some(r) && r@ == input.refund_reason@
            &&& d.refund_at == Some(input.refund_at)
            &&& d.force_refund == input.force_refund
            &&& d.amount_cents == o.amount_cents && d.paid_at == o.paid_at && d.user_id
                == o.user_id
        },
        !restored ==> n == o,
        !failed ==> f == o,
        !done ==> d == o,
{
}

/// Crediting ends an order as completed, at the time given, exactly from being credited, paid
/// or failed; and as failed, with its reason and time, exactly from being credited.
pub proof fn law_crediting_ends_the_claim(
    o: OrderRecord,
    n: OrderRecord,
    completed: bool,
    completed_at: i64,
    f: OrderRecord,
    failed: bool,
    reason: Seq<char>,
    failed_at: i64,
    now: i64,
)
    requires
        completing(o, n, completed, completed_at, now),
        failing(
            o,
            f,
            failed,
            OrderStatus::Recharging,
            OrderStatus::Failed,
            reason,
            failed_at,
            now,
        ),
    ensures
        completed <==> o.status@ == "RECHARGING"@ || o.status@ == "PAID"@ || o.status@
            == "FAILED"@,
        completed ==> n.status@ == "COMPLETED"@ && n.completed_at == Some(completed_at)
            && n.failed_at is None && n.failed_reason is None && n.paid_at == o.paid_at
            && n.amount_cents == o.amount_cents && n.pay_amount_cents == o.pay_amount_cents,
        failed <==> o.status@ == "RECHARGING"@,
        failed ==> f.status@ == "FAILED"@ && f.failed_at == Some(failed_at) && (
        f.failed_reason matches Some(r) && r@ == reason) && unpaid_as_before(o, f),
        !completed ==> n == o,
        !failed ==> f == o,
{
}

// ---------------------------------------------------------------------------
// Queries for the order list of the administrator
// ---------------------------------------------------------------------------
/// The tests of a filter, each awaiting the number of its parameter.
pub open spec fn filter_tests(f: AdminOrderListFilters) -> Seq<Seq<char>> {
    let status = if f.status is Some {
        seq!["status = ?"@]
    } else {
        seq![]
    };
    let order_type = if f.order_type is Some {
        seq!["order_type = ?"@]
    } else {
        seq![]
    };
    let user_id = if f.user_id is Some {
        seq!["user_id = ?"@]
    } else {
        seq![]
    };
    let from = if f.created_from is Some {
        seq!["created_at >= ?"@]
    } else {
        seq![]
    };
    let to = if f.created_to is Some {
        seq!["created_at <= ?"@]
    } else {
        seq![]
    };
    status + order_type + user_id + from + to
}

/// The values of a filter, in the order of its tests.
pub open spec fn filter_values(f: AdminOrderListFilters) -> Seq<Parameter> {
    let status = match f.status {
        Some(s) => seq![Parameter::Text(s@)],
        None => seq![],
    };
    let order_type = match f.order_type {
        Some(s) => seq![Parameter::Text(s@)],
        None => seq![],
    };
    let user_id = match f.user_id {
        Some(n) => seq![Parameter::Integer(n as int)],
        None => seq![],
    };
    let from = match f.created_from {
        Some(n) => seq![Parameter::Integer(n as int)],
        None => seq![],
    };
    let to = match f.created_to {
        Some(n) => seq![Parameter::Integer(n as int)],
        None => seq![],
    };
    status + order_type + user_id + from + to
}

/// The contents of a query parameter.
pub enum Parameter {
    Text(Seq<char>),
    Integer(int),
    Other,
}

pub open spec fn parameter(v: SqlValue) -> Parameter {
    match v {
        SqlValue::Text(t) => Parameter::Text(t@),
        SqlValue::Integer(n) => Parameter::Integer(n as int),
        _ => Parameter::Other,
    }
}

pub open spec fn parameters(v: Seq<SqlValue>) -> Seq<Parameter> {
    v.map_values(|x: SqlValue| parameter(x))
}

/// Each test followed by the number of its parameter, counted from one.
pub open spec fn numbered(tests: Seq<Seq<char>>) -> Seq<Seq<char>> {
    Seq::new(tests.len(), |i: int| tests[i] + text::decimal(i + 1))
}

pub open spec fn where_clause(tests: Seq<Seq<char>>) -> Seq<char> {
    if tests.len() == 0 {
        Seq::empty()
    } else {
        " WHERE "@ + text::joined(numbered(tests), " AND "@)
    }
}

struct FilterParts {
    conditions: Vec<String>,
    params: Vec<SqlValue>,
}

impl FilterParts {
    spec fn holds(self, tests: Seq<Seq<char>>, values: Seq<Parameter>) -> bool {
        &&& text::texts(self.conditions@) == numbered(tests)
        &&& parameters(self.params@) == values
        &&& tests.len() == values.len()
        &&& tests.len() <= 5
    }

    fn add_test(
        &mut self,
        test: &str,
        value: SqlValue,
        Ghost(tests): Ghost<Seq<Seq<char>>>,
        Ghost(values): Ghost<Seq<Parameter>>,
    )
        requires
            old(self).holds(tests, values),
            tests.len() < 5,
        ensures
            final(self).holds(tests.push(test@), values.push(parameter(value))),
    {
        let mut condition = test.to_owned();
        assert(text::texts(self.conditions@).len() == numbered(tests).len());
        assert(self.conditions@.len() == tests.len());
        let number: u64 = (self.conditions.len() + 1) as u64;
        condition.append(text::u64_text(number).as_str());
        let ghost before = text::texts(self.conditions@);
        self.conditions.push(condition);
        self.params.push(value);
        assert(text::texts(self.conditions@) =~= before.push(condition@));
        assert(text::texts(self.conditions@) =~= numbered(tests.push(test@)));
        assert(parameters(self.params@) =~= values.push(parameter(value)));
    }
}

/// The WHERE clause of a filter, with its parameters.
pub fn build_admin_filter_clause(filters: &AdminOrderListFilters) -> (r: (String, Vec<SqlValue>))
    ensures
        r.0@ == where_clause(filter_tests(*filters)),
        parameters(r.1@) == filter_values(*filters),
        r.1@.len() <= 5,
{
    let mut parts = FilterParts { conditions: Vec::new(), params: Vec::new() };
    let ghost mut tests: Seq<Seq<char>> = Seq::empty();
    let ghost mut values: Seq<Parameter> = Seq::empty();
    assert(text::texts(parts.conditions@) =~= numbered(tests));
    assert(parameters(parts.params@) =~= values);
    if let Some(status) = &filters.status {
        parts.add_test(
            "status = ?",
            SqlValue::Text(status.clone()),
            Ghost(tests),
            Ghost(values),
        );
        proof {
            tests = tests.push("status = ?"@);
            values = values.push(Parameter::Text(status@));
        }
    }
    if let Some(order_type) = &filters.order_type {
        parts.add_test(
            "order_type = ?",
            SqlValue::Text(order_type.clone()),
            Ghost(tests),
            Ghost(values),
        );
        proof {
            tests = tests.push("order_type = ?"@);
            values = values.push(Parameter::Text(order_type@));
        }
    }
    if let Some(user_id) = filters.user_id {
        parts.add_test("user_id = ?", SqlValue::Integer(user_id), Ghost(tests), Ghost(values));
        proof {
            tests = tests.push("user_id = ?"@);
            values = values.push(Parameter::Integer(user_id as int));
        }
    }
    if let Some(from) = filters.created_from {
        parts.add_test("created_at >= ?", SqlValue::Integer(from), Ghost(tests), Ghost(values));
        proof {
            tests = tests.push("created_at >= ?"@);
            values = values.push(Parameter::Integer(from as int));
        }
    }
    if let Some(to) = filters.created_to {
        parts.add_test("created_at <= ?", SqlValue::Integer(to), Ghost(tests), Ghost(values));
        proof {
            tests = tests.push("created_at <= ?"@);
            values = values.push(Parameter::Integer(to as int));
        }
    }
    assert(tests =~= filter_tests(*filters));
    assert(values =~= filter_values(*filters));
    assert(parts.conditions@.len() == text::texts(parts.conditions@).len());
    let FilterParts { conditions, params } = parts;
    if conditions.len() == 0 {
        (String::new(), params)
    } else {
        let mut clause = " WHERE ".to_owned();
        clause.append(text::join(&conditions, " AND ").as_str());
        (clause, params)
    }
}

/// The query for one page of the order list, newest orders first.
pub fn admin_list_query(filters: &AdminOrderListFilters) -> (r: (String, Vec<SqlValue>))
    ensures
        r.0@ == "SELECT "@ + ORDER_SELECT_COLUMNS@ + " FROM orders"@ + where_clause(
            filter_tests(*filters),
        ) + " ORDER BY created_at DESC LIMIT ?"@ + text::decimal(
            filter_tests(*filters).len() as int + 1,
        ) + " OFFSET ?"@ + text::decimal(filter_tests(*filters).len() as int + 2),
        parameters(r.1@) == filter_values(*filters).push(
            Parameter::Integer(filters.limit as int),
        ).push(Parameter::Integer(filters.offset as int)),
{
    let (clause, params) = build_admin_filter_clause(filters);
    let mut params = params;
    assert(params@.len() == parameters(params@).len());
    let first: u64 = (params.len() + 1) as u64;
    let second: u64 = (params.len() + 2) as u64;
    let mut sql = "SELECT ".to_owned();
    sql.append(ORDER_SELECT_COLUMNS);
    sql.append(" FROM orders");
    sql.append(clause.as_str());
    sql.append(" ORDER BY created_at DESC LIMIT ?");
    sql.append(text::u64_text(first).as_str());
    sql.append(" OFFSET ?");
    sql.append(text::u64_text(second).as_str());
    params.push(SqlValue::Integer(filters.limit));
    params.push(SqlValue::Integer(filters.offset));
    assert(parameters(params@) =~= filter_values(*filters).push(
        Parameter::Integer(filters.limit as int),
    ).push(Parameter::Integer(filters.offset as int)));
    (sql, params)
}

/// The query that counts the orders a filter lets through.
pub fn admin_count_query(filters: &AdminOrderListFilters) -> (r: (String, Vec<SqlValue>))
    ensures
        r.0@ == "SELECT COUNT(*) FROM orders"@ + where_clause(filter_tests(*filters)),
        parameters(r.1@) == filter_values(*filters),
{
    let (clause, params) = build_admin_filter_clause(filters);
    let mut sql = "SELECT COUNT(*) FROM orders".to_owned();
    sql.append(clause.as_str());
    (sql, params)
}

/// A filter is tested for exactly where it is given, each test against its own value.
pub proof fn law_filters_test_what_is_given(f: AdminOrderListFilters, i: int)
    ensures
        filter_tests(f).len() == filter_values(f).len(),
        0 <= i < filter_tests(f).len() ==> {
            let test = filter_tests(f)[i];
            let value = filter_values(f)[i];
            ||| test == "status = ?"@ && f.status is Some && value == Parameter::Text(f.status->0@)
            ||| test == "order_type = ?"@ && f.order_type is Some && value == Parameter::Text(
                f.order_type->0@,
            )
            ||| test == "user_id = ?"@ && f.user_id is Some && value == Parameter::Integer(
                f.user_id->0 as int,
            )
            ||| test == "created_at >= ?"@ && f.created_from is Some && value
                == Parameter::Integer(f.created_from->0 as int)
            ||| test == "created_at <= ?"@ && f.created_to is Some && value == Parameter::Integer(
                f.created_to->0 as int,
            )
        },
        f.status is Some ==> filter_tests(f).contains("status = ?"@),
        f.order_type is Some ==> filter_tests(f).contains("order_type = ?"@),
        f.user_id is Some ==> filter_tests(f).contains("user_id = ?"@),
        f.created_from is Some ==> filter_tests(f).contains("created_at >= ?"@),
        f.created_to is Some ==> filter_tests(f).contains("created_at <= ?"@),
{
    let a: int = if f.status is Some { 1 } else { 0 };
    let b: int = a + if f.order_type is Some { 1int } else { 0 };
    let c: int = b + if f.user_id is Some { 1int } else { 0 };
    let d: int = c + if f.created_from is Some { 1int } else { 0 };
    let t = filter_tests(f);
    if f.status is Some {
        assert(t[0] == "status = ?"@);
    }
    if f.order_type is Some {
        assert(t[a] == "order_type = ?"@);
    }
    if f.user_id is Some {
        assert(t[b] == "user_id = ?"@);
    }
    if f.created_from is Some {
        assert(t[c] == "created_at >= ?"@);
    }
    if f.created_to is Some {
        assert(t[d] == "created_at <= ?"@);
    }
}

/// Every test of a filter must hold, and is held against the parameter of its number.
pub proof fn law_all_tests_must_hold(tests: Seq<Seq<char>>, last: Seq<char>)
    ensures
        where_clause(Seq::empty()).len() == 0,
        tests.len() == 0 ==> where_clause(tests.push(last)) == " WHERE "@ + (last + text::decimal(
            1,
        )),
        tests.len() > 0 ==> where_clause(tests.push(last)) == where_clause(tests) + " AND "@ + (
        last + text::decimal(tests.len() as int + 1)),
{
    let all = tests.push(last);
    let n = numbered(all);
    assert(n.last() == last + text::decimal(tests.len() as int + 1));
    if tests.len() > 0 {
        assert(n.drop_last() =~= numbered(tests));
        assert(where_clause(all) =~= where_clause(tests) + " AND "@ + n.last());
    } else {
        assert(n[0] == last + text::decimal(1));
    }
}

/// The orders that are overdue are those that are still pending after their time, the longest
/// overdue first; the pending orders of a user are counted as those that are pending.
pub proof fn law_pending_orders_are_looked_for()
    ensures
        OVERDUE_ORDERS@ == "WHERE status = '"@ + OrderStatus::Pending.name()
            + "' AND expires_at < ?1 ORDER BY expires_at ASC LIMIT ?2"@,
        COUNT_PENDING_OF_USER@ == COUNT_OF_USER@ + " AND status = '"@ + OrderStatus::Pending.name()
            + "'"@,
        ORDERS_OF_USER@ == "WHERE user_id = ?1"@
            + " ORDER BY created_at DESC LIMIT ?2 OFFSET ?3"@,
        COUNT_OF_USER@ == "SELECT COUNT(*) FROM orders "@ + "WHERE user_id = ?1"@,
{
    reveal_strlit("PENDING");
    reveal_strlit("WHERE status = 'PENDING' AND expires_at < ?1 ORDER BY expires_at ASC LIMIT ?2");
    reveal_strlit("WHERE status = '");
    reveal_strlit("' AND expires_at < ?1 ORDER BY expires_at ASC LIMIT ?2");
    reveal_strlit("SELECT COUNT(*) FROM orders WHERE user_id = ?1 AND status = 'PENDING'");
    reveal_strlit("SELECT COUNT(*) FROM orders WHERE user_id = ?1");
    reveal_strlit(" AND status = '");
    reveal_strlit("'");
    reveal_strlit("WHERE user_id = ?1 ORDER BY created_at DESC LIMIT ?2 OFFSET ?3");
    reveal_strlit("WHERE user_id = ?1");
    reveal_strlit(" ORDER BY created_at DESC LIMIT ?2 OFFSET ?3");
    reveal_strlit("SELECT COUNT(*) FROM orders ");
    assert(OVERDUE_ORDERS@ =~= "WHERE status = '"@ + "PENDING"@
        + "' AND expires_at < ?1 ORDER BY expires_at ASC LIMIT ?2"@);
    assert(COUNT_PENDING_OF_USER@ =~= COUNT_OF_USER@ + " AND status = '"@ + "PENDING"@ + "'"@);
    assert(ORDERS_OF_USER@ =~= "WHERE user_id = ?1"@
        + " ORDER BY created_at DESC LIMIT ?2 OFFSET ?3"@);
    assert(COUNT_OF_USER@ =~= "SELECT COUNT(*) FROM orders "@ + "WHERE user_id = ?1"@);
}

/// The list of orders shows the newest first, so many at most after so many others, and the
/// count is of the same orders.
pub proof fn law_lists_are_newest_first(
    f: AdminOrderListFilters,
    list: (String, Vec<SqlValue>),
    count: (String, Vec<SqlValue>),
)
    requires
        call_ensures(admin_list_query, (&f,), list),
        call_ensures(admin_count_query, (&f,), count),
    ensures
        ({
            let n = filter_tests(f).len() as int;
            &&& list.0@ == "SELECT "@ + ORDER_SELECT_COLUMNS@ + " FROM orders"@ + where_clause(
                filter_tests(f),
            ) + (" ORDER BY created_at DESC LIMIT ?"@ + text::decimal(n + 1) + " OFFSET ?"@
                + text::decimal(n + 2))
            &&& count.0@ == "SELECT COUNT(*) FROM orders"@ + where_clause(filter_tests(f))
            &&& list.1@.len() == n + 2
            &&& list.1@[n] == SqlValue::Integer(f.limit)
            &&& list.1@[n + 1] == SqlValue::Integer(f.offset)
            &&& count.1@.len() == n
        }),
{
    let n = filter_tests(f).len() as int;
    law_filters_test_what_is_given(f, 0);
    assert(parameters(list.1@).len() == list.1@.len());
    assert(parameters(count.1@).len() == count.1@.len());
    assert(parameters(list.1@)[n] == parameter(list.1@[n]));
    assert(parameters(list.1@)[n + 1] == parameter(list.1@[n + 1]));
    assert(list.0@ =~= "SELECT "@ + ORDER_SELECT_COLUMNS@ + " FROM orders"@ + where_clause(
        filter_tests(f),
    ) + (" ORDER BY created_at DESC LIMIT ?"@ + text::decimal(n + 1) + " OFFSET ?"@
        + text::decimal(n + 2)));
}

/// No change of state touches whose an order is, what it is of, how much it is of and how it is
/// credited; and an order that is paid stays paid.
pub proof fn law_changes_keep_the_order(o: OrderRecord, n: OrderRecord)
    requires
        keeps_identity(o, n),
    ensures
        n.id@ == o.id@ && n.user_id == o.user_id && n.amount_cents == o.amount_cents,
        n.recharge_code@ == o.recharge_code@ && n.fee_rate_bps == o.fee_rate_bps,
        n.payment_type@ == o.payment_type@ && n.order_type@ == o.order_type@,
        n.subscription_days == o.subscription_days,
        n.subscription_group_id == o.subscription_group_id,
        n.expires_at == o.expires_at && n.created_at == o.created_at,
        n.paid_at is None ==> o.paid_at is None,
{
}

/// An order that is cancelled, refunded in full or in part is so for good; a pending one is
/// paid, cancelled or expires; only a paid or a failed one is credited; only a completed one,
/// or one whose refund was asked for or failed, is refunded.
pub proof fn law_statuses_follow_each_other(from: Seq<char>, to: Seq<char>)
    requires
        may_follow(from, to),
    ensures
        from != "CANCELLED"@ && from != "REFUNDED"@ && from != "PARTIALLY_REFUNDED"@,
        from == "PENDING"@ <==> to == "CANCELLED"@ || to == "EXPIRED"@ || (to == "PAID"@ && from
            != "EXPIRED"@ && from != "PAID"@ && from != "FAILED"@),
        from == "EXPIRED"@ ==> to == "PAID"@,
        to == "RECHARGING"@ ==> from == "PAID"@ || from == "FAILED"@,
        from == "RECHARGING"@ ==> to == "COMPLETED"@ || to == "FAILED"@,
        to == "REFUNDING"@ ==> from == "COMPLETED"@ || from == "REFUND_REQUESTED"@ || from
            == "REFUND_FAILED"@,
        to == "REFUNDED"@ || to == "PARTIALLY_REFUNDED"@ || to == "REFUND_FAILED"@ ==> from
            == "REFUNDING"@,
        to == "REFUND_REQUESTED"@ ==> from == "COMPLETED"@ || from == "REFUNDING"@,
{
    reveal_strlit("PENDING");
    reveal_strlit("PAID");
    reveal_strlit("RECHARGING");
    reveal_strlit("COMPLETED");
    reveal_strlit("EXPIRED");
    reveal_strlit("CANCELLED");
    reveal_strlit("FAILED");
    reveal_strlit("REFUND_REQUESTED");
    reveal_strlit("REFUNDING");
    reveal_strlit("PARTIALLY_REFUNDED");
    reveal_strlit("REFUNDED");
    reveal_strlit("REFUND_FAILED");
    assert("PENDING"@.len() == 7 && "EXPIRED"@.len() == 7 && "PAID"@.len() == 4
        && "RECHARGING"@.len() == 10 && "COMPLETED"@.len() == 9 && "CANCELLED"@.len() == 9
        && "FAILED"@.len() == 6 && "REFUND_REQUESTED"@.len() == 16 && "REFUNDING"@.len() == 9
        && "PARTIALLY_REFUNDED"@.len() == 18 && "REFUNDED"@.len() == 8 && "REFUND_FAILED"@.len()
        == 13);
    assert("PENDING"@[0] == 'P' && "EXPIRED"@[0] == 'E');
    assert("COMPLETED"@[1] == 'O' && "CANCELLED"@[1] == 'A' && "REFUNDING"@[1] == 'E');
}

}
