//! The audit log of orders.
use vstd::prelude::*;

use crate::db;
use crate::db::{Column, SqlValue};

verus! {

#[derive(Debug)]
pub struct NewAuditLog {
    pub order_id: String,
    pub action: String,
    pub detail: Option<String>,
    pub operator: Option<String>,
}

#[derive(Debug)]
pub struct AuditLogRecord {
    pub id: String,
    pub order_id: String,
    pub action: String,
    pub detail: Option<String>,
    pub operator: Option<String>,
    pub created_at: i64,
}

/// The columns of the audit log table, in the order in which a row holds them.
pub open spec fn audit_log_columns() -> Seq<Column> {
    seq![
        Column::Text,
        Column::Text,
        Column::Text,
        Column::OptText,
        Column::OptText,
        Column::Int,
    ]
}

fn audit_log_column_list() -> (r: Vec<Column>)
    ensures
        r@ == audit_log_columns(),
{
    vec![
        Column::Text,
        Column::Text,
        Column::Text,
        Column::OptText,
        Column::OptText,
        Column::Int,
    ]
}

/// The record `o` is what the row holds.
pub open spec fn audit_log_row_reads(row: Seq<SqlValue>, o: AuditLogRecord) -> bool {
    &&& db::sql_text(row[0]) == Ok::<Seq<char>, Seq<char>>(o.id@)
    &&& db::sql_text(row[1]) == Ok::<Seq<char>, Seq<char>>(o.order_id@)
    &&& db::sql_text(row[2]) == Ok::<Seq<char>, Seq<char>>(o.action@)
    &&& db::opt_text_is(row[3], o.detail)
    &&& db::opt_text_is(row[4], o.operator)
    &&& db::sql_int(row[5]) == Ok::<int, Seq<char>>(o.created_at as int)
}

/// Reads one row. A row that does not fit the columns is refused for its first
/// column that does not.
pub fn parse_audit_log_row(row: &Vec<SqlValue>) -> (r: Result<AuditLogRecord, String>)
    ensures
        match r {
            Ok(o) => db::row_error(
                row@,
                audit_log_columns(),
            ) is None && audit_log_row_reads(row@, o),
            Err(e) => db::row_error(row@, audit_log_columns()) == Some(e@),
        },
{
    let columns = audit_log_column_list();
    if let Some(e) = db::check_row(row, &columns) {
        return Err(e);
    }
    proof {
        db::lemma_row_fits(row@, audit_log_columns());
    }
    Ok(
        AuditLogRecord {
            id: db::text_in(&row[0]),
            order_id: db::text_in(&row[1]),
            action: db::text_in(&row[2]),
            detail: db::opt_text_in(&row[3]),
            operator: db::opt_text_in(&row[4]),
            created_at: db::int_in(&row[5]),
        },
    )
}

/// The parameters `row` store `w` under the identifier `id`.
pub open spec fn audit_log_params_store(row: Seq<SqlValue>, id: Seq<char>, w: NewAuditLog) -> bool {
    &&& row.len() == 5
    &&& db::is_text(row[0], id)
    &&& db::is_text(row[1], w.order_id@)
    &&& db::is_text(row[2], w.action@)
    &&& db::is_opt_text(row[3], db::opt_text(w.detail))
    &&& db::is_opt_text(row[4], db::opt_text(w.operator))
}

/// The parameters with which a record is written.
pub fn write_params(id: &str, w: &NewAuditLog) -> (r: Vec<SqlValue>)
    ensures
        audit_log_params_store(r@, id@, *w),
{
    vec![
        db::text_value(id),
        db::text_value(w.order_id.as_str()),
        db::text_value(w.action.as_str()),
        db::opt_text_value(&w.detail),
        db::opt_text_value(&w.operator),
    ]
}

/// An entry says what was done to which order, in detail, and by whom.
pub open spec fn entry(
    log: NewAuditLog,
    order_id: Seq<char>,
    action: Seq<char>,
    detail: Seq<char>,
    operator: Seq<char>,
) -> bool {
    &&& log.order_id@ == order_id
    &&& log.action@ == action
    &&& db::opt_text(log.detail) == Some(detail)
    &&& db::opt_text(log.operator) == Some(operator)
}

pub fn new_entry(order_id: &str, action: &str, detail: String, operator: &str) -> (r: NewAuditLog)
    ensures
        entry(r, order_id@, action@, detail@, operator@),
{
    NewAuditLog {
        order_id: order_id.to_owned(),
        action: action.to_owned(),
        detail: Some(detail),
        operator: Some(operator.to_owned()),
    }
}

/// What is read back of a logged entry is what was written.
pub proof fn law_logged_entry_reads_back(
    params: Seq<SqlValue>,
    id: Seq<char>,
    w: NewAuditLog,
    created_at: i64,
    o: AuditLogRecord,
)
    requires
        audit_log_params_store(params, id, w),
    ensures
        ({
            let row = params.push(SqlValue::Integer(created_at));
            &&& db::row_error(row, audit_log_columns()) is None
            &&& audit_log_row_reads(row, o) ==> {
                &&& o.id@ == id
                &&& o.order_id@ == w.order_id@
                &&& o.action@ == w.action@
                &&& db::opt_text(o.detail) == db::opt_text(w.detail)
                &&& db::opt_text(o.operator) == db::opt_text(w.operator)
                &&& o.created_at == created_at
            }
        }),
{
    let row = params.push(SqlValue::Integer(created_at));
    assert forall|i: int| 0 <= i < audit_log_columns().len() implies db::column_error(
        audit_log_columns()[i],
        #[trigger] row[i],
    ) is None by {
        if i < params.len() {
            assert(row[i] == params[i]);
        }
    }
    db::lemma_row_fits_converse(row, audit_log_columns());
}

}
