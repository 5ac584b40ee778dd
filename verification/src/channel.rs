//! Channels: what they hold and how they are stored.
use vstd::prelude::*;

use crate::db;
use crate::db::{Column, SqlValue};

verus! {

#[derive(Debug)]
pub struct ChannelRecord {
    pub id: String,
    pub group_id: Option<i64>,
    pub name: String,
    pub platform: String,
    pub rate_multiplier_bps: i64,
    pub description: Option<String>,
    pub models: Option<String>,
    pub features: Option<String>,
    pub sort_order: i64,
    pub enabled: bool,
    pub created_at: i64,
    pub updated_at: i64,
}

#[derive(Debug)]
pub struct ChannelWrite {
    pub group_id: Option<i64>,
    pub name: String,
    pub platform: String,
    pub rate_multiplier_bps: i64,
    pub description: Option<String>,
    pub models: Option<String>,
    pub features: Option<String>,
    pub sort_order: i64,
    pub enabled: bool,
}

/// The columns of the channel table, in the order in which a row holds them.
pub open spec fn channel_columns() -> Seq<Column> {
    seq![
        Column::Text,
        Column::OptInt,
        Column::Text,
        Column::Text,
        Column::Int,
        Column::OptText,
        Column::OptText,
        Column::OptText,
        Column::Int,
        Column::MarkedFlag,
        Column::Int,
        Column::Int,
    ]
}

fn channel_column_list() -> (r: Vec<Column>)
    ensures
        r@ == channel_columns(),
{
    vec![
        Column::Text,
        Column::OptInt,
        Column::Text,
        Column::Text,
        Column::Int,
        Column::OptText,
        Column::OptText,
        Column::OptText,
        Column::Int,
        Column::MarkedFlag,
        Column::Int,
        Column::Int,
    ]
}

/// The record `o` is what the row holds.
pub open spec fn channel_row_reads(row: Seq<SqlValue>, o: ChannelRecord) -> bool {
    &&& db::sql_text(row[0]) == Ok::<Seq<char>, Seq<char>>(o.id@)
    &&& db::opt_int_is(row[1], o.group_id)
    &&& db::sql_text(row[2]) == Ok::<Seq<char>, Seq<char>>(o.name@)
    &&& db::sql_text(row[3]) == Ok::<Seq<char>, Seq<char>>(o.platform@)
    &&& db::sql_int(row[4]) == Ok::<int, Seq<char>>(o.rate_multiplier_bps as int)
    &&& db::opt_text_is(row[5], o.description)
    &&& db::opt_text_is(row[6], o.models)
    &&& db::opt_text_is(row[7], o.features)
    &&& db::sql_int(row[8]) == Ok::<int, Seq<char>>(o.sort_order as int)
    &&& db::sql_marked_flag(row[9]) == Ok::<bool, Seq<char>>(o.enabled)
    &&& db::sql_int(row[10]) == Ok::<int, Seq<char>>(o.created_at as int)
    &&& db::sql_int(row[11]) == Ok::<int, Seq<char>>(o.updated_at as int)
}

/// Reads one row. A row that does not fit the columns is refused for its first
/// column that does not.
pub fn parse_channel_row(row: &Vec<SqlValue>) -> (r: Result<ChannelRecord, String>)
    ensures
        match r {
            Ok(o) => db::row_error(row@, channel_columns()) is None && channel_row_reads(row@, o),
            Err(e) => db::row_error(row@, channel_columns()) == Some(e@),
        },
{
    let columns = channel_column_list();
    if let Some(e) = db::check_row(row, &columns) {
        return Err(e);
    }
    proof {
        db::lemma_row_fits(row@, channel_columns());
    }
    Ok(
        ChannelRecord {
            id: db::text_in(&row[0]),
            group_id: db::opt_int_in(&row[1]),
            name: db::text_in(&row[2]),
            platform: db::text_in(&row[3]),
            rate_multiplier_bps: db::int_in(&row[4]),
            description: db::opt_text_in(&row[5]),
            models: db::opt_text_in(&row[6]),
            features: db::opt_text_in(&row[7]),
            sort_order: db::int_in(&row[8]),
            enabled: db::marked_flag_in(&row[9]),
            created_at: db::int_in(&row[10]),
            updated_at: db::int_in(&row[11]),
        },
    )
}

/// The parameters `row` store `w` under the identifier `id`.
pub open spec fn channel_params_store(row: Seq<SqlValue>, id: Seq<char>, w: ChannelWrite) -> bool {
    &&& row.len() == 10
    &&& db::is_text(row[0], id)
    &&& row[1] == db::opt_int_value(w.group_id)
    &&& db::is_text(row[2], w.name@)
    &&& db::is_text(row[3], w.platform@)
    &&& row[4] == SqlValue::Integer(w.rate_multiplier_bps)
    &&& db::is_opt_text(row[5], db::opt_text(w.description))
    &&& db::is_opt_text(row[6], db::opt_text(w.models))
    &&& db::is_opt_text(row[7], db::opt_text(w.features))
    &&& row[8] == SqlValue::Integer(w.sort_order)
    &&& row[9] == db::flag_value(w.enabled)
}

/// The parameters with which a record is written.
pub fn write_params(id: &str, w: &ChannelWrite) -> (r: Vec<SqlValue>)
    ensures
        channel_params_store(r@, id@, *w),
{
    vec![
        db::text_value(id),
        db::write_opt_int(w.group_id),
        db::text_value(w.name.as_str()),
        db::text_value(w.platform.as_str()),
        SqlValue::Integer(w.rate_multiplier_bps),
        db::opt_text_value(&w.description),
        db::opt_text_value(&w.models),
        db::opt_text_value(&w.features),
        SqlValue::Integer(w.sort_order),
        db::write_flag(w.enabled),
    ]
}

/// What is read back of a stored channel is what was written: the parameters, followed
/// by the times at which it was created and changed, read as a record that holds them.
pub proof fn law_stored_channel_reads_back(
    params: Seq<SqlValue>,
    id: Seq<char>,
    w: ChannelWrite,
    created_at: i64,
    updated_at: i64,
    o: ChannelRecord,
)
    requires
        channel_params_store(params, id, w),
    ensures
        ({
            let row = params.push(SqlValue::Integer(created_at)).push(
                SqlValue::Integer(updated_at),
            );
            &&& db::row_error(row, channel_columns()) is None
            &&& channel_row_reads(row, o) ==> o.id@ == id && channel_holds(o, w) && o.created_at
                == created_at && o.updated_at == updated_at
        }),
{
    let row = params.push(SqlValue::Integer(created_at)).push(SqlValue::Integer(updated_at));
    assert forall|i: int| 0 <= i < channel_columns().len() implies db::column_error(
        channel_columns()[i],
        #[trigger] row[i],
    ) is None by {
        if i < params.len() {
            assert(row[i] == params[i]);
        }
    }
    db::lemma_row_fits_converse(row, channel_columns());
}

/// The record holds what was written.
pub open spec fn channel_holds(o: ChannelRecord, w: ChannelWrite) -> bool {
    &&& w.group_id == o.group_id
    &&& w.name@ == o.name@
    &&& w.platform@ == o.platform@
    &&& w.rate_multiplier_bps == o.rate_multiplier_bps
    &&& db::opt_text(w.description) == db::opt_text(o.description)
    &&& db::opt_text(w.models) == db::opt_text(o.models)
    &&& db::opt_text(w.features) == db::opt_text(o.features)
    &&& w.sort_order == o.sort_order
    &&& w.enabled == o.enabled
}

}
