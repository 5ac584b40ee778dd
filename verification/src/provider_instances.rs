//! Instances of payment providers: what they hold and how they are stored.
use vstd::prelude::*;

use crate::db;
use crate::db::{Column, SqlValue};
use crate::json;
use crate::payment;
use crate::text;

verus! {

#[derive(Debug)]
pub struct ProviderInstanceRecord {
    pub id: String,
    pub provider_key: String,
    pub name: String,
    pub config: String,
    pub supported_types: String,
    pub enabled: bool,
    pub sort_order: i64,
    pub limits: Option<String>,
    pub refund_enabled: bool,
    pub created_at: i64,
    pub updated_at: i64,
}

#[derive(Debug)]
pub struct ProviderInstanceWrite {
    pub provider_key: String,
    pub name: String,
    pub config: String,
    pub supported_types: String,
    pub enabled: bool,
    pub sort_order: i64,
    pub limits: Option<String>,
    pub refund_enabled: bool,
}

/// The columns of the instance table, in the order in which a row holds them.
pub open spec fn instance_columns() -> Seq<Column> {
    seq![
        Column::Text,
        Column::Text,
        Column::Text,
        Column::Text,
        Column::Text,
        Column::StrictFlag,
        Column::StrictInt,
        Column::OptJson,
        Column::StrictFlag,
        Column::StrictInt,
        Column::StrictInt,
    ]
}

fn instance_column_list() -> (r: Vec<Column>)
    ensures
        r@ == instance_columns(),
{
    vec![
        Column::Text,
        Column::Text,
        Column::Text,
        Column::Text,
        Column::Text,
        Column::StrictFlag,
        Column::StrictInt,
        Column::OptJson,
        Column::StrictFlag,
        Column::StrictInt,
        Column::StrictInt,
    ]
}

/// The record `o` is what the row holds.
pub open spec fn instance_row_reads(row: Seq<SqlValue>, o: ProviderInstanceRecord) -> bool {
    &&& db::sql_text(row[0]) == Ok::<Seq<char>, Seq<char>>(o.id@)
    &&& db::sql_text(row[1]) == Ok::<Seq<char>, Seq<char>>(o.provider_key@)
    &&& db::sql_text(row[2]) == Ok::<Seq<char>, Seq<char>>(o.name@)
    &&& db::sql_text(row[3]) == Ok::<Seq<char>, Seq<char>>(o.config@)
    &&& db::sql_text(row[4]) == Ok::<Seq<char>, Seq<char>>(o.supported_types@)
    &&& db::sql_strict_flag(row[5]) == Ok::<bool, Seq<char>>(o.enabled)
    &&& db::sql_strict_int(row[6]) == Ok::<int, Seq<char>>(o.sort_order as int)
    &&& db::sql_json(row[7]) == Ok::<Option<Seq<char>>, Seq<char>>(db::opt_text(o.limits))
    &&& db::sql_strict_flag(row[8]) == Ok::<bool, Seq<char>>(o.refund_enabled)
    &&& db::sql_strict_int(row[9]) == Ok::<int, Seq<char>>(o.created_at as int)
    &&& db::sql_strict_int(row[10]) == Ok::<int, Seq<char>>(o.updated_at as int)
}

/// Reads one row. A row that does not fit the columns is refused for its first
/// column that does not.
pub fn parse_record(row: &Vec<SqlValue>) -> (r: Result<ProviderInstanceRecord, String>)
    ensures
        match r {
            Ok(o) => db::row_error(row@, instance_columns()) is None && instance_row_reads(row@, o),
            Err(e) => db::row_error(row@, instance_columns()) == Some(e@),
        },
{
    let columns = instance_column_list();
    if let Some(e) = db::check_row(row, &columns) {
        return Err(e);
    }
    proof {
        db::lemma_row_fits(row@, instance_columns());
    }
    Ok(
        ProviderInstanceRecord {
            id: db::text_in(&row[0]),
            provider_key: db::text_in(&row[1]),
            name: db::text_in(&row[2]),
            config: db::text_in(&row[3]),
            supported_types: db::text_in(&row[4]),
            enabled: db::strict_flag_in(&row[5]),
            sort_order: db::strict_int_in(&row[6]),
            limits: db::json_in(&row[7]),
            refund_enabled: db::strict_flag_in(&row[8]),
            created_at: db::strict_int_in(&row[9]),
            updated_at: db::strict_int_in(&row[10]),
        },
    )
}

/// The parameters `row` store `w` under the identifier `id`.
pub open spec fn instance_params_store(row: Seq<SqlValue>, id: Seq<char>, w: ProviderInstanceWrite) -> bool {
    &&& row.len() == 9
    &&& db::is_text(row[0], id)
    &&& db::is_text(row[1], w.provider_key@)
    &&& db::is_text(row[2], w.name@)
    &&& db::is_text(row[3], w.config@)
    &&& db::is_text(row[4], w.supported_types@)
    &&& row[5] == db::flag_value(w.enabled)
    &&& row[6] == SqlValue::Integer(w.sort_order)
    &&& db::is_opt_text(row[7], db::opt_text(w.limits))
    &&& row[8] == db::flag_value(w.refund_enabled)
}

/// The parameters with which a record is written.
pub fn write_params(id: &str, w: &ProviderInstanceWrite) -> (r: Vec<SqlValue>)
    ensures
        instance_params_store(r@, id@, *w),
{
    vec![
        db::text_value(id),
        db::text_value(w.provider_key.as_str()),
        db::text_value(w.name.as_str()),
        db::text_value(w.config.as_str()),
        db::text_value(w.supported_types.as_str()),
        db::write_flag(w.enabled),
        SqlValue::Integer(w.sort_order),
        db::opt_text_value(&w.limits),
        db::write_flag(w.refund_enabled),
    ]
}

/// What is read back of a stored instance is what was written: the parameters, followed
/// by the times at which it was created and changed, read as a record that holds them.
pub proof fn law_stored_instance_reads_back(
    params: Seq<SqlValue>,
    id: Seq<char>,
    w: ProviderInstanceWrite,
    created_at: i64,
    updated_at: i64,
    o: ProviderInstanceRecord,
)
    requires
        instance_params_store(params, id, w),
        w.limits matches Some(s) ==> json::json_valid(s@),
    ensures
        ({
            let row = params.push(SqlValue::Integer(created_at)).push(
                SqlValue::Integer(updated_at),
            );
            &&& db::row_error(row, instance_columns()) is None
            &&& instance_row_reads(row, o) ==> o.id@ == id && instance_holds(o, w) && o.created_at
                == created_at && o.updated_at == updated_at
        }),
{
    let row = params.push(SqlValue::Integer(created_at)).push(SqlValue::Integer(updated_at));
    assert forall|i: int| 0 <= i < instance_columns().len() implies db::column_error(
        instance_columns()[i],
        #[trigger] row[i],
    ) is None by {
        if i < params.len() {
            assert(row[i] == params[i]);
        }
    }
    db::lemma_row_fits_converse(row, instance_columns());
}

/// The record holds what was written.
pub open spec fn instance_holds(o: ProviderInstanceRecord, w: ProviderInstanceWrite) -> bool {
    &&& w.provider_key@ == o.provider_key@
    &&& w.name@ == o.name@
    &&& w.config@ == o.config@
    &&& w.supported_types@ == o.supported_types@
    &&& w.enabled == o.enabled
    &&& w.sort_order == o.sort_order
    &&& db::opt_text(w.limits) == db::opt_text(o.limits)
    &&& w.refund_enabled == o.refund_enabled
}

/// The statuses of orders that still need their instance.
pub const PENDING_STATUSES: [&'static str; 3] = ["PENDING", "PAID", "RECHARGING"];

/// The providers of a list of instances, in order, that are among the given ones.
pub open spec fn keys_among(records: Seq<ProviderInstanceRecord>, keys: Seq<Seq<char>>) -> Seq<
    Seq<char>,
>
    decreases records.len(),
{
    if records.len() == 0 {
        Seq::empty()
    } else {
        let before = keys_among(records.drop_last(), keys);
        if keys.contains(records.last().provider_key@) {
            before.push(records.last().provider_key@)
        } else {
            before
        }
    }
}

pub fn find_existing_provider_keys(
    all: &Vec<ProviderInstanceRecord>,
    provider_keys: &Vec<String>,
) -> (r: Vec<String>)
    ensures
        text::texts(r@) == keys_among(all@, text::texts(provider_keys@)),
{
    let mut out: Vec<String> = Vec::new();
    let mut i: usize = 0;
    assert(text::texts(out@) =~= keys_among(all@.take(0), text::texts(provider_keys@)));
    while i < all.len()
        invariant
            i <= all@.len(),
            text::texts(out@) == keys_among(all@.take(i as int), text::texts(provider_keys@)),
        decreases all@.len() - i,
    {
        assert(all@.take(i + 1).drop_last() =~= all@.take(i as int));
        if payment::contains_text(provider_keys, all[i].provider_key.as_str()) {
            let ghost before = text::texts(out@);
            out.push(all[i].provider_key.clone());
            assert(text::texts(out@) =~= before.push(all@[i as int].provider_key@));
        }
        i += 1;
    }
    assert(all@.take(i as int) =~= all@);
    out
}

/// A provider is among those that have an instance exactly where it is one that was asked for
/// and some instance is of it.
pub proof fn law_keys_are_those_of_instances(
    records: Seq<ProviderInstanceRecord>,
    keys: Seq<Seq<char>>,
    key: Seq<char>,
)
    ensures
        keys_among(records, keys).contains(key) <==> keys.contains(key) && exists|i: int|
            0 <= i < records.len() && (#[trigger] records[i]).provider_key@ == key,
    decreases records.len(),
{
    if records.len() > 0 {
        let n = records.len() - 1;
        let before = records.drop_last();
        let found = keys_among(before, keys);
        law_keys_are_those_of_instances(before, keys, key);
        if exists|i: int| 0 <= i < records.len() && (#[trigger] records[i]).provider_key@ == key {
            let i = choose|i: int|
                0 <= i < records.len() && (#[trigger] records[i]).provider_key@ == key;
            if i < n {
                assert(before[i].provider_key@ == key);
            }
        }
        if exists|i: int| 0 <= i < before.len() && (#[trigger] before[i]).provider_key@ == key {
            let i = choose|i: int|
                0 <= i < before.len() && (#[trigger] before[i]).provider_key@ == key;
            assert(records[i].provider_key@ == key);
        }
        assert(records[n].provider_key@ == records.last().provider_key@);
        if keys.contains(records.last().provider_key@) {
            let all = found.push(records.last().provider_key@);
            assert(all.last() == records.last().provider_key@);
            if found.contains(key) {
                let j = choose|j: int| 0 <= j < found.len() && found[j] == key;
                assert(all[j] == key);
            }
            if all.contains(key) {
                let j = choose|j: int| 0 <= j < all.len() && all[j] == key;
                if j < found.len() {
                    assert(found[j] == key);
                }
            }
        }
    } else {
        assert(!keys_among(records, keys).contains(key));
    }
}

/// The statuses under which an order of an instance is still under way are those of one that is
/// open, paid or being credited.
pub proof fn law_orders_under_way_are_counted()
    ensures
        PENDING_STATUSES@.len() == 3,
        PENDING_STATUSES@[0]@ == "PENDING"@,
        PENDING_STATUSES@[1]@ == "PAID"@,
        PENDING_STATUSES@[2]@ == "RECHARGING"@,
{
}

}
