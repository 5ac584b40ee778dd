//! Subscription plans: what they hold, how they are stored, and how long what they
//! grant is valid.
use vstd::prelude::*;

use crate::clock;
use crate::clock::Moment;
use crate::db;
use crate::db::{Column, SqlValue};
use crate::text;

verus! {

#[derive(Debug)]
pub struct SubscriptionPlanRecord {
    pub id: String,
    pub group_id: Option<i64>,
    pub name: String,
    pub description: Option<String>,
    pub price_cents: i64,
    pub original_price_cents: Option<i64>,
    pub validity_days: i64,
    pub validity_unit: String,
    pub features: Option<String>,
    pub product_name: Option<String>,
    pub for_sale: bool,
    pub sort_order: i64,
    pub created_at: i64,
    pub updated_at: i64,
}

#[derive(Debug)]
pub struct SubscriptionPlanWrite {
    pub group_id: Option<i64>,
    pub name: String,
    pub description: Option<String>,
    pub price_cents: i64,
    pub original_price_cents: Option<i64>,
    pub validity_days: i64,
    pub validity_unit: String,
    pub features: Option<String>,
    pub product_name: Option<String>,
    pub for_sale: bool,
    pub sort_order: i64,
}

/// The columns of the plan table, in the order in which a row holds them.
pub open spec fn plan_columns() -> Seq<Column> {
    seq![
        Column::Text,
        Column::OptInt,
        Column::Text,
        Column::OptText,
        Column::Int,
        Column::OptInt,
        Column::Int,
        Column::Text,
        Column::OptText,
        Column::OptText,
        Column::Flag,
        Column::Int,
        Column::Int,
        Column::Int,
    ]
}

fn plan_column_list() -> (r: Vec<Column>)
    ensures
        r@ == plan_columns(),
{
    vec![
        Column::Text,
        Column::OptInt,
        Column::Text,
        Column::OptText,
        Column::Int,
        Column::OptInt,
        Column::Int,
        Column::Text,
        Column::OptText,
        Column::OptText,
        Column::Flag,
        Column::Int,
        Column::Int,
        Column::Int,
    ]
}

/// The record `o` is what the row holds.
pub open spec fn plan_row_reads(row: Seq<SqlValue>, o: SubscriptionPlanRecord) -> bool {
    &&& db::sql_text(row[0]) == Ok::<Seq<char>, Seq<char>>(o.id@)
    &&& db::opt_int_is(row[1], o.group_id)
    &&& db::sql_text(row[2]) == Ok::<Seq<char>, Seq<char>>(o.name@)
    &&& db::opt_text_is(row[3], o.description)
    &&& db::sql_int(row[4]) == Ok::<int, Seq<char>>(o.price_cents as int)
    &&& db::opt_int_is(row[5], o.original_price_cents)
    &&& db::sql_int(row[6]) == Ok::<int, Seq<char>>(o.validity_days as int)
    &&& db::sql_text(row[7]) == Ok::<Seq<char>, Seq<char>>(o.validity_unit@)
    &&& db::opt_text_is(row[8], o.features)
    &&& db::opt_text_is(row[9], o.product_name)
    &&& db::sql_flag(row[10]) == Ok::<bool, Seq<char>>(o.for_sale)
    &&& db::sql_int(row[11]) == Ok::<int, Seq<char>>(o.sort_order as int)
    &&& db::sql_int(row[12]) == Ok::<int, Seq<char>>(o.created_at as int)
    &&& db::sql_int(row[13]) == Ok::<int, Seq<char>>(o.updated_at as int)
}

/// Reads one row. A row that does not fit the columns is refused for its first
/// column that does not.
pub fn parse_plan_row(row: &Vec<SqlValue>) -> (r: Result<SubscriptionPlanRecord, String>)
    ensures
        match r {
            Ok(o) => db::row_error(row@, plan_columns()) is None && plan_row_reads(row@, o),
            Err(e) => db::row_error(row@, plan_columns()) == Some(e@),
        },
{
    let columns = plan_column_list();
    if let Some(e) = db::check_row(row, &columns) {
        return Err(e);
    }
    proof {
        db::lemma_row_fits(row@, plan_columns());
    }
    Ok(
        SubscriptionPlanRecord {
            id: db::text_in(&row[0]),
            group_id: db::opt_int_in(&row[1]),
            name: db::text_in(&row[2]),
            description: db::opt_text_in(&row[3]),
            price_cents: db::int_in(&row[4]),
            original_price_cents: db::opt_int_in(&row[5]),
            validity_days: db::int_in(&row[6]),
            validity_unit: db::text_in(&row[7]),
            features: db::opt_text_in(&row[8]),
            product_name: db::opt_text_in(&row[9]),
            for_sale: db::flag_in(&row[10]),
            sort_order: db::int_in(&row[11]),
            created_at: db::int_in(&row[12]),
            updated_at: db::int_in(&row[13]),
        },
    )
}

/// The parameters `row` store `w` under the identifier `id`.
pub open spec fn plan_params_store(row: Seq<SqlValue>, id: Seq<char>, w: SubscriptionPlanWrite) -> bool {
    &&& row.len() == 12
    &&& db::is_text(row[0], id)
    &&& row[1] == db::opt_int_value(w.group_id)
    &&& db::is_text(row[2], w.name@)
    &&& db::is_opt_text(row[3], db::opt_text(w.description))
    &&& row[4] == SqlValue::Integer(w.price_cents)
    &&& row[5] == db::opt_int_value(w.original_price_cents)
    &&& row[6] == SqlValue::Integer(w.validity_days)
    &&& db::is_text(row[7], w.validity_unit@)
    &&& db::is_opt_text(row[8], db::opt_text(w.features))
    &&& db::is_opt_text(row[9], db::opt_text(w.product_name))
    &&& row[10] == db::flag_value(w.for_sale)
    &&& row[11] == SqlValue::Integer(w.sort_order)
}

/// The parameters with which a record is written.
pub fn write_params(id: &str, w: &SubscriptionPlanWrite) -> (r: Vec<SqlValue>)
    ensures
        plan_params_store(r@, id@, *w),
{
    vec![
        db::text_value(id),
        db::write_opt_int(w.group_id),
        db::text_value(w.name.as_str()),
        db::opt_text_value(&w.description),
        SqlValue::Integer(w.price_cents),
        db::write_opt_int(w.original_price_cents),
        SqlValue::Integer(w.validity_days),
        db::text_value(w.validity_unit.as_str()),
        db::opt_text_value(&w.features),
        db::opt_text_value(&w.product_name),
        db::write_flag(w.for_sale),
        SqlValue::Integer(w.sort_order),
    ]
}

/// What is read back of a stored plan is what was written: the parameters, followed
/// by the times at which it was created and changed, read as a record that holds them.
pub proof fn law_stored_plan_reads_back(
    params: Seq<SqlValue>,
    id: Seq<char>,
    w: SubscriptionPlanWrite,
    created_at: i64,
    updated_at: i64,
    o: SubscriptionPlanRecord,
)
    requires
        plan_params_store(params, id, w),
    ensures
        ({
            let row = params.push(SqlValue::Integer(created_at)).push(
                SqlValue::Integer(updated_at),
            );
            &&& db::row_error(row, plan_columns()) is None
            &&& plan_row_reads(row, o) ==> o.id@ == id && plan_holds(o, w) && o.created_at
                == created_at && o.updated_at == updated_at
        }),
{
    let row = params.push(SqlValue::Integer(created_at)).push(SqlValue::Integer(updated_at));
    assert forall|i: int| 0 <= i < plan_columns().len() implies db::column_error(
        plan_columns()[i],
        #[trigger] row[i],
    ) is None by {
        if i < params.len() {
            assert(row[i] == params[i]);
        }
    }
    db::lemma_row_fits_converse(row, plan_columns());
}

/// The record holds what was written.
pub open spec fn plan_holds(o: SubscriptionPlanRecord, w: SubscriptionPlanWrite) -> bool {
    &&& w.group_id == o.group_id
    &&& w.name@ == o.name@
    &&& db::opt_text(w.description) == db::opt_text(o.description)
    &&& w.price_cents == o.price_cents
    &&& w.original_price_cents == o.original_price_cents
    &&& w.validity_days == o.validity_days
    &&& w.validity_unit@ == o.validity_unit@
    &&& db::opt_text(w.features) == db::opt_text(o.features)
    &&& db::opt_text(w.product_name) == db::opt_text(o.product_name)
    &&& w.for_sale == o.for_sale
    &&& w.sort_order == o.sort_order
}

// ---------------------------------------------------------------------------
// Validity
// ---------------------------------------------------------------------------
/// The number of weeks whose days can be counted.
pub const MAX_WEEKS: i64 = 1317624576693539401;

/// A unit of validity as it is written: without white space, in lower case.
pub open spec fn unit_name(unit: Seq<char>) -> Seq<char> {
    text::lowered(text::trimmed(unit))
}

/// A validity in weeks is short enough for its days to be counted.
pub open spec fn validity_fits(value: int, unit: Seq<char>) -> bool {
    unit_name(unit) == "week"@ ==> value <= MAX_WEEKS
}

/// How many days a validity lasts that begins at `from`, or why it has no length.
/// Only months look at the beginning; it is `None` where its text cannot be read.
pub open spec fn validity(
    value: int,
    unit: Seq<char>,
    from: Option<Moment>,
    from_text: Seq<char>,
) -> Result<int, Seq<char>> {
    let name = unit_name(unit);
    if value <= 0 {
        Err("subscription validity must be positive"@)
    } else if name == "day"@ {
        Ok(value)
    } else if name == "week"@ {
        Ok(value * 7)
    } else if name == "month"@ {
        match from {
            None => Err("failed to parse subscription timestamp "@ + from_text),
            Some(m) => if value > u32::MAX {
                Err("subscription month value exceeds u32"@)
            } else {
                match clock::days_to_months_later(m, value as u32) {
                    Some(days) => Ok(days as int),
                    None => Err(
                        "failed to add "@ + text::decimal(value)
                            + " month(s) to subscription date"@,
                    ),
                }
            },
        }
    } else {
        Err("unsupported subscription validity unit "@ + name)
    }
}

/// The result is what `validity` says.
pub open spec fn days_are(r: Result<i64, String>, v: Result<int, Seq<char>>) -> bool {
    match r {
        Ok(days) => v == Ok::<int, Seq<char>>(days as int),
        Err(e) => v == Err::<int, Seq<char>>(e@),
    }
}

/// How many days a validity lasts that begins at a given point in time.
pub fn validity_days_from(
    value: i64,
    unit: &str,
    from: Option<Moment>,
    from_text: &str,
) -> (r: Result<i64, String>)
    requires
        validity_fits(value as int, unit@),
    ensures
        days_are(r, validity(value as int, unit@, from, from_text@)),
        r matches Ok(days) ==> days > 0,
{
    if value <= 0 {
        return Err("subscription validity must be positive".to_owned());
    }
    let name = text::to_ascii_lowercase(text::trim(unit));
    proof {
        reveal_strlit("day");
        reveal_strlit("week");
        reveal_strlit("month");
    }
    if text::same(name.as_str(), "day") {
        Ok(value)
    } else if text::same(name.as_str(), "week") {
        Ok(value * 7)
    } else if text::same(name.as_str(), "month") {
        match from {
            None => {
                let mut e = "failed to parse subscription timestamp ".to_owned();
                e.append(from_text);
                Err(e)
            },
            Some(m) => {
                if value > 4294967295 {
                    return Err("subscription month value exceeds u32".to_owned());
                }
                match clock::add_months(m, value as u32) {
                    Some(days) => Ok(days),
                    None => {
                        let mut e = "failed to add ".to_owned();
                        e.append(text::i64_text(value).as_str());
                        e.append(" month(s) to subscription date");
                        Err(e)
                    },
                }
            },
        }
    } else {
        let mut e = "unsupported subscription validity unit ".to_owned();
        e.append(name.as_str());
        Err(e)
    }
}

/// How many days a validity lasts, from the point in time that an RFC 3339 text
/// names, or else from now. What is granted is never nothing.
pub fn compute_validity_days(value: i64, unit: &str, from_rfc3339: Option<&str>) -> (r: Result<
    i64,
    String,
>)
    requires
        validity_fits(value as int, unit@),
    ensures
        match from_rfc3339 {
            Some(s) => days_are(
                r,
                validity(value as int, unit@, clock::rfc3339_moment(s@), s@),
            ),
            None => exists|now: Moment|
                days_are(r, #[trigger] validity(value as int, unit@, Some(now), Seq::empty())),
        },
        r matches Ok(days) ==> days > 0,
{
    match from_rfc3339 {
        Some(s) => validity_days_from(value, unit, clock::parse_rfc3339(s).ok(), s),
        None => {
            let now = Moment { timestamp: clock::utc_now(), offset: 0 };
            let r = validity_days_from(value, unit, Some(now), "");
            proof {
                reveal_strlit("");
                assert(""@ =~= Seq::<char>::empty());
                assert(days_are(r, validity(value as int, unit@, Some(now), Seq::empty())));
            }
            r
        },
    }
}

/// A validity of days lasts its days, one of weeks seven times as many, and one of months until
/// the same day so many months later; one that is not above zero, or of another unit, is
/// refused.
pub proof fn law_validity_is_in_days(
    value: int,
    unit: Seq<char>,
    from: Option<Moment>,
    from_text: Seq<char>,
)
    ensures
        ({
            let name = text::lowered(text::trimmed(unit));
            let days = validity(value, unit, from, from_text);
            &&& value <= 0 ==> days is Err
            &&& value > 0 && name == "day"@ ==> days == Ok::<int, Seq<char>>(value)
            &&& value > 0 && name == "week"@ ==> days == Ok::<int, Seq<char>>(7 * value)
            &&& name == "month"@ && 0 < value <= u32::MAX && from is Some ==> (match clock::days_to_months_later(
                from->0,
                value as u32,
            ) {
                Some(n) => days == Ok::<int, Seq<char>>(n as int),
                None => days is Err,
            })
            &&& name != "day"@ && name != "week"@ && name != "month"@ ==> days is Err
        }),
{
    reveal_strlit("day");
    reveal_strlit("week");
    reveal_strlit("month");
    assert("day"@.len() == 3 && "week"@.len() == 4 && "month"@.len() == 5);
}

/// The weeks that can be counted in days are just those whose days can be held.
pub proof fn law_weeks_fit_as_their_days_do(value: i64, unit: Seq<char>)
    requires
        text::lowered(text::trimmed(unit)) == "week"@,
    ensures
        validity_fits(value as int, unit) <==> 7 * value <= i64::MAX,
{
}

}

