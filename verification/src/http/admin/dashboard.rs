//! The dashboard: what was ordered and paid, by day, by user and by payment method. Amounts
//! are in cents.
use vstd::prelude::*;

use crate::clock;
use crate::db;
use crate::db::{Column, SqlValue};
use crate::maps::TextMap;
use crate::text;

verus! {

pub const PAID_SINCE: &'static str =
    "SELECT COALESCE(SUM(amount_cents), 0), COUNT(*) FROM orders WHERE status IN ('PAID','RECHARGING','COMPLETED','REFUNDING','REFUNDED','REFUND_FAILED') AND paid_at >= ?1";

pub const PAID_TOTAL: &'static str =
    "SELECT COALESCE(SUM(amount_cents), 0), COUNT(*) FROM orders WHERE status IN ('PAID','RECHARGING','COMPLETED','REFUNDING','REFUNDED','REFUND_FAILED')";

pub const ORDERS_SINCE: &'static str =
    "SELECT COUNT(*) FROM orders WHERE created_at >= ?1";

pub const ORDERS_TOTAL: &'static str =
    "SELECT COUNT(*) FROM orders";

pub const SUBSCRIPTIONS_PAID_SINCE: &'static str =
    "SELECT COALESCE(SUM(amount_cents), 0), COUNT(*) FROM orders WHERE status IN ('PAID','RECHARGING','COMPLETED','REFUNDING','REFUNDED','REFUND_FAILED') AND paid_at >= ?1 AND order_type = 'subscription'";

pub const SUBSCRIPTIONS_PAID_TOTAL: &'static str =
    "SELECT COALESCE(SUM(amount_cents), 0), COUNT(*) FROM orders WHERE status IN ('PAID','RECHARGING','COMPLETED','REFUNDING','REFUNDED','REFUND_FAILED') AND order_type = 'subscription'";

pub const SUBSCRIPTION_ORDERS_SINCE: &'static str =
    "SELECT COUNT(*) FROM orders WHERE created_at >= ?1 AND order_type = 'subscription'";

pub const SUBSCRIPTION_ORDERS_TOTAL: &'static str =
    "SELECT COUNT(*) FROM orders WHERE order_type = 'subscription'";

pub const PAID_BY_DAY: &'static str =
    "SELECT strftime('%Y-%m-%d', paid_at + 28800, 'unixepoch') AS biz_date, COALESCE(SUM(amount_cents), 0) AS amount_cents, COUNT(*) AS order_count FROM orders WHERE status IN ('PAID','RECHARGING','COMPLETED','REFUNDING','REFUNDED','REFUND_FAILED') AND paid_at >= ?1 GROUP BY biz_date ORDER BY biz_date";

pub const PAID_BY_USER: &'static str =
    "SELECT user_id, MAX(user_name) AS user_name, MAX(user_email) AS user_email, COALESCE(SUM(amount_cents), 0) AS total_amount_cents, COUNT(*) AS order_count FROM orders WHERE status IN ('PAID','RECHARGING','COMPLETED','REFUNDING','REFUNDED','REFUND_FAILED') AND paid_at >= ?1 GROUP BY user_id ORDER BY total_amount_cents DESC LIMIT 10";

pub const PAID_BY_METHOD: &'static str =
    "SELECT payment_type, COALESCE(SUM(amount_cents), 0) AS total_amount_cents, COUNT(*) AS order_count FROM orders WHERE status IN ('PAID','RECHARGING','COMPLETED','REFUNDING','REFUNDED','REFUND_FAILED') AND paid_at >= ?1 GROUP BY payment_type ORDER BY total_amount_cents DESC";

/// How much, and how many.
#[derive(Debug)]
pub struct AggregateRow {
    pub amount_cents: i64,
    pub count: i64,
}

#[derive(Debug)]
pub struct DailySeriesItem {
    pub date: String,
    pub amount_cents: i64,
    pub count: i64,
}

#[derive(Debug)]
pub struct LeaderboardItem {
    pub user_id: i64,
    pub user_name: Option<String>,
    pub user_email: Option<String>,
    pub total_amount_cents: i64,
    pub order_count: i64,
}

#[derive(Debug)]
pub struct PaymentMethodItem {
    pub payment_type: String,
    pub amount_cents: i64,
    pub count: i64,
}

/// The columns of a sum and a count.
pub open spec fn aggregate_columns() -> Seq<Column> {
    seq![
        Column::Int,
        Column::Int,
    ]
}

fn aggregate_column_list() -> (r: Vec<Column>)
    ensures
        r@ == aggregate_columns(),
{
    vec![
        Column::Int,
        Column::Int,
    ]
}

/// The record `o` is what the row holds.
pub open spec fn aggregate_row_reads(row: Seq<SqlValue>, o: AggregateRow) -> bool {
    &&& db::sql_int(row[0]) == Ok::<int, Seq<char>>(o.amount_cents as int)
    &&& db::sql_int(row[1]) == Ok::<int, Seq<char>>(o.count as int)
}

/// Reads one row. A row that does not fit the columns is refused for its first
/// column that does not.
pub fn read_aggregate(row: &Vec<SqlValue>) -> (r: Result<AggregateRow, String>)
    ensures
        match r {
            Ok(o) => db::row_error(
                row@,
                aggregate_columns(),
            ) is None && aggregate_row_reads(row@, o),
            Err(e) => db::row_error(row@, aggregate_columns()) == Some(e@),
        },
{
    let columns = aggregate_column_list();
    if let Some(e) = db::check_row(row, &columns) {
        return Err(e);
    }
    proof {
        db::lemma_row_fits(row@, aggregate_columns());
    }
    Ok(
        AggregateRow {
            amount_cents: db::int_in(&row[0]),
            count: db::int_in(&row[1]),
        },
    )
}

/// The columns of a day.
pub open spec fn day_columns() -> Seq<Column> {
    seq![
        Column::Text,
        Column::Int,
        Column::Int,
    ]
}

fn day_column_list() -> (r: Vec<Column>)
    ensures
        r@ == day_columns(),
{
    vec![
        Column::Text,
        Column::Int,
        Column::Int,
    ]
}

/// The record `o` is what the row holds.
pub open spec fn day_row_reads(row: Seq<SqlValue>, o: DailySeriesItem) -> bool {
    &&& db::sql_text(row[0]) == Ok::<Seq<char>, Seq<char>>(o.date@)
    &&& db::sql_int(row[1]) == Ok::<int, Seq<char>>(o.amount_cents as int)
    &&& db::sql_int(row[2]) == Ok::<int, Seq<char>>(o.count as int)
}

/// Reads one row. A row that does not fit the columns is refused for its first
/// column that does not.
pub fn read_day(row: &Vec<SqlValue>) -> (r: Result<DailySeriesItem, String>)
    ensures
        match r {
            Ok(o) => db::row_error(row@, day_columns()) is None && day_row_reads(row@, o),
            Err(e) => db::row_error(row@, day_columns()) == Some(e@),
        },
{
    let columns = day_column_list();
    if let Some(e) = db::check_row(row, &columns) {
        return Err(e);
    }
    proof {
        db::lemma_row_fits(row@, day_columns());
    }
    Ok(
        DailySeriesItem {
            date: db::text_in(&row[0]),
            amount_cents: db::int_in(&row[1]),
            count: db::int_in(&row[2]),
        },
    )
}

/// The columns of a user.
pub open spec fn leader_columns() -> Seq<Column> {
    seq![
        Column::Int,
        Column::OptText,
        Column::OptText,
        Column::Int,
        Column::Int,
    ]
}

fn leader_column_list() -> (r: Vec<Column>)
    ensures
        r@ == leader_columns(),
{
    vec![
        Column::Int,
        Column::OptText,
        Column::OptText,
        Column::Int,
        Column::Int,
    ]
}

/// The record `o` is what the row holds.
pub open spec fn leader_row_reads(row: Seq<SqlValue>, o: LeaderboardItem) -> bool {
    &&& db::sql_int(row[0]) == Ok::<int, Seq<char>>(o.user_id as int)
    &&& db::opt_text_is(row[1], o.user_name)
    &&& db::opt_text_is(row[2], o.user_email)
    &&& db::sql_int(row[3]) == Ok::<int, Seq<char>>(o.total_amount_cents as int)
    &&& db::sql_int(row[4]) == Ok::<int, Seq<char>>(o.order_count as int)
}

/// Reads one row. A row that does not fit the columns is refused for its first
/// column that does not.
pub fn read_leader(row: &Vec<SqlValue>) -> (r: Result<LeaderboardItem, String>)
    ensures
        match r {
            Ok(o) => db::row_error(row@, leader_columns()) is None && leader_row_reads(row@, o),
            Err(e) => db::row_error(row@, leader_columns()) == Some(e@),
        },
{
    let columns = leader_column_list();
    if let Some(e) = db::check_row(row, &columns) {
        return Err(e);
    }
    proof {
        db::lemma_row_fits(row@, leader_columns());
    }
    Ok(
        LeaderboardItem {
            user_id: db::int_in(&row[0]),
            user_name: db::opt_text_in(&row[1]),
            user_email: db::opt_text_in(&row[2]),
            total_amount_cents: db::int_in(&row[3]),
            order_count: db::int_in(&row[4]),
        },
    )
}

/// The columns of a payment method.
pub open spec fn method_columns() -> Seq<Column> {
    seq![
        Column::Text,
        Column::Int,
        Column::Int,
    ]
}

fn method_column_list() -> (r: Vec<Column>)
    ensures
        r@ == method_columns(),
{
    vec![
        Column::Text,
        Column::Int,
        Column::Int,
    ]
}

/// The record `o` is what the row holds.
pub open spec fn method_row_reads(row: Seq<SqlValue>, o: PaymentMethodItem) -> bool {
    &&& db::sql_text(row[0]) == Ok::<Seq<char>, Seq<char>>(o.payment_type@)
    &&& db::sql_int(row[1]) == Ok::<int, Seq<char>>(o.amount_cents as int)
    &&& db::sql_int(row[2]) == Ok::<int, Seq<char>>(o.count as int)
}

/// Reads one row. A row that does not fit the columns is refused for its first
/// column that does not.
pub fn read_method(row: &Vec<SqlValue>) -> (r: Result<PaymentMethodItem, String>)
    ensures
        match r {
            Ok(o) => db::row_error(row@, method_columns()) is None && method_row_reads(row@, o),
            Err(e) => db::row_error(row@, method_columns()) == Some(e@),
        },
{
    let columns = method_column_list();
    if let Some(e) = db::check_row(row, &columns) {
        return Err(e);
    }
    proof {
        db::lemma_row_fits(row@, method_columns());
    }
    Ok(
        PaymentMethodItem {
            payment_type: db::text_in(&row[0]),
            amount_cents: db::int_in(&row[1]),
            count: db::int_in(&row[2]),
        },
    )
}

// ---------------------------------------------------------------------------
// Days
// ---------------------------------------------------------------------------
/// Which days are shown: today, and so many before.
#[derive(Debug, Clone, Copy, PartialEq, Eq, Structural)]
pub struct Window {
    pub days: i64,
    pub today_start: i64,
    pub start: i64,
}

pub open spec fn days_shown(asked: Option<i64>) -> i64 {
    match asked {
        None => 30,
        Some(n) => if n < 1 {
            1
        } else if n > 365 {
            365
        } else {
            n
        },
    }
}

pub open spec fn window(asked: Option<i64>, now: int) -> Window {
    Window {
        days: days_shown(asked),
        today_start: clock::biz_day_start(now) as i64,
        start: (clock::biz_day_start(now) - days_shown(asked) * 86_400) as i64,
    }
}

pub fn dashboard_window(asked: Option<i64>, now: i64) -> (r: Window)
    requires
        now <= i64::MAX - clock::BIZ_OFFSET_SECONDS,
        clock::biz_day_start(now as int) - days_shown(asked) * 86_400 >= i64::MIN,
    ensures
        r == window(asked, now as int),
        1 <= r.days <= 365,
        r.start == r.today_start - r.days * 86_400,
        now + clock::BIZ_OFFSET_SECONDS >= 0 ==> r.today_start <= now < r.today_start + 86_400,
{
    let days: i64 = match asked {
        None => 30,
        Some(n) => if n < 1 {
            1
        } else if n > 365 {
            365
        } else {
            n
        },
    };
    let today_start: i64 = clock::get_biz_day_start_utc_timestamp(now);
    proof {
        if now + clock::BIZ_OFFSET_SECONDS >= 0 {
            clock::law_biz_day_holds_its_moments(now as int, now as int);
        }
    }
    Window { days, today_start, start: today_start - days * 86_400 }
}

/// What was paid on each day, by its date: of two entries under one date, the later.
pub open spec fn by_date(rows: Seq<DailySeriesItem>) -> Map<Seq<char>, (i64, i64)>
    decreases rows.len(),
{
    if rows.len() == 0 {
        Map::empty()
    } else {
        by_date(rows.drop_last()).insert(
            rows.last().date@,
            (rows.last().amount_cents, rows.last().count),
        )
    }
}

/// A day of the series: its date, how much, and how many.
pub type Day = (Seq<char>, i64, i64);

/// One entry for each day from `cursor` to `now`: what was paid on it, or nothing. What is
/// known of a date is shown once.
pub open spec fn series(paid: Map<Seq<char>, (i64, i64)>, cursor: int, now: int) -> Seq<Day>
    decreases now - cursor + 86_400,
{
    if cursor > now {
        Seq::empty()
    } else {
        let date = clock::biz_date(cursor);
        let (cents, count) = if paid.dom().contains(date) {
            paid[date]
        } else {
            (0i64, 0i64)
        };
        seq![(date, cents, count)] + series(paid.remove(date), cursor + 86_400, now)
    }
}

pub open spec fn days_of(items: Seq<DailySeriesItem>) -> Seq<Day> {
    items.map_values(|i: DailySeriesItem| (i.date@, i.amount_cents, i.count))
}

/// The series has an entry for every day of the window, the last of which is today.
pub proof fn law_series_has_every_day(
    paid: Map<Seq<char>, (i64, i64)>,
    today_start: int,
    days: nat,
    now: int,
)
    requires
        today_start <= now < today_start + 86_400,
    ensures
        series(paid, today_start - days * 86_400, now).len() == days + 1,
        series(paid, today_start - days * 86_400, now).last().0 == clock::biz_date(today_start),
        series(paid, today_start - days * 86_400, now)[0].0 == clock::biz_date(
            today_start - days * 86_400,
        ),
    decreases days,
{
    let cursor = today_start - days * 86_400;
    let date = clock::biz_date(cursor);
    let rest = series(paid.remove(date), cursor + 86_400, now);
    if days == 0 {
        assert(rest.len() == 0);
    } else {
        law_series_has_every_day(paid.remove(date), today_start, (days - 1) as nat, now);
        assert(cursor + 86_400 == today_start - (days - 1) * 86_400);
        assert(series(paid, cursor, now).last() == rest.last());
    }
}

/// The date so many days after a point in time.
pub open spec fn date_after(cursor: int, days: nat) -> Seq<char> {
    clock::biz_date(cursor + days * 86_400)
}

/// A day on which something was paid is shown with what was paid, where no day before it in
/// the series has its date.
pub proof fn law_paid_days_are_shown(
    paid: Map<Seq<char>, (i64, i64)>,
    cursor: int,
    now: int,
    later: nat,
)
    requires
        cursor + later * 86_400 <= now,
        forall|k: nat| k < later ==> #[trigger] date_after(cursor, k) != date_after(cursor, later),
    ensures
        series(paid, cursor, now).len() > later,
        series(paid, cursor, now)[later as int].0 == date_after(cursor, later),
        paid.dom().contains(date_after(cursor, later)) ==> (
        series(paid, cursor, now)[later as int].1, series(paid, cursor, now)[later as int].2)
            == paid[date_after(cursor, later)],
    decreases later,
{
    let date = clock::biz_date(cursor);
    let rest = series(paid.remove(date), cursor + 86_400, now);
    if later > 0 {
        let before = (later - 1) as nat;
        assert(cursor + 86_400 + before * 86_400 == cursor + later * 86_400);
        assert forall|k: nat| k < before implies #[trigger] date_after(cursor + 86_400, k)
            != date_after(cursor + 86_400, before) by {
            let j: nat = k + 1;
            assert(cursor + 86_400 + k * 86_400 == cursor + j * 86_400);
            assert(date_after(cursor, j) != date_after(cursor, later));
        }
        assert(date_after(cursor, 0) != date_after(cursor, later));
        law_paid_days_are_shown(paid.remove(date), cursor + 86_400, now, before);
        assert(series(paid, cursor, now)[later as int] == rest[before as int]);
    }
}

fn date_map(rows: Vec<DailySeriesItem>) -> (r: TextMap<(i64, i64)>)
    ensures
        r.wf(),
        r@ == by_date(rows@),
{
    let mut out: TextMap<(i64, i64)> = TextMap::new();
    let mut i: usize = 0;
    assert(rows@.take(0) =~= Seq::<DailySeriesItem>::empty());
    while i < rows.len()
        invariant
            i <= rows@.len(),
            out.wf(),
            out@ == by_date(rows@.take(i as int)),
        decreases rows@.len() - i,
    {
        assert(rows@.take(i + 1).drop_last() =~= rows@.take(i as int));
        out.insert(rows[i].date.clone(), (rows[i].amount_cents, rows[i].count));
        i += 1;
    }
    assert(rows@.take(i as int) =~= rows@);
    out
}

/// Fills the days on which nothing was paid.
pub fn fill_daily_series(rows: Vec<DailySeriesItem>, start: i64, now: i64) -> (r: Vec<
    DailySeriesItem,
>)
    requires
        now <= i64::MAX - 86_400,
    ensures
        days_of(r@) == series(by_date(rows@), start as int, now as int),
{
    let mut paid = date_map(rows);
    let ghost all = series(paid@, start as int, now as int);
    let mut out: Vec<DailySeriesItem> = Vec::new();
    let mut cursor: i64 = start;
    assert(days_of(out@) =~= Seq::<Day>::empty());
    assert(days_of(out@) + series(paid@, cursor as int, now as int) =~= all);
    while cursor <= now
        invariant
            now <= i64::MAX - 86_400,
            paid.wf(),
            days_of(out@) + series(paid@, cursor as int, now as int) == all,
        decreases now - cursor + 86_400,
    {
        let date = clock::biz_date_str(cursor);
        let ghost shown = days_of(out@);
        let ghost known = paid@;
        let ghost d = date@;
        let (amount_cents, count) = match paid.remove(date.as_str()) {
            Some(found) => found,
            None => (0, 0),
        };
        assert(paid@ == known.remove(d));
        out.push(DailySeriesItem { date, amount_cents, count });
        proof {
            assert(days_of(out@) =~= shown.push((d, amount_cents, count)));
            assert(series(known, cursor as int, now as int) == seq![(d, amount_cents, count)]
                + series(paid@, cursor + 86_400, now as int));
            assert(days_of(out@) + series(paid@, cursor + 86_400, now as int) =~= shown + series(
                known,
                cursor as int,
                now as int,
            ));
        }
        cursor += 86_400;
    }
    assert(days_of(out@) =~= all);
    out
}

// ---------------------------------------------------------------------------
// The whole
// ---------------------------------------------------------------------------
/// What was asked of the database.
#[derive(Debug)]
pub struct DashboardFacts {
    pub today_paid: AggregateRow,
    pub total_paid: AggregateRow,
    pub today_orders: i64,
    pub total_orders: i64,
    pub sub_today_paid: AggregateRow,
    pub sub_total_paid: AggregateRow,
    pub sub_today_orders: i64,
    pub sub_total_orders: i64,
    pub daily_rows: Vec<DailySeriesItem>,
    pub leaderboard: Vec<LeaderboardItem>,
    pub payment_methods: Vec<PaymentMethodItem>,
}

#[derive(Debug, Clone, Copy, PartialEq, Eq, Structural)]
pub struct SummaryBucket {
    pub amount_cents: i64,
    pub order_count: i64,
    pub paid_count: i64,
}

pub open spec fn bucket(paid: AggregateRow, orders: i64) -> SummaryBucket {
    SummaryBucket { amount_cents: paid.amount_cents, order_count: orders, paid_count: paid.count }
}

fn make_bucket(paid: &AggregateRow, orders: i64) -> (r: SummaryBucket)
    ensures
        r == bucket(*paid, orders),
{
    SummaryBucket { amount_cents: paid.amount_cents, order_count: orders, paid_count: paid.count }
}

#[derive(Debug)]
pub struct Dashboard {
    pub today: SummaryBucket,
    pub total: SummaryBucket,
    pub subscription_today: SummaryBucket,
    pub subscription_total: SummaryBucket,
    pub daily_series: Vec<DailySeriesItem>,
    pub leaderboard: Vec<LeaderboardItem>,
    pub payment_methods: Vec<PaymentMethodItem>,
    pub days: i64,
    pub generated_at: String,
}

/// Puts the dashboard together.
pub fn build_dashboard_response(facts: DashboardFacts, window: Window, now: i64) -> (r: Dashboard)
    requires
        now <= i64::MAX - 86_400,
    ensures
        r.today == bucket(facts.today_paid, facts.today_orders),
        r.total == bucket(facts.total_paid, facts.total_orders),
        r.subscription_today == bucket(facts.sub_today_paid, facts.sub_today_orders),
        r.subscription_total == bucket(facts.sub_total_paid, facts.sub_total_orders),
        days_of(r.daily_series@) == series(
            by_date(facts.daily_rows@),
            window.start as int,
            now as int,
        ),
        r.leaderboard == facts.leaderboard,
        r.payment_methods == facts.payment_methods,
        r.days == window.days,
        r.generated_at@ == clock::shown_time(now),
{
    let today = make_bucket(&facts.today_paid, facts.today_orders);
    let total = make_bucket(&facts.total_paid, facts.total_orders);
    let subscription_today = make_bucket(&facts.sub_today_paid, facts.sub_today_orders);
    let subscription_total = make_bucket(&facts.sub_total_paid, facts.sub_total_orders);
    let daily_series = fill_daily_series(facts.daily_rows, window.start, now);
    Dashboard {
        today,
        total,
        subscription_today,
        subscription_total,
        daily_series,
        leaderboard: facts.leaderboard,
        payment_methods: facts.payment_methods,
        days: window.days,
        generated_at: clock::timestamp_to_rfc3339(now),
    }
}

/// A dashboard shows thirty days before today unless it is asked for others, one at least and a
/// year at most; its window begins so many days before today does.
pub proof fn law_windows_begin_days_before_today(asked: Option<i64>, now: int)
    requires
        now + 28_800 >= 0,
        now <= i64::MAX - 28_800,
    ensures
        asked is None ==> window(asked, now).days == 30,
        asked matches Some(n) ==> 1 <= n <= 365 ==> window(asked, now).days == n,
        asked matches Some(n) ==> n < 1 ==> window(asked, now).days == 1,
        asked matches Some(n) ==> n > 365 ==> window(asked, now).days == 365,
        window(asked, now).today_start <= now < window(asked, now).today_start + 86_400,
        (window(asked, now).today_start + 28_800) % 86_400 == 0,
        window(asked, now).start == window(asked, now).today_start - window(asked, now).days
            * 86_400,
{
    clock::law_business_days_begin_at_their_midnight(now);
}

/// A sum is shown as what was paid, how many orders were paid, and how many were placed.
pub proof fn law_sums_are_shown_as_they_are(paid: AggregateRow, orders: i64)
    ensures
        bucket(paid, orders).amount_cents == paid.amount_cents,
        bucket(paid, orders).paid_count == paid.count,
        bucket(paid, orders).order_count == orders,
{
}

/// A day on which nothing was paid is shown with nothing; and what was paid on a date is what
/// the last line of that date says.
pub proof fn law_days_show_what_was_paid(
    rows: Seq<DailySeriesItem>,
    date: Seq<char>,
    i: int,
    cursor: int,
    now: int,
)
    ensures
        0 <= i < rows.len() && rows[i].date@ == date && (forall|j: int|
            i < j < rows.len() ==> (#[trigger] rows[j]).date@ != date) ==> by_date(
            rows,
        ).dom().contains(date) && by_date(rows)[date] == (rows[i].amount_cents, rows[i].count),
        (forall|j: int| 0 <= j < rows.len() ==> (#[trigger] rows[j]).date@ != date) ==> !by_date(
            rows,
        ).dom().contains(date),
        cursor <= now && !by_date(rows).dom().contains(clock::biz_date(cursor)) ==> series(
            by_date(rows),
            cursor,
            now,
        )[0] == (clock::biz_date(cursor), 0i64, 0i64),
    decreases rows.len(),
{
    if rows.len() > 0 {
        let before = rows.drop_last();
        let n = before.len() as int;
        assert(rows[n] == rows.last());
        law_days_show_what_was_paid(before, date, i, cursor, now);
        if forall|j: int| 0 <= j < rows.len() ==> (#[trigger] rows[j]).date@ != date {
            assert(rows[n].date@ != date);
            assert forall|j: int| 0 <= j < before.len() implies (#[trigger] before[j]).date@
                != date by {
                assert(rows[j].date@ != date);
            }
        }
        if 0 <= i < n && (forall|j: int|
            i < j < rows.len() ==> (#[trigger] rows[j]).date@ != date) {
            assert(rows[n].date@ != date);
            assert forall|j: int| i < j < before.len() implies (#[trigger] before[j]).date@
                != date by {
                assert(rows[j].date@ != date);
            }
        }
    }
}

/// The dashboard shows of today what was paid and placed today, and of all what was paid and
/// placed at all; of subscriptions likewise.
pub proof fn law_dashboards_show_their_sums(
    facts: DashboardFacts,
    window: Window,
    now: i64,
    r: Dashboard,
)
    requires
        call_ensures(build_dashboard_response, (facts, window, now), r),
    ensures
        r.today.amount_cents == facts.today_paid.amount_cents,
        r.today.paid_count == facts.today_paid.count,
        r.today.order_count == facts.today_orders,
        r.total.amount_cents == facts.total_paid.amount_cents,
        r.total.paid_count == facts.total_paid.count,
        r.total.order_count == facts.total_orders,
        r.subscription_today.amount_cents == facts.sub_today_paid.amount_cents,
        r.subscription_today.paid_count == facts.sub_today_paid.count,
        r.subscription_today.order_count == facts.sub_today_orders,
        r.subscription_total.amount_cents == facts.sub_total_paid.amount_cents,
        r.subscription_total.paid_count == facts.sub_total_paid.count,
        r.subscription_total.order_count == facts.sub_total_orders,
        r.days == window.days,
        r.leaderboard == facts.leaderboard && r.payment_methods == facts.payment_methods,
{
}

/// What is paid since a time is what is paid at all, at that time or later; and what is paid
/// for subscriptions is what is paid, for subscriptions.
pub proof fn law_sums_are_over_the_same_orders()
    ensures
        PAID_SINCE@ == PAID_TOTAL@ + " AND paid_at >= ?1"@,
        SUBSCRIPTIONS_PAID_SINCE@ == PAID_SINCE@ + " AND order_type = 'subscription'"@,
        SUBSCRIPTIONS_PAID_TOTAL@ == PAID_TOTAL@ + " AND order_type = 'subscription'"@,
        ORDERS_SINCE@ == ORDERS_TOTAL@ + " WHERE created_at >= ?1"@,
        SUBSCRIPTION_ORDERS_SINCE@ == ORDERS_SINCE@ + " AND order_type = 'subscription'"@,
        SUBSCRIPTION_ORDERS_TOTAL@ == ORDERS_TOTAL@ + " WHERE order_type = 'subscription'"@,
        PAID_TOTAL@ == "SELECT COALESCE(SUM(amount_cents), 0), COUNT(*) FROM orders"@
            + " WHERE status IN ("@ + text::joined(
            seq![
                "'PAID'"@,
                "'RECHARGING'"@,
                "'COMPLETED'"@,
                "'REFUNDING'"@,
                "'REFUNDED'"@,
                "'REFUND_FAILED'"@,
            ],
            ","@,
        ) + ")"@,
{
    reveal_strlit(
        "SELECT COALESCE(SUM(amount_cents), 0), COUNT(*) FROM orders WHERE status IN ('PAID','RECHARGING','COMPLETED','REFUNDING','REFUNDED','REFUND_FAILED') AND paid_at >= ?1",
    );
    reveal_strlit(
        "SELECT COALESCE(SUM(amount_cents), 0), COUNT(*) FROM orders WHERE status IN ('PAID','RECHARGING','COMPLETED','REFUNDING','REFUNDED','REFUND_FAILED')",
    );
    reveal_strlit(
        "SELECT COALESCE(SUM(amount_cents), 0), COUNT(*) FROM orders WHERE status IN ('PAID','RECHARGING','COMPLETED','REFUNDING','REFUNDED','REFUND_FAILED') AND paid_at >= ?1 AND order_type = 'subscription'",
    );
    reveal_strlit(
        "SELECT COALESCE(SUM(amount_cents), 0), COUNT(*) FROM orders WHERE status IN ('PAID','RECHARGING','COMPLETED','REFUNDING','REFUNDED','REFUND_FAILED') AND order_type = 'subscription'",
    );
    reveal_strlit("SELECT COUNT(*) FROM orders WHERE created_at >= ?1");
    reveal_strlit("SELECT COUNT(*) FROM orders");
    reveal_strlit(
        "SELECT COUNT(*) FROM orders WHERE created_at >= ?1 AND order_type = 'subscription'",
    );
    reveal_strlit("SELECT COUNT(*) FROM orders WHERE order_type = 'subscription'");
    reveal_strlit(" AND paid_at >= ?1");
    reveal_strlit(" AND order_type = 'subscription'");
    reveal_strlit(" WHERE created_at >= ?1");
    reveal_strlit(" WHERE order_type = 'subscription'");
    reveal_strlit("SELECT COALESCE(SUM(amount_cents), 0), COUNT(*) FROM orders");
    reveal_strlit(" WHERE status IN (");
    reveal_strlit(")");
    reveal_strlit(",");
    reveal_strlit("'PAID'");
    reveal_strlit("'RECHARGING'");
    reveal_strlit("'COMPLETED'");
    reveal_strlit("'REFUNDING'");
    reveal_strlit("'REFUNDED'");
    reveal_strlit("'REFUND_FAILED'");
    assert(PAID_SINCE@ =~= PAID_TOTAL@ + " AND paid_at >= ?1"@);
    assert(SUBSCRIPTIONS_PAID_SINCE@ =~= PAID_SINCE@ + " AND order_type = 'subscription'"@);
    assert(SUBSCRIPTIONS_PAID_TOTAL@ =~= PAID_TOTAL@ + " AND order_type = 'subscription'"@);
    assert(ORDERS_SINCE@ =~= ORDERS_TOTAL@ + " WHERE created_at >= ?1"@);
    assert(SUBSCRIPTION_ORDERS_SINCE@ =~= ORDERS_SINCE@ + " AND order_type = 'subscription'"@);
    assert(SUBSCRIPTION_ORDERS_TOTAL@ =~= ORDERS_TOTAL@ + " WHERE order_type = 'subscription'"@);
    let a = seq!["'PAID'"@];
    let b = a.push("'RECHARGING'"@);
    let c = b.push("'COMPLETED'"@);
    let d = c.push("'REFUNDING'"@);
    let e = d.push("'REFUNDED'"@);
    let f = e.push("'REFUND_FAILED'"@);
    assert(b.drop_last() =~= a && c.drop_last() =~= b && d.drop_last() =~= c && e.drop_last()
        =~= d && f.drop_last() =~= e);
    assert(text::joined(a, ","@) == "'PAID'"@);
    assert(text::joined(b, ","@) == text::joined(a, ","@) + ","@ + "'RECHARGING'"@);
    assert(text::joined(c, ","@) == text::joined(b, ","@) + ","@ + "'COMPLETED'"@);
    assert(text::joined(d, ","@) == text::joined(c, ","@) + ","@ + "'REFUNDING'"@);
    assert(text::joined(e, ","@) == text::joined(d, ","@) + ","@ + "'REFUNDED'"@);
    assert(text::joined(f, ","@) == text::joined(e, ","@) + ","@ + "'REFUND_FAILED'"@);
    assert(f =~= seq![
        "'PAID'"@,
        "'RECHARGING'"@,
        "'COMPLETED'"@,
        "'REFUNDING'"@,
        "'REFUNDED'"@,
        "'REFUND_FAILED'"@,
    ]);
    assert(PAID_TOTAL@ =~= "SELECT COALESCE(SUM(amount_cents), 0), COUNT(*) FROM orders"@
        + " WHERE status IN ("@ + text::joined(f, ","@) + ")"@);
}

}
