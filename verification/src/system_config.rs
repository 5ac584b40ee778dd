//! Settings that are kept in the database, and the cache in front of them.
use vstd::prelude::*;

use crate::db;
use crate::db::{Column, SqlValue};
use crate::maps::TextMap;

verus! {

#[derive(Debug)]
pub struct SystemConfigEntry {
    pub key: String,
    pub value: String,
    pub group: String,
    pub label: Option<String>,
    pub updated_at: i64,
}

#[derive(Debug)]
pub struct UpsertSystemConfig {
    pub key: String,
    pub value: String,
    pub group: Option<String>,
    pub label: Option<String>,
}

pub const SELECT_SETTING: &'static str = "SELECT value FROM system_configs WHERE key = ?1";

pub const LIST_SETTINGS: &'static str =
    "SELECT key, value, group_name, label, updated_at FROM system_configs ORDER BY group_name ASC, key ASC";

pub const UPSERT_SETTING: &'static str =
    "INSERT INTO system_configs (key, value, group_name, label, updated_at) VALUES (?1, ?2, ?3, ?4, unixepoch()) ON CONFLICT(key) DO UPDATE SET value = excluded.value, group_name = excluded.group_name, label = excluded.label, updated_at = unixepoch()";

/// The columns of the settings table, in the order in which a row holds them.
pub open spec fn entry_columns() -> Seq<Column> {
    seq![
        Column::Text,
        Column::Text,
        Column::Text,
        Column::OptText,
        Column::StrictInt,
    ]
}

fn entry_column_list() -> (r: Vec<Column>)
    ensures
        r@ == entry_columns(),
{
    vec![
        Column::Text,
        Column::Text,
        Column::Text,
        Column::OptText,
        Column::StrictInt,
    ]
}

/// The record `o` is what the row holds.
pub open spec fn entry_row_reads(row: Seq<SqlValue>, o: SystemConfigEntry) -> bool {
    &&& db::sql_text(row[0]) == Ok::<Seq<char>, Seq<char>>(o.key@)
    &&& db::sql_text(row[1]) == Ok::<Seq<char>, Seq<char>>(o.value@)
    &&& db::sql_text(row[2]) == Ok::<Seq<char>, Seq<char>>(o.group@)
    &&& db::opt_text_is(row[3], o.label)
    &&& db::sql_strict_int(row[4]) == Ok::<int, Seq<char>>(o.updated_at as int)
}

/// Reads one row. A row that does not fit the columns is refused for its first
/// column that does not.
pub fn parse_entry(row: &Vec<SqlValue>) -> (r: Result<SystemConfigEntry, String>)
    ensures
        match r {
            Ok(o) => db::row_error(row@, entry_columns()) is None && entry_row_reads(row@, o),
            Err(e) => db::row_error(row@, entry_columns()) == Some(e@),
        },
{
    let columns = entry_column_list();
    if let Some(e) = db::check_row(row, &columns) {
        return Err(e);
    }
    proof {
        db::lemma_row_fits(row@, entry_columns());
    }
    Ok(
        SystemConfigEntry {
            key: db::text_in(&row[0]),
            value: db::text_in(&row[1]),
            group: db::text_in(&row[2]),
            label: db::opt_text_in(&row[3]),
            updated_at: db::strict_int_in(&row[4]),
        },
    )
}

/// The group under which a setting is kept.
pub open spec fn group_of(item: UpsertSystemConfig) -> Seq<char> {
    match item.group {
        Some(g) => g@,
        None => "general"@,
    }
}

/// The parameters `row` store `item`.
pub open spec fn entry_params_store(row: Seq<SqlValue>, item: UpsertSystemConfig) -> bool {
    &&& row.len() == 4
    &&& db::is_text(row[0], item.key@)
    &&& db::is_text(row[1], item.value@)
    &&& db::is_text(row[2], group_of(item))
    &&& db::is_opt_text(row[3], db::opt_text(item.label))
}

/// The parameters with which a setting is written.
pub fn upsert_params(item: &UpsertSystemConfig) -> (r: Vec<SqlValue>)
    ensures
        entry_params_store(r@, *item),
{
    let group: &str = match &item.group {
        Some(g) => g.as_str(),
        None => "general",
    };
    vec![
        db::text_value(item.key.as_str()),
        db::text_value(item.value.as_str()),
        db::text_value(group),
        db::opt_text_value(&item.label),
    ]
}

/// What is read back of a stored setting is what was written, under the group `general`
/// where no group was given.
pub proof fn law_stored_setting_reads_back(
    params: Seq<SqlValue>,
    item: UpsertSystemConfig,
    updated_at: i64,
    o: SystemConfigEntry,
)
    requires
        entry_params_store(params, item),
    ensures
        ({
            let row = params.push(SqlValue::Integer(updated_at));
            &&& db::row_error(row, entry_columns()) is None
            &&& entry_row_reads(row, o) ==> o.key@ == item.key@ && o.value@ == item.value@
                && o.group@ == group_of(item) && db::opt_text(o.label) == db::opt_text(item.label)
                && o.updated_at == updated_at
        }),
{
    let row = params.push(SqlValue::Integer(updated_at));
    assert forall|i: int| 0 <= i < entry_columns().len() implies db::column_error(
        entry_columns()[i],
        #[trigger] row[i],
    ) is None by {
        if i < params.len() {
            assert(row[i] == params[i]);
        }
    }
    db::lemma_row_fits_converse(row, entry_columns());
}

// ---------------------------------------------------------------------------
// The cache
// ---------------------------------------------------------------------------
#[derive(Debug)]
struct CacheEntry {
    value: String,
    expires_at: u64,
}

/// The settings that were read of late. Moments are nanoseconds on a clock that does not
/// go back.
#[derive(Debug)]
pub struct SettingCache {
    entries: TextMap<CacheEntry>,
    ttl: u64,
}

impl SettingCache {
    pub closed spec fn wf(self) -> bool {
        self.entries.wf()
    }

    /// For how long a setting is kept.
    pub closed spec fn lifetime(self) -> u64 {
        self.ttl
    }

    /// The settings that are kept, each with the last moment at which it is good.
    pub closed spec fn view(&self) -> Map<Seq<char>, (Seq<char>, u64)> {
        self.entries@.map_values(|e: CacheEntry| (e.value@, e.expires_at))
    }

    pub fn new(ttl: u64) -> (r: SettingCache)
        ensures
            r.wf(),
            r.lifetime() == ttl,
            r@ == Map::<Seq<char>, (Seq<char>, u64)>::empty(),
    {
        let r = SettingCache { entries: TextMap::new(), ttl };
        assert(r@ =~= Map::<Seq<char>, (Seq<char>, u64)>::empty());
        r
    }

    /// The value that is kept for a setting. One that is past its time is dropped.
    pub fn get_cached(&mut self, key: &str, now: u64) -> (r: Option<String>)
        requires
            old(self).wf(),
        ensures
            final(self).wf(),
            final(self).lifetime() == old(self).lifetime(),
            db::opt_text(r) == good_value(old(self)@, key@, now),
            final(self)@ == if r is None {
                old(self)@.remove(key@)
            } else {
                old(self)@
            },
    {
        let ghost before = self@;
        let found = match self.entries.get(key) {
            None => {
                assert(before.remove(key@) =~= before);
                return None;
            },
            Some(e) => if now > e.expires_at {
                None
            } else {
                Some(e.value.clone())
            },
        };
        if found.is_none() {
            let _ = self.entries.remove(key);
            assert(self@ =~= before.remove(key@));
        }
        found
    }

    /// Keeps a value until its time is over.
    pub fn set_cached(&mut self, key: String, value: String, now: u64)
        requires
            old(self).wf(),
            now + old(self).lifetime() <= u64::MAX,
        ensures
            final(self).wf(),
            final(self).lifetime() == old(self).lifetime(),
            final(self)@ == old(self)@.insert(
                key@,
                (value@, (now + old(self).lifetime()) as u64),
            ),
            keeps(old(self)@, final(self)@, key@, value@, old(self).lifetime(), now),
    {
        let ghost before = self@;
        let expires_at: u64 = now + self.ttl;
        let ghost k = key@;
        let ghost v = value@;
        self.entries.insert(key, CacheEntry { value, expires_at });
        assert(self@ =~= before.insert(k, (v, expires_at)));
    }

    /// Forgets one setting, or all.
    pub fn invalidate(&mut self, key: Option<&str>)
        requires
            old(self).wf(),
        ensures
            final(self).wf(),
            final(self).lifetime() == old(self).lifetime(),
            final(self)@ == match key {
                Some(k) => old(self)@.remove(k@),
                None => Map::empty(),
            },
    {
        let ghost before = self@;
        match key {
            Some(k) => {
                let _ = self.entries.remove(k);
                assert(self@ =~= before.remove(k@));
            },
            None => {
                self.entries = TextMap::new();
                assert(self@ =~= Map::<Seq<char>, (Seq<char>, u64)>::empty());
            },
        }
    }

    /// Forgets the settings that were written.
    pub fn invalidate_written(&mut self, items: &Vec<UpsertSystemConfig>)
        requires
            old(self).wf(),
        ensures
            final(self).wf(),
            final(self).lifetime() == old(self).lifetime(),
            final(self)@ == old(self)@.remove_keys(written_keys(items@)),
    {
        let ghost before = self@;
        let mut i: usize = 0;
        assert(before.remove_keys(written_keys(items@.take(0))) =~= before);
        while i < items.len()
            invariant
                i <= items@.len(),
                self.wf(),
                self.lifetime() == old(self).lifetime(),
                self@ == before.remove_keys(written_keys(items@.take(i as int))),
            decreases items@.len() - i,
        {
            self.invalidate(Some(items[i].key.as_str()));
            assert(written_keys(items@.take(i + 1)) =~= written_keys(items@.take(i as int)).insert(
                items@[i as int].key@,
            )) by {
                assert forall|k: Seq<char>| written_keys(items@.take(i + 1)).contains(k)
                    <==> written_keys(items@.take(i as int)).insert(
                    items@[i as int].key@,
                ).contains(k) by {
                    let a = items@.take(i + 1);
                    let b = items@.take(i as int);
                    if written_keys(a).contains(k) {
                        let j = choose|j: int| 0 <= j < a.len() && (#[trigger] a[j]).key@ == k;
                        if j < i {
                            assert(b[j].key@ == k);
                        }
                    }
                    if written_keys(b).contains(k) {
                        let j = choose|j: int| 0 <= j < b.len() && (#[trigger] b[j]).key@ == k;
                        assert(a[j].key@ == k);
                    }
                    if k == items@[i as int].key@ {
                        assert(a[i as int].key@ == k);
                    }
                }
            }
            assert(self@ =~= before.remove_keys(written_keys(items@.take(i + 1))));
            i += 1;
        }
        assert(items@.take(i as int) =~= items@);
    }

    /// The value of a setting that the cache did not hold: that of the database, else that
    /// of the environment. It is kept.
    pub fn settle(&mut self, key: &str, stored: Option<String>, env: Option<String>, now: u64) -> (r:
        Option<String>)
        requires
            old(self).wf(),
            now + old(self).lifetime() <= u64::MAX,
        ensures
            final(self).wf(),
            final(self).lifetime() == old(self).lifetime(),
            db::opt_text(r) == setting_value(db::opt_text(stored), db::opt_text(env)),
            final(self)@ == match r {
                Some(v) => old(self)@.insert(key@, (v@, (now + old(self).lifetime()) as u64)),
                None => old(self)@,
            },
            r matches Some(v) ==> keeps(
                old(self)@,
                final(self)@,
                key@,
                v@,
                old(self).lifetime(),
                now,
            ),
    {
        let value = match stored {
            Some(v) => Some(v),
            None => env,
        };
        if let Some(v) = &value {
            self.set_cached(key.to_owned(), v.clone(), now);
        }
        value
    }
}

/// The value that a cache holds for a setting and that is still good.
pub open spec fn good_value(
    cache: Map<Seq<char>, (Seq<char>, u64)>,
    key: Seq<char>,
    now: u64,
) -> Option<Seq<char>> {
    if cache.dom().contains(key) && now <= cache[key].1 {
        Some(cache[key].0)
    } else {
        None
    }
}

pub open spec fn written_keys(items: Seq<UpsertSystemConfig>) -> Set<Seq<char>> {
    Set::new(|k: Seq<char>| exists|j: int| 0 <= j < items.len() && (#[trigger] items[j]).key@ == k)
}

/// A setting that the database holds comes before one of the environment.
pub open spec fn setting_value(stored: Option<Seq<char>>, env: Option<Seq<char>>) -> Option<
    Seq<char>,
> {
    if stored is Some {
        stored
    } else {
        env
    }
}

/// A value that was kept is found for as long as it is good, and not after; another setting
/// is not touched.
pub proof fn law_kept_settings_are_found_in_time(
    cache: Map<Seq<char>, (Seq<char>, u64)>,
    key: Seq<char>,
    value: Seq<char>,
    until: u64,
    later: u64,
    other: Seq<char>,
)
    ensures
        good_value(cache.insert(key, (value, until)), key, later) == if later <= until {
            Some(value)
        } else {
            None
        },
        other != key ==> good_value(cache.insert(key, (value, until)), other, later) == good_value(
            cache,
            other,
            later,
        ),
{
}

/// After settings were written, none of them is found in the cache, so that the next read of
/// each goes to the database; the others are found as before.
pub proof fn law_written_settings_are_read_anew(
    cache: Map<Seq<char>, (Seq<char>, u64)>,
    items: Seq<UpsertSystemConfig>,
    key: Seq<char>,
    now: u64,
)
    ensures
        good_value(cache.remove_keys(written_keys(items)), key, now) == if exists|j: int|
            0 <= j < items.len() && (#[trigger] items[j]).key@ == key {
            None
        } else {
            good_value(cache, key, now)
        },
{
}

/// A setting has the value that the database holds, and only without one that of the
/// environment.
pub proof fn law_stored_settings_come_first(stored: Option<Seq<char>>, env: Option<Seq<char>>)
    ensures
        stored is Some ==> setting_value(stored, env) == stored,
        stored is None ==> setting_value(stored, env) == env,
{
}

/// A value is kept for a setting, for a lifetime from now on.
pub open spec fn keeps(
    before: Map<Seq<char>, (Seq<char>, u64)>,
    after: Map<Seq<char>, (Seq<char>, u64)>,
    key: Seq<char>,
    value: Seq<char>,
    lifetime: u64,
    now: u64,
) -> bool {
    after == before.insert(key, (value, (now + lifetime) as u64))
}

/// A value that is kept is found until its lifetime is over, and not after; another setting is
/// found as before.
pub proof fn law_settings_are_kept_for_their_lifetime(
    before: Map<Seq<char>, (Seq<char>, u64)>,
    after: Map<Seq<char>, (Seq<char>, u64)>,
    key: Seq<char>,
    value: Seq<char>,
    lifetime: u64,
    now: u64,
    later: u64,
    other: Seq<char>,
)
    requires
        keeps(before, after, key, value, lifetime, now),
        now + lifetime <= u64::MAX,
    ensures
        later - now <= lifetime ==> good_value(after, key, later) == Some(value),
        later - now > lifetime ==> good_value(after, key, later) is None,
        other != key ==> good_value(after, other, later) == good_value(before, other, later),
{
}

}
