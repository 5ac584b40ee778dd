//! Values as the database stores them, and how columns are read from a row.
use vstd::prelude::*;

use crate::json;
use crate::text;

verus! {

/// A floating-point column. The database driver hands over the number by what
/// is read of it: its text, its value cut to an integer, and whether it is not zero.
#[derive(Debug)]
pub struct SqlReal {
    pub text: String,
    pub truncated: i64,
    pub nonzero: bool,
}

#[derive(Debug)]
pub enum SqlValue {
    Null,
    Integer(i64),
    Real(SqlReal),
    Text(String),
    Blob,
}

/// The contents of an optional string.
pub open spec fn opt_text(o: Option<String>) -> Option<Seq<char>> {
    match o {
        Some(s) => Some(s@),
        None => None,
    }
}

/// The contents of an optional borrowed string.
pub open spec fn opt_str(o: Option<&str>) -> Option<Seq<char>> {
    match o {
        Some(s) => Some(s@),
        None => None,
    }
}

pub fn as_deref<'a>(o: &'a Option<String>) -> (r: Option<&'a str>)
    ensures
        opt_str(r) == opt_text(*o),
{
    match o {
        Some(s) => Some(s.as_str()),
        None => None,
    }
}

pub fn copy_opt(o: &Option<String>) -> (r: Option<String>)
    ensures
        opt_text(r) == opt_text(*o),
        r == *o,
{
    match o {
        Some(s) => Some(s.clone()),
        None => None,
    }
}

// ---------------------------------------------------------------------------
// Reading one value
// ---------------------------------------------------------------------------
/// A value read as text: the text, or why it has none.
pub open spec fn sql_text(v: SqlValue) -> Result<Seq<char>, Seq<char>> {
    match v {
        SqlValue::Text(t) => Ok(t@),
        SqlValue::Integer(n) => Ok(text::decimal(n as int)),
        SqlValue::Real(x) => Ok(x.text@),
        SqlValue::Null => Err("unexpected NULL value"@),
        SqlValue::Blob => Err("unexpected BLOB value"@),
    }
}

/// A value read as an integer.
pub open spec fn sql_int(v: SqlValue) -> Result<int, Seq<char>> {
    match v {
        SqlValue::Real(x) => Ok(x.truncated as int),
        _ => sql_strict_int(v),
    }
}

/// A value read as an integer, where a floating-point column is none.
pub open spec fn sql_strict_int(v: SqlValue) -> Result<int, Seq<char>> {
    match v {
        SqlValue::Integer(n) => Ok(n as int),
        SqlValue::Text(t) => match text::i64_in(t@) {
            Some(n) => Ok(n),
            None => Err("failed to parse integer from text"@),
        },
        _ => Err("unexpected non-integer value"@),
    }
}

/// A value read as a flag: every text but `0` and `false` stands for yes.
pub open spec fn sql_flag(v: SqlValue) -> Result<bool, Seq<char>> {
    match v {
        SqlValue::Integer(n) => Ok(n != 0),
        SqlValue::Text(t) => Ok(t@ != "0"@ && text::lowered(t@) != "false"@),
        SqlValue::Real(x) => Ok(x.nonzero),
        SqlValue::Null => Err("unexpected NULL value"@),
        SqlValue::Blob => Err("unexpected BLOB value"@),
    }
}

/// The texts that stand for yes where only those do.
pub open spec fn yes_text(t: Seq<char>) -> bool {
    t == "1"@ || t == "true"@ || t == "TRUE"@
}

/// A value read as a flag: only `1`, `true` and `TRUE` are texts for yes.
pub open spec fn sql_marked_flag(v: SqlValue) -> Result<bool, Seq<char>> {
    match v {
        SqlValue::Text(t) => Ok(yes_text(t@)),
        _ => sql_flag(v),
    }
}

/// A value read as a flag, stored as an integer or a text.
pub open spec fn sql_strict_flag(v: SqlValue) -> Result<bool, Seq<char>> {
    match v {
        SqlValue::Integer(n) => Ok(n != 0),
        SqlValue::Text(t) => Ok(yes_text(t@)),
        _ => Err("unexpected non-boolean value"@),
    }
}

/// A value read as an optional JSON document.
pub open spec fn sql_json(v: SqlValue) -> Result<Option<Seq<char>>, Seq<char>> {
    match v {
        SqlValue::Null => Ok(None),
        SqlValue::Text(t) => if json::json_valid(t@) {
            Ok(Some(t@))
        } else {
            Err("failed to parse JSON text"@)
        },
        _ => Err("unexpected non-text JSON value"@),
    }
}

pub fn read_required_string(v: &SqlValue) -> (r: Result<String, String>)
    ensures
        match r {
            Ok(s) => sql_text(*v) == Ok::<Seq<char>, Seq<char>>(s@),
            Err(e) => sql_text(*v) == Err::<Seq<char>, Seq<char>>(e@),
        },
{
    match v {
        SqlValue::Text(t) => Ok(t.clone()),
        SqlValue::Integer(n) => Ok(text::i64_text(*n)),
        SqlValue::Real(x) => Ok(x.text.clone()),
        SqlValue::Null => Err("unexpected NULL value".to_owned()),
        SqlValue::Blob => Err("unexpected BLOB value".to_owned()),
    }
}

pub fn read_optional_string(v: &SqlValue) -> (r: Result<Option<String>, String>)
    ensures
        match r {
            Ok(None) => v is Null,
            Ok(Some(s)) => v !is Null && sql_text(*v) == Ok::<Seq<char>, Seq<char>>(s@),
            Err(e) => v !is Null && sql_text(*v) == Err::<Seq<char>, Seq<char>>(e@),
        },
{
    match v {
        SqlValue::Null => Ok(None),
        _ => match read_required_string(v) {
            Ok(s) => Ok(Some(s)),
            Err(e) => Err(e),
        },
    }
}

pub fn read_strict_i64(v: &SqlValue) -> (r: Result<i64, String>)
    ensures
        match r {
            Ok(n) => sql_strict_int(*v) == Ok::<int, Seq<char>>(n as int),
            Err(e) => sql_strict_int(*v) == Err::<int, Seq<char>>(e@),
        },
{
    match v {
        SqlValue::Integer(n) => Ok(*n),
        SqlValue::Text(t) => match text::parse_i64(t.as_str()) {
            Some(n) => Ok(n),
            None => Err("failed to parse integer from text".to_owned()),
        },
        _ => Err("unexpected non-integer value".to_owned()),
    }
}

pub fn read_required_i64(v: &SqlValue) -> (r: Result<i64, String>)
    ensures
        match r {
            Ok(n) => sql_int(*v) == Ok::<int, Seq<char>>(n as int),
            Err(e) => sql_int(*v) == Err::<int, Seq<char>>(e@),
        },
{
    match v {
        SqlValue::Real(x) => Ok(x.truncated),
        _ => read_strict_i64(v),
    }
}

pub fn read_optional_i64(v: &SqlValue) -> (r: Result<Option<i64>, String>)
    ensures
        match r {
            Ok(None) => v is Null,
            Ok(Some(n)) => v !is Null && sql_int(*v) == Ok::<int, Seq<char>>(n as int),
            Err(e) => v !is Null && sql_int(*v) == Err::<int, Seq<char>>(e@),
        },
{
    match v {
        SqlValue::Null => Ok(None),
        _ => match read_required_i64(v) {
            Ok(n) => Ok(Some(n)),
            Err(e) => Err(e),
        },
    }
}

pub fn read_required_bool(v: &SqlValue) -> (r: Result<bool, String>)
    ensures
        match r {
            Ok(b) => sql_flag(*v) == Ok::<bool, Seq<char>>(b),
            Err(e) => sql_flag(*v) == Err::<bool, Seq<char>>(e@),
        },
{
    match v {
        SqlValue::Integer(n) => Ok(*n != 0),
        SqlValue::Text(t) => Ok(
            !text::same(t.as_str(), "0") && !text::same(
                text::to_ascii_lowercase(t.as_str()).as_str(),
                "false",
            ),
        ),
        SqlValue::Real(x) => Ok(x.nonzero),
        SqlValue::Null => Err("unexpected NULL value".to_owned()),
        SqlValue::Blob => Err("unexpected BLOB value".to_owned()),
    }
}

fn is_yes_text(t: &str) -> (r: bool)
    ensures
        r == yes_text(t@),
{
    text::same(t, "1") || text::same(t, "true") || text::same(t, "TRUE")
}

pub fn read_marked_bool(v: &SqlValue) -> (r: Result<bool, String>)
    ensures
        match r {
            Ok(b) => sql_marked_flag(*v) == Ok::<bool, Seq<char>>(b),
            Err(e) => sql_marked_flag(*v) == Err::<bool, Seq<char>>(e@),
        },
{
    match v {
        SqlValue::Text(t) => Ok(is_yes_text(t.as_str())),
        _ => read_required_bool(v),
    }
}

pub fn read_strict_bool(v: &SqlValue) -> (r: Result<bool, String>)
    ensures
        match r {
            Ok(b) => sql_strict_flag(*v) == Ok::<bool, Seq<char>>(b),
            Err(e) => sql_strict_flag(*v) == Err::<bool, Seq<char>>(e@),
        },
{
    match v {
        SqlValue::Integer(n) => Ok(*n != 0),
        SqlValue::Text(t) => Ok(is_yes_text(t.as_str())),
        _ => Err("unexpected non-boolean value".to_owned()),
    }
}

pub fn read_optional_json_text(v: &SqlValue) -> (r: Result<Option<String>, String>)
    ensures
        match r {
            Ok(o) => sql_json(*v) == Ok::<Option<Seq<char>>, Seq<char>>(opt_text(o)),
            Err(e) => sql_json(*v) == Err::<Option<Seq<char>>, Seq<char>>(e@),
        },
{
    match v {
        SqlValue::Null => Ok(None),
        SqlValue::Text(t) => {
            if json::is_json(t.as_str()) {
                Ok(Some(t.clone()))
            } else {
                Err("failed to parse JSON text".to_owned())
            }
        },
        _ => Err("unexpected non-text JSON value".to_owned()),
    }
}

// ---------------------------------------------------------------------------
// Reading a row
// ---------------------------------------------------------------------------
/// How a column is read.
#[derive(Debug, Clone, Copy, PartialEq, Eq, Structural)]
pub enum Column {
    Text,
    OptText,
    Int,
    OptInt,
    StrictInt,
    Flag,
    MarkedFlag,
    StrictFlag,
    OptJson,
}

pub open spec fn failure<T>(r: Result<T, Seq<char>>) -> Option<Seq<char>> {
    match r {
        Ok(_) => None,
        Err(e) => Some(e),
    }
}

/// Why the value cannot stand in the column, if it cannot.
pub open spec fn column_error(c: Column, v: SqlValue) -> Option<Seq<char>> {
    match c {
        Column::Text => failure(sql_text(v)),
        Column::OptText => if v is Null {
            None
        } else {
            failure(sql_text(v))
        },
        Column::Int => failure(sql_int(v)),
        Column::OptInt => if v is Null {
            None
        } else {
            failure(sql_int(v))
        },
        Column::StrictInt => failure(sql_strict_int(v)),
        Column::Flag => failure(sql_flag(v)),
        Column::MarkedFlag => failure(sql_marked_flag(v)),
        Column::StrictFlag => failure(sql_strict_flag(v)),
        Column::OptJson => failure(sql_json(v)),
    }
}

/// Why the row does not fit the columns: the first column that does not.
pub open spec fn row_error(row: Seq<SqlValue>, columns: Seq<Column>) -> Option<Seq<char>>
    decreases columns.len(),
{
    if columns.len() == 0 {
        None
    } else if row.len() == 0 {
        Some("missing column"@)
    } else {
        match column_error(columns[0], row[0]) {
            Some(e) => Some(e),
            None => row_error(row.skip(1), columns.skip(1)),
        }
    }
}

fn check_column(c: Column, v: &SqlValue) -> (r: Option<String>)
    ensures
        opt_text(r) == column_error(c, *v),
{
    match c {
        Column::Text => read_required_string(v).err(),
        Column::OptText => read_optional_string(v).err(),
        Column::Int => read_required_i64(v).err(),
        Column::OptInt => read_optional_i64(v).err(),
        Column::StrictInt => read_strict_i64(v).err(),
        Column::Flag => read_required_bool(v).err(),
        Column::MarkedFlag => read_marked_bool(v).err(),
        Column::StrictFlag => read_strict_bool(v).err(),
        Column::OptJson => read_optional_json_text(v).err(),
    }
}

pub fn check_row(row: &Vec<SqlValue>, columns: &Vec<Column>) -> (r: Option<String>)
    ensures
        opt_text(r) == row_error(row@, columns@),
{
    let mut i: usize = 0;
    assert(row@.skip(0) == row@ && columns@.skip(0) == columns@);
    while i < columns.len()
        invariant
            i <= columns@.len(),
            i <= row@.len(),
            row_error(row@, columns@) == row_error(row@.skip(i as int), columns@.skip(i as int)),
        decreases columns@.len() - i,
    {
        if i == row.len() {
            return Some("missing column".to_owned());
        }
        let e = check_column(columns[i], &row[i]);
        if e.is_some() {
            return e;
        }
        assert(row@.skip(i as int).skip(1) == row@.skip(i + 1));
        assert(columns@.skip(i as int).skip(1) == columns@.skip(i + 1));
        i += 1;
    }
    None
}

/// In a row that fits its columns every value can be read.
pub proof fn lemma_row_fits(row: Seq<SqlValue>, columns: Seq<Column>)
    requires
        row_error(row, columns) is None,
    ensures
        row.len() >= columns.len(),
        forall|i: int|
            0 <= i < columns.len() ==> column_error(columns[i], #[trigger] row[i]) is None,
    decreases columns.len(),
{
    if columns.len() > 0 {
        lemma_row_fits(row.skip(1), columns.skip(1));
        assert forall|i: int| 0 <= i < columns.len() implies column_error(
            columns[i],
            #[trigger] row[i],
        ) is None by {
            if i > 0 {
                assert(row.skip(1)[i - 1] == row[i]);
                assert(columns.skip(1)[i - 1] == columns[i]);
            }
        }
    }
}

/// A row in which every value can be read fits its columns.
pub proof fn lemma_row_fits_converse(row: Seq<SqlValue>, columns: Seq<Column>)
    requires
        row.len() >= columns.len(),
        forall|i: int|
            0 <= i < columns.len() ==> column_error(columns[i], #[trigger] row[i]) is None,
    ensures
        row_error(row, columns) is None,
    decreases columns.len(),
{
    if columns.len() > 0 {
        assert(column_error(columns[0], row[0]) is None);
        assert forall|i: int| 0 <= i < columns.skip(1).len() implies column_error(
            columns.skip(1)[i],
            #[trigger] row.skip(1)[i],
        ) is None by {
            assert(row[i + 1] == row.skip(1)[i]);
        }
        lemma_row_fits_converse(row.skip(1), columns.skip(1));
    }
}

/// The text in a column that holds one.
pub fn text_in(v: &SqlValue) -> (r: String)
    requires
        column_error(Column::Text, *v) is None,
    ensures
        sql_text(*v) == Ok::<Seq<char>, Seq<char>>(r@),
{
    match read_required_string(v) {
        Ok(s) => s,
        Err(e) => e,
    }
}

/// An optional column: nothing where it is NULL.
pub open spec fn opt_text_is(v: SqlValue, o: Option<String>) -> bool {
    match o {
        None => v is Null,
        Some(s) => v !is Null && sql_text(v) == Ok::<Seq<char>, Seq<char>>(s@),
    }
}

pub open spec fn opt_int_is(v: SqlValue, o: Option<i64>) -> bool {
    match o {
        None => v is Null,
        Some(n) => v !is Null && sql_int(v) == Ok::<int, Seq<char>>(n as int),
    }
}

pub fn opt_text_in(v: &SqlValue) -> (r: Option<String>)
    requires
        column_error(Column::OptText, *v) is None,
    ensures
        opt_text_is(*v, r),
{
    match read_optional_string(v) {
        Ok(o) => o,
        Err(_) => None,
    }
}

pub fn int_in(v: &SqlValue) -> (r: i64)
    requires
        column_error(Column::Int, *v) is None,
    ensures
        sql_int(*v) == Ok::<int, Seq<char>>(r as int),
{
    match read_required_i64(v) {
        Ok(n) => n,
        Err(_) => 0,
    }
}

pub fn strict_int_in(v: &SqlValue) -> (r: i64)
    requires
        column_error(Column::StrictInt, *v) is None,
    ensures
        sql_strict_int(*v) == Ok::<int, Seq<char>>(r as int),
{
    match read_strict_i64(v) {
        Ok(n) => n,
        Err(_) => 0,
    }
}

pub fn opt_int_in(v: &SqlValue) -> (r: Option<i64>)
    requires
        column_error(Column::OptInt, *v) is None,
    ensures
        opt_int_is(*v, r),
{
    match read_optional_i64(v) {
        Ok(o) => o,
        Err(_) => None,
    }
}

pub fn flag_in(v: &SqlValue) -> (r: bool)
    requires
        column_error(Column::Flag, *v) is None,
    ensures
        sql_flag(*v) == Ok::<bool, Seq<char>>(r),
{
    match read_required_bool(v) {
        Ok(b) => b,
        Err(_) => false,
    }
}

pub fn marked_flag_in(v: &SqlValue) -> (r: bool)
    requires
        column_error(Column::MarkedFlag, *v) is None,
    ensures
        sql_marked_flag(*v) == Ok::<bool, Seq<char>>(r),
{
    match read_marked_bool(v) {
        Ok(b) => b,
        Err(_) => false,
    }
}

pub fn strict_flag_in(v: &SqlValue) -> (r: bool)
    requires
        column_error(Column::StrictFlag, *v) is None,
    ensures
        sql_strict_flag(*v) == Ok::<bool, Seq<char>>(r),
{
    match read_strict_bool(v) {
        Ok(b) => b,
        Err(_) => false,
    }
}

pub fn json_in(v: &SqlValue) -> (r: Option<String>)
    requires
        column_error(Column::OptJson, *v) is None,
    ensures
        sql_json(*v) == Ok::<Option<Seq<char>>, Seq<char>>(opt_text(r)),
{
    match read_optional_json_text(v) {
        Ok(o) => o,
        Err(_) => None,
    }
}

// ---------------------------------------------------------------------------
// Writing values
// ---------------------------------------------------------------------------
pub open spec fn is_text(v: SqlValue, s: Seq<char>) -> bool {
    v matches SqlValue::Text(t) && t@ == s
}

pub open spec fn is_opt_text(v: SqlValue, o: Option<Seq<char>>) -> bool {
    match o {
        None => v is Null,
        Some(s) => is_text(v, s),
    }
}

pub open spec fn opt_int_value(o: Option<i64>) -> SqlValue {
    match o {
        None => SqlValue::Null,
        Some(n) => SqlValue::Integer(n),
    }
}

pub open spec fn flag_value(b: bool) -> SqlValue {
    SqlValue::Integer(
        if b {
            1
        } else {
            0
        },
    )
}

pub fn text_value(s: &str) -> (r: SqlValue)
    ensures
        is_text(r, s@),
{
    SqlValue::Text(s.to_owned())
}

pub fn opt_text_value(o: &Option<String>) -> (r: SqlValue)
    ensures
        is_opt_text(r, opt_text(*o)),
{
    match o {
        None => SqlValue::Null,
        Some(s) => SqlValue::Text(s.clone()),
    }
}

pub fn write_opt_int(o: Option<i64>) -> (r: SqlValue)
    ensures
        r == opt_int_value(o),
{
    match o {
        None => SqlValue::Null,
        Some(n) => SqlValue::Integer(n),
    }
}

pub fn write_flag(b: bool) -> (r: SqlValue)
    ensures
        r == flag_value(b),
{
    if b {
        SqlValue::Integer(1)
    } else {
        SqlValue::Integer(0)
    }
}

/// A number is read as it is, also where it is stored as a text; a flag is set unless its number
/// is zero; and a text is never made of nothing.
pub proof fn law_values_are_read_as_stored(n: i64, v: SqlValue, t: String)
    ensures
        sql_int(SqlValue::Integer(n)) == Ok::<int, Seq<char>>(n as int),
        sql_strict_int(SqlValue::Integer(n)) == Ok::<int, Seq<char>>(n as int),
        t@ == text::decimal(n as int) ==> sql_int(SqlValue::Text(t)) == Ok::<int, Seq<char>>(
            n as int,
        ),
        sql_flag(SqlValue::Integer(n)) == Ok::<bool, Seq<char>>(n != 0),
        sql_strict_flag(SqlValue::Integer(n)) == Ok::<bool, Seq<char>>(n != 0),
        sql_marked_flag(SqlValue::Integer(n)) == Ok::<bool, Seq<char>>(n != 0),
        sql_text(SqlValue::Text(t)) == Ok::<Seq<char>, Seq<char>>(t@),
        sql_text(SqlValue::Integer(n)) == Ok::<Seq<char>, Seq<char>>(text::decimal(n as int)),
        sql_text(v) is Err <==> v is Null || v is Blob,
        sql_int(v) is Err && v is Text ==> text::i64_in(v->Text_0@) is None,
        v is Null || v is Blob ==> sql_int(v) is Err && sql_flag(v) is Err,
{
    text::law_decimal_read_back(n);
}

/// What is stored of a flag, of a number or of nothing is read as that.
pub proof fn law_stored_values_read_back(b: bool, o: Option<i64>)
    ensures
        sql_flag(flag_value(b)) == Ok::<bool, Seq<char>>(b),
        sql_strict_flag(flag_value(b)) == Ok::<bool, Seq<char>>(b),
        opt_int_is(opt_int_value(o), o),
        o is None <==> opt_int_value(o) is Null,
{
}

/// A row is read exactly where it has every column and each can be read.
pub proof fn law_rows_are_read_by_their_columns(row: Seq<SqlValue>, columns: Seq<Column>, i: int)
    ensures
        row_error(row, columns) is None && 0 <= i < columns.len() ==> i < row.len()
            && column_error(columns[i], row[i]) is None,
        row.len() < columns.len() ==> row_error(row, columns) is Some,
        row.len() >= columns.len() && (forall|j: int|
            0 <= j < columns.len() ==> column_error(#[trigger] columns[j], row[j]) is None)
            ==> row_error(row, columns) is None,
    decreases columns.len(),
{
    if columns.len() > 0 && row.len() > 0 {
        let r = row.skip(1);
        let c = columns.skip(1);
        law_rows_are_read_by_their_columns(r, c, i - 1);
        if i > 0 && i < columns.len() && i < row.len() {
            assert(c[i - 1] == columns[i]);
            assert(r[i - 1] == row[i]);
        }
        if forall|j: int|
            0 <= j < columns.len() ==> column_error(#[trigger] columns[j], row[j]) is None {
            assert(column_error(columns[0], row[0]) is None);
            assert forall|j: int| 0 <= j < c.len() && row.len() >= columns.len() implies column_error(
                #[trigger] c[j],
                r[j],
            ) is None by {
                assert(c[j] == columns[j + 1]);
                assert(r[j] == row[j + 1]);
            }
        }
    }
}

}
