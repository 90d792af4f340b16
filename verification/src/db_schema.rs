//! Query results as the library sees them: each row a map from column name
//! to the cell's text. Running the query belongs to the caller; the functions
//! here turn what it returned into rows and pick rows and values out of them.
use vstd::prelude::*;

use crate::decimal::{
    decimal_text, lemma_i64_text_round_trip, parse_i64_text, push_decimal, push_signed_decimal,
    signed_decimal_text,
};
use crate::text_map::TextMap;

verus! {

/// `rusqlite::Connection`, the open database. Declared so that the shared
/// state can hold it; nothing here looks inside it.
#[verifier::external_type_specification]
#[verifier::external_body]
pub struct ExConnection(rusqlite::Connection);

/// `std::sync::Mutex`, which guards the shared connection. Declared so that
/// the shared state can hold it; nothing here locks it.
#[verifier::external_type_specification]
#[verifier::external_body]
#[verifier::reject_recursive_types(T)]
pub struct ExMutex<T: ?Sized>(std::sync::Mutex<T>);

/// The database connection, shared between the commands of the application.
pub type DbPool = std::sync::Arc<std::sync::Mutex<rusqlite::Connection>>;

/// One result row: column name to the cell's text.
pub type DbRow = TextMap<String>;

/// The cell of a row that holds text, integer, nothing or bytes.
pub enum SqlValue {
    Null,
    Integer(i64),
    Text(String),
    Blob(Vec<u8>),
}

/// The text that a cell is read as: empty for NULL, the decimal number for an integer.
pub open spec fn cell_text(value: SqlValue) -> Seq<char> {
    match value {
        SqlValue::Null => Seq::empty(),
        SqlValue::Integer(n) => signed_decimal_text(n as int),
        SqlValue::Text(t) => t@,
        SqlValue::Blob(_) => Seq::empty(),
    }
}

/// The text of a cell. A byte cell has no text: the caller must not pass one.
pub fn db_get_row_value_as_string(value: SqlValue) -> (s: String)
    requires
        !(value is Blob),
    ensures
        s@ == cell_text(value),
{
    match value {
        SqlValue::Null => String::new(),
        SqlValue::Integer(n) => {
            let mut s = String::new();
            push_signed_decimal(&mut s, n);
            assert(Seq::<char>::empty() + signed_decimal_text(n as int) =~= signed_decimal_text(
                n as int,
            ));
            s
        },
        SqlValue::Text(t) => t,
        SqlValue::Blob(_) => String::new(),
    }
}

/// An integer cell read as text parses back to the same number: a record's
/// id survives being read through a row.
pub proof fn lemma_integer_cell_parses_back(n: i64)
    ensures
        parse_i64_text(cell_text(SqlValue::Integer(n))) == Some(n),
{
    lemma_i64_text_round_trip(n);
}

/// The map that column names and cell texts make when each column is entered
/// in turn; a later column of the same name replaces an earlier one.
pub open spec fn columns_map(columns: Seq<String>, cells: Seq<String>) -> Map<Seq<char>, String>
    decreases columns.len(),
{
    if columns.len() == 0 {
        Map::empty()
    } else {
        columns_map(columns.drop_last(), cells.drop_last()).insert(
            columns.last()@,
            cells[columns.len() - 1],
        )
    }
}

/// Builds one row from the result's column names and the row's cell texts.
pub fn db_row_from_cells(columns: &Vec<String>, cells: &Vec<String>) -> (row: DbRow)
    requires
        columns.len() == cells.len(),
    ensures
        row@ == columns_map(columns@, cells@),
{
    let mut row: DbRow = TextMap::new();
    let n = columns.len();
    let mut i: usize = 0;
    assert(columns@.subrange(0, 0) =~= Seq::<String>::empty());
    while i < n
        invariant
            n == columns.len(),
            n == cells.len(),
            i <= n,
            row@ == columns_map(columns@.subrange(0, i as int), cells@.subrange(0, i as int)),
        decreases n - i,
    {
        row.insert(columns[i].clone(), cells[i].clone());
        proof {
            let c = columns@.subrange(0, i + 1);
            let v = cells@.subrange(0, i + 1);
            assert(c.drop_last() =~= columns@.subrange(0, i as int));
            assert(v.drop_last() =~= cells@.subrange(0, i as int));
        }
        i = i + 1;
    }
    assert(columns@.subrange(0, n as int) =~= columns@);
    assert(cells@.subrange(0, n as int) =~= cells@);
    row
}

/// The message for a result that should have had exactly one row.
pub open spec fn row_count_message(count: nat) -> Seq<char> {
    "Used db_get_row but row count is not 1. (Row count is "@ + decimal_text(count) + ")"@
}

/// The one row of a result that has exactly one; otherwise an error that gives the row count.
pub fn db_get_row(rows: Vec<DbRow>) -> (r: Result<DbRow, String>)
    ensures
        match r {
            Ok(row) => rows@.len() == 1 && row == rows@[0],
            Err(e) => rows@.len() != 1 && e@ == row_count_message(rows@.len()),
        },
{
    let mut rows = rows;
    let count = rows.len();
    if count != 1 {
        let mut e = String::from_str("Used db_get_row but row count is not 1. (Row count is ");
        push_decimal(&mut e, count as u64);
        e.append(")");
        return Err(e);
    }
    let row = rows.pop().unwrap();
    Ok(row)
}

/// Every row has at least one column.
pub open spec fn rows_have_columns(rows: Seq<DbRow>) -> bool {
    forall|i: int| 0 <= i < rows.len() ==> #[trigger] rows[i].pairs().len() > 0
}

/// The first cell of every row: the values of a query that selects one column.
pub fn db_get_values(rows: &Vec<DbRow>) -> (values: Vec<String>)
    requires
        rows_have_columns(rows@),
    ensures
        values@.len() == rows@.len(),
        forall|i: int| 0 <= i < rows@.len() ==> #[trigger] values@[i] == rows@[i].pairs()[0].1,
{
    let mut values: Vec<String> = Vec::new();
    let n = rows.len();
    let mut i: usize = 0;
    while i < n
        invariant
            n == rows@.len(),
            i <= n,
            rows_have_columns(rows@),
            values@.len() == i,
            forall|j: int| 0 <= j < i ==> #[trigger] values@[j] == rows@[j].pairs()[0].1,
        decreases n - i,
    {
        assert(rows@[i as int].pairs().len() > 0);
        let v = rows[i].first_value().unwrap();
        values.push(v.clone());
        i = i + 1;
    }
    values
}

/// The single value of a query that returns one row of one column; a query
/// with more rows, or with no column or several, is not one to ask.
pub fn db_get_value(rows: &Vec<DbRow>) -> (value: String)
    requires
        rows@.len() == 1,
        rows@[0].pairs().len() == 1,
    ensures
        value == rows@[0].pairs()[0].1,
{
    let values = db_get_values(rows);
    values[0].clone()
}

} // verus!
