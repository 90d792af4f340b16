//! Reading query results for the user interface.
use vstd::prelude::*;

use crate::db_schema::DbRow;

verus! {

/// The `unique_date` cell of every row, in order: the days that have photos.
pub fn get_dates_with_photos(rows: &Vec<DbRow>) -> (dates: Vec<String>)
    requires
        forall|i: int| 0 <= i < rows@.len() ==> (#[trigger] rows@[i]@).contains_key("unique_date"@),
    ensures
        dates@.len() == rows@.len(),
        forall|i: int| 0 <= i < rows@.len() ==> #[trigger] dates@[i] == rows@[i]@["unique_date"@],
{
    let mut dates: Vec<String> = Vec::new();
    let n = rows.len();
    let mut i: usize = 0;
    while i < n
        invariant
            n == rows@.len(),
            i <= n,
            forall|j: int|
                0 <= j < rows@.len() ==> (#[trigger] rows@[j]@).contains_key("unique_date"@),
            dates@.len() == i,
            forall|j: int| 0 <= j < i ==> #[trigger] dates@[j] == rows@[j]@["unique_date"@],
        decreases n - i,
    {
        assert(rows@[i as int]@.contains_key("unique_date"@));
        let d = rows[i].get("unique_date").unwrap();
        dates.push(d.clone());
        i = i + 1;
    }
    dates
}

/// What `serde_json::to_string` writes for a map from text to text (a
/// `BTreeMap`, so in key order): the JSON object, or the serializer's message.
pub uninterp spec fn json_object_text(entries: Seq<(Seq<char>, Seq<char>)>) -> Result<
    Seq<char>,
    Seq<char>,
>;

/// Text or an error message, by their text.
pub open spec fn text_result(r: Result<String, String>) -> Result<Seq<char>, Seq<char>> {
    match r {
        Ok(s) => Ok(s@),
        Err(e) => Err(e@),
    }
}

/// Entries by their text.
pub open spec fn entries_text(entries: Seq<(String, String)>) -> Seq<(Seq<char>, Seq<char>)> {
    entries.map_values(|e: (String, String)| (e.0@, e.1@))
}

/// Collects the entries into a `std::collections::BTreeMap` and writes it with
/// `serde_json::to_string`; an error is returned as its message. The result
/// is the named serialization above.
#[verifier::external_body]
fn json_object(entries: Vec<(String, String)>) -> (r: Result<String, String>)
    ensures
        text_result(r) == json_object_text(entries_text(entries@)),
{
    let map: std::collections::BTreeMap<String, String> = entries.into_iter().collect();
    serde_json::to_string(&map).map_err(|e| e.to_string())
}

/// The trash-bin status row as a JSON object, column name to cell text.
pub fn get_bin_status(row: DbRow) -> (r: Result<String, String>)
    ensures
        text_result(r) == json_object_text(
            row.pairs().map_values(|e: (Seq<char>, String)| (e.0, e.1@)),
        ),
{
    let ghost pairs = row.pairs();
    let entries = row.into_entries();
    assert(entries_text(entries@) =~= pairs.map_values(|e: (Seq<char>, String)| (e.0, e.1@)));
    json_object(entries)
}

} // verus!
