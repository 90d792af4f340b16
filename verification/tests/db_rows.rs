use birber::db_schema::{
    db_get_row, db_get_row_value_as_string, db_get_value, db_get_values, db_row_from_cells,
    DbRow, SqlValue,
};
use birber::text_map::TextMap;

fn strings(v: &[&str]) -> Vec<String> {
    v.iter().map(|s| s.to_string()).collect()
}

fn row(pairs: &[(&str, &str)]) -> DbRow {
    let columns: Vec<String> = pairs.iter().map(|p| p.0.to_string()).collect();
    let cells: Vec<String> = pairs.iter().map(|p| p.1.to_string()).collect();
    db_row_from_cells(&columns, &cells)
}

#[test]
fn cell_values_as_text() {
    assert_eq!(db_get_row_value_as_string(SqlValue::Null), "");
    assert_eq!(db_get_row_value_as_string(SqlValue::Integer(42)), "42");
    assert_eq!(db_get_row_value_as_string(SqlValue::Integer(-7)), "-7");
    assert_eq!(db_get_row_value_as_string(SqlValue::Text("DSC_0001".to_string())), "DSC_0001");
}

#[test]
fn integer_cell_parses_back() {
    for n in [0i64, 17, -3, i64::MAX] {
        let text = db_get_row_value_as_string(SqlValue::Integer(n));
        assert_eq!(birber::decimal::parse_i64(&text), Some(n));
    }
}

#[test]
fn row_from_cells_maps_columns() {
    let r = db_row_from_cells(&strings(&["id", "cam_id"]), &strings(&["1", "DSC_0001"]));
    assert_eq!(r.len(), 2);
    assert_eq!(r.get("id"), Some(&"1".to_string()));
    assert_eq!(r.get("cam_id"), Some(&"DSC_0001".to_string()));
    assert_eq!(r.get("raw_path"), None);
}

#[test]
fn later_column_of_same_name_wins() {
    let r = db_row_from_cells(&strings(&["a", "b", "a"]), &strings(&["1", "2", "3"]));
    assert_eq!(r.len(), 2);
    assert_eq!(r.get("a"), Some(&"3".to_string()));
}

#[test]
fn read_after_insert() {
    let mut m: TextMap<String> = TextMap::new();
    m.insert("k".to_string(), "v1".to_string());
    m.insert("other".to_string(), "x".to_string());
    m.insert("k".to_string(), "v2".to_string());
    assert_eq!(m.get("k"), Some(&"v2".to_string()));
    assert_eq!(m.get("other"), Some(&"x".to_string()));
    assert!(m.contains_key("k"));
    assert!(!m.contains_key("missing"));
    let entries = m.into_entries();
    assert_eq!(entries[0].0, "k");
    assert_eq!(entries.len(), 2);
}

#[test]
fn get_row_needs_exactly_one_row() {
    let one = db_get_row(vec![row(&[("id", "5")])]).unwrap();
    assert_eq!(one.get("id"), Some(&"5".to_string()));
    assert_eq!(
        db_get_row(vec![]).err().unwrap(),
        "Used db_get_row but row count is not 1. (Row count is 0)"
    );
    assert_eq!(
        db_get_row(vec![row(&[("id", "1")]), row(&[("id", "2")])]).err().unwrap(),
        "Used db_get_row but row count is not 1. (Row count is 2)"
    );
}

#[test]
fn values_of_single_column_queries() {
    let rows = vec![row(&[("v", "a")]), row(&[("v", "b")])];
    assert_eq!(db_get_values(&rows), strings(&["a", "b"]));
    assert_eq!(db_get_value(&vec![row(&[("count", "3")])]), "3");
}
