//! Single settings kept in the `meta` table, such as the time of the last sync.
use vstd::prelude::*;

verus! {

/// Settings stored by key in the `meta` table.
pub struct MetaData {}

/// What looking a key up in the `meta` table gave.
pub enum MetaLookup {
    /// The stored value.
    Found(String),
    /// No row has the key.
    NoRows,
    /// The query failed, with the database's message.
    Failed(String),
}

impl MetaData {
    /// The value of a setting: the stored value, `default` when none is
    /// stored, or the query's error message.
    pub fn get(lookup: MetaLookup, default: &str) -> (r: Result<String, String>)
        ensures
            match lookup {
                MetaLookup::Found(v) => r matches Ok(s) && s@ == v@,
                MetaLookup::NoRows => r matches Ok(s) && s@ == default@,
                MetaLookup::Failed(e) => r matches Err(m) && m@ == e@,
            },
    {
        match lookup {
            MetaLookup::Found(v) => Ok(v),
            MetaLookup::NoRows => Ok(String::from_str(default)),
            MetaLookup::Failed(e) => Err(e),
        }
    }
}

} // verus!
