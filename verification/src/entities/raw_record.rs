//! A raw: one camera shot, with the paths of its raw (NEF) and camera JPG files.
use vstd::prelude::*;

use crate::db_schema::DbRow;
use crate::decimal::{parse_i64, parse_i64_text};
use crate::{get_preview_folder, get_thumbnail_folder, preview_folder, thumbnail_folder};

verus! {

/// A camera shot as stored in the `raws` table.
pub struct RawRecord {
    pub id: i64,
    pub cam_id: String,
    pub raw_path: Option<String>,
    pub jpg_path: Option<String>,
    pub preview: Option<String>,
    pub thumbnail: Option<String>,
    pub date_taken: Option<String>,
    pub in_trash: bool,
}

/// The text of an optional string.
pub open spec fn opt_text(o: Option<String>) -> Option<Seq<char>> {
    match o {
        Some(s) => Some(s@),
        None => None,
    }
}

/// The text of column `column` of `row` when it is present and not empty.
pub open spec fn nonempty_cell(row: Map<Seq<char>, String>, column: Seq<char>) -> Option<
    Seq<char>,
> {
    if row.contains_key(column) && row[column]@.len() > 0 {
        Some(row[column]@)
    } else {
        None
    }
}

/// A row that a raw can be read from: it has a `cam_id` column and an `id`
/// column whose text is a signed 64-bit decimal number.
pub open spec fn raw_row_readable(row: Map<Seq<char>, String>) -> bool {
    &&& row.contains_key("id"@)
    &&& parse_i64_text(row["id"@]@) is Some
    &&& row.contains_key("cam_id"@)
}

/// The raw that a readable row describes: every optional column that is
/// missing or empty reads as `None`, and the raw is in the trash exactly when
/// `in_trash` reads `1`.
pub open spec fn raw_from_row(rec: RawRecord, row: Map<Seq<char>, String>) -> bool {
    &&& rec.id == parse_i64_text(row["id"@]@).unwrap()
    &&& rec.cam_id@ == row["cam_id"@]@
    &&& opt_text(rec.raw_path) == nonempty_cell(row, "raw_path"@)
    &&& opt_text(rec.jpg_path) == nonempty_cell(row, "jpg_path"@)
    &&& opt_text(rec.preview) == nonempty_cell(row, "preview"@)
    &&& opt_text(rec.thumbnail) == nonempty_cell(row, "thumbnail"@)
    &&& opt_text(rec.date_taken) == nonempty_cell(row, "date_taken"@)
    &&& rec.in_trash == (row.contains_key("in_trash"@) && row["in_trash"@]@ == "1"@)
}

/// Whether `field` holds what column `column` of `row` says: the column's
/// text when the column is there and not empty, nothing otherwise.
pub open spec fn read_from_column(
    field: Option<String>,
    row: Map<Seq<char>, String>,
    column: Seq<char>,
) -> bool {
    match field {
        Some(t) => row.contains_key(column) && t@ == row[column]@ && t@.len() > 0,
        None => !row.contains_key(column) || row[column]@.len() == 0,
    }
}

/// Each optional field of a raw read from a row holds the column of its own
/// name: `raw_path`, `jpg_path`, `preview`, `thumbnail` and `date_taken`.
pub proof fn lemma_raw_fields_by_column(rec: RawRecord, row: Map<Seq<char>, String>)
    requires
        raw_row_readable(row),
        raw_from_row(rec, row),
    ensures
        read_from_column(rec.raw_path, row, "raw_path"@),
        read_from_column(rec.jpg_path, row, "jpg_path"@),
        read_from_column(rec.preview, row, "preview"@),
        read_from_column(rec.thumbnail, row, "thumbnail"@),
        read_from_column(rec.date_taken, row, "date_taken"@),
{
}

/// The path of a raw's thumbnail.
pub open spec fn raw_thumbnail_path(content_root: Seq<char>, cam_id: Seq<char>) -> Seq<char> {
    thumbnail_folder(content_root) + "/"@ + cam_id + "_thumbnail.jpg"@
}

/// The path of a raw's preview.
pub open spec fn raw_preview_path(content_root: Seq<char>, cam_id: Seq<char>) -> Seq<char> {
    preview_folder(content_root) + "/"@ + cam_id + "_preview.jpg"@
}

/// The column `column` of `row` when present and not empty.
fn nonempty_column(row: &DbRow, column: &str) -> (r: Option<String>)
    ensures
        opt_text(r) == nonempty_cell(row@, column@),
{
    match row.get(column) {
        Some(s) => {
            if s.as_str().is_empty() {
                None
            } else {
                Some(s.clone())
            }
        },
        None => None,
    }
}

/// `std::path::Path::exists`: whether a file or directory is found at `path`.
/// What it returns depends on the disk, so nothing is stated of the result.
#[verifier::external_body]
fn path_exists(path: &str) -> bool {
    std::path::Path::new(path).exists()
}

impl RawRecord {
    /// Reads a raw from a row of the `raws` query. The `id` and `cam_id`
    /// columns must be present and the `id` a decimal number.
    pub fn try_from(row: &DbRow) -> (r: Result<RawRecord, String>)
        requires
            raw_row_readable(row@),
        ensures
            r matches Ok(rec) && raw_from_row(rec, row@),
            r matches Ok(rec) ==> read_from_column(rec.preview, row@, "preview"@)
                && read_from_column(rec.thumbnail, row@, "thumbnail"@),
    {
        let id = parse_i64(row.get("id").unwrap().as_str()).unwrap();
        let cam_id = row.get("cam_id").unwrap().clone();
        let one = String::from_str("1");
        let in_trash = match row.get("in_trash") {
            Some(s) => *s == one,
            None => false,
        };
        Ok(RawRecord {
            id,
            cam_id,
            raw_path: nonempty_column(row, "raw_path"),
            jpg_path: nonempty_column(row, "jpg_path"),
            preview: nonempty_column(row, "preview"),
            thumbnail: nonempty_column(row, "thumbnail"),
            date_taken: nonempty_column(row, "date_taken"),
            in_trash,
        })
    }

    /// Reads every row of a `raws` query, in order.
    pub fn from_rows(rows: &Vec<DbRow>) -> (r: Result<Vec<RawRecord>, String>)
        requires
            forall|i: int| 0 <= i < rows@.len() ==> raw_row_readable(#[trigger] rows@[i]@),
        ensures
            r matches Ok(recs) && recs@.len() == rows@.len() && forall|i: int|
                0 <= i < rows@.len() ==> raw_from_row(#[trigger] recs@[i], rows@[i]@),
    {
        let mut recs: Vec<RawRecord> = Vec::new();
        let n = rows.len();
        let mut i: usize = 0;
        while i < n
            invariant
                n == rows@.len(),
                i <= n,
                forall|j: int| 0 <= j < rows@.len() ==> raw_row_readable(#[trigger] rows@[j]@),
                recs@.len() == i,
                forall|j: int| 0 <= j < i ==> raw_from_row(#[trigger] recs@[j], rows@[j]@),
            decreases n - i,
        {
            assert(raw_row_readable(rows@[i as int]@));
            match RawRecord::try_from(&rows[i]) {
                Ok(rec) => recs.push(rec),
                Err(e) => return Err(e),
            }
            i = i + 1;
        }
        Ok(recs)
    }

    /// The path of the raw (NEF) file, or an error when there is none.
    pub fn get_raw_path(&self) -> (r: Result<String, String>)
        ensures
            match self.raw_path {
                Some(p) => r matches Ok(q) && q@ == p@,
                None => r matches Err(e) && e@ == "Fetching raw path when raw path is empty."@,
            },
    {
        match &self.raw_path {
            Some(p) => Ok(p.clone()),
            None => Err(String::from_str("Fetching raw path when raw path is empty.")),
        }
    }

    /// The path of the camera JPG, or an error when there is none.
    pub fn get_jpg_path(&self) -> (r: Result<String, String>)
        ensures
            match self.jpg_path {
                Some(p) => r matches Ok(q) && q@ == p@,
                None => r matches Err(e) && e@ == "Fetching jpg path when jpg path is empty."@,
            },
    {
        match &self.jpg_path {
            Some(p) => Ok(p.clone()),
            None => Err(String::from_str("Fetching jpg path when jpg path is empty.")),
        }
    }

    /// Where the raw's thumbnail is written.
    pub fn get_thumbnail_path(&self, content_root: &str) -> (r: String)
        ensures
            r@ == raw_thumbnail_path(content_root@, self.cam_id@),
    {
        let mut r = get_thumbnail_folder(content_root);
        r.append("/");
        r.append(self.cam_id.as_str());
        r.append("_thumbnail.jpg");
        r
    }

    /// Where the raw's preview is written.
    pub fn get_preview_path(&self, content_root: &str) -> (r: String)
        ensures
            r@ == raw_preview_path(content_root@, self.cam_id@),
    {
        let mut r = get_preview_folder(content_root);
        r.append("/");
        r.append(self.cam_id.as_str());
        r.append("_preview.jpg");
        r
    }

    /// Whether the raw has a raw (NEF) file: a path that is not empty.
    pub fn has_nef_file(&self) -> (b: bool)
        ensures
            b == (self.raw_path matches Some(p) && p@.len() > 0),
    {
        match &self.raw_path {
            Some(p) => !p.as_str().is_empty(),
            None => false,
        }
    }

    /// Whether the raw's thumbnail file (at `get_thumbnail_path`) exists.
    /// Asking never fails. The answer comes from the disk, so the contract
    /// states only that it is `Ok`, not which path was asked about.
    pub fn has_thumbnail_file(&self, content_root: &str) -> (r: Result<bool, String>)
        ensures
            r is Ok,
    {
        let p = self.get_thumbnail_path(content_root);
        Ok(path_exists(p.as_str()))
    }
}

/// A raw read from a row has a raw file exactly when asking for its raw path succeeds.
pub proof fn lemma_row_raw_has_nef_iff_raw_path(rec: RawRecord, row: Map<Seq<char>, String>)
    requires
        raw_from_row(rec, row),
    ensures
        (rec.raw_path matches Some(p) && p@.len() > 0) <==> rec.raw_path is Some,
{
}

/// Raws with different camera ids have different thumbnail paths, and different preview paths.
pub proof fn lemma_raw_paths_distinct(content_root: Seq<char>, a: Seq<char>, b: Seq<char>)
    requires
        a != b,
    ensures
        raw_thumbnail_path(content_root, a) != raw_thumbnail_path(content_root, b),
        raw_preview_path(content_root, a) != raw_preview_path(content_root, b),
{
    let p = thumbnail_folder(content_root) + "/"@;
    let s = "_thumbnail.jpg"@;
    lemma_affix_injective(p, a, b, s);
    let q = preview_folder(content_root) + "/"@;
    let t = "_preview.jpg"@;
    lemma_affix_injective(q, a, b, t);
}

/// Putting the same text before and after two different texts keeps them different.
pub proof fn lemma_affix_injective(p: Seq<char>, a: Seq<char>, b: Seq<char>, s: Seq<char>)
    requires
        a != b,
    ensures
        p + a + s != p + b + s,
{
    if p + a + s == p + b + s {
        if a.len() == b.len() {
            assert forall|i: int| 0 <= i < a.len() implies a[i] == b[i] by {
                assert((p + a + s)[p.len() + i] == a[i]);
                assert((p + b + s)[p.len() + i] == b[i]);
            }
            assert(a =~= b);
        } else {
            assert((p + a + s).len() != (p + b + s).len());
        }
    }
}

} // verus!
