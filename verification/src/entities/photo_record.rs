//! A photo: a render of a raw with its own render settings, rating and files.
use vstd::prelude::*;

use crate::db_schema::DbRow;
use crate::decimal::{
    lemma_signed_decimal_text_injective, parse_i64, parse_i64_text, push_signed_decimal,
    signed_decimal_text,
};
use crate::entities::raw_record::{lemma_affix_injective, RawRecord};
use crate::{get_preview_folder, get_thumbnail_folder, preview_folder, thumbnail_folder};

verus! {

/// A photo as stored in the `photos` table, with its raw. The render
/// settings `P` are carried as the caller parsed them.
pub struct PhotoRecord<P> {
    pub id: i64,
    pub raw: RawRecord,
    pub file_path: String,
    pub pipeline_params: P,
    pub rating: Option<String>,
    pub thumbnail: String,
}

/// The path of the preview of photo `id`.
pub open spec fn photo_preview_path(content_root: Seq<char>, id: i64) -> Seq<char> {
    preview_folder(content_root) + "/photo_"@ + signed_decimal_text(id as int) + ".jpg"@
}

/// The path of the thumbnail of photo `id`.
pub open spec fn photo_thumbnail_path(content_root: Seq<char>, id: i64) -> Seq<char> {
    thumbnail_folder(content_root) + "/PHOTO"@ + signed_decimal_text(id as int) + "_thumbnail.jpg"@
}

/// A row that a photo can be read from: an `id` column holding a signed
/// 64-bit decimal number and a `rating` column.
pub open spec fn photo_row_readable(row: Map<Seq<char>, String>) -> bool {
    &&& row.contains_key("id"@)
    &&& parse_i64_text(row["id"@]@) is Some
    &&& row.contains_key("rating"@)
}

impl<P> PhotoRecord<P> {
    /// The path of this photo's preview.
    pub fn get_preview_path(&self, content_root: &str) -> (r: String)
        ensures
            r@ == photo_preview_path(content_root@, self.id),
    {
        Self::preview_path_by_id(content_root, self.id)
    }

    /// The path of the preview of the photo with id `id`.
    pub fn preview_path_by_id(content_root: &str, id: i64) -> (r: String)
        ensures
            r@ == photo_preview_path(content_root@, id),
    {
        let mut r = get_preview_folder(content_root);
        r.append("/photo_");
        push_signed_decimal(&mut r, id);
        r.append(".jpg");
        r
    }

    /// The path of this photo's thumbnail.
    pub fn get_thumbnail_path(&self, content_root: &str) -> (r: String)
        ensures
            r@ == photo_thumbnail_path(content_root@, self.id),
    {
        Self::thumbnail_path_by_id(content_root, self.id)
    }

    /// The path of the thumbnail of the photo with id `id`.
    pub fn thumbnail_path_by_id(content_root: &str, id: i64) -> (r: String)
        ensures
            r@ == photo_thumbnail_path(content_root@, id),
    {
        let mut r = get_thumbnail_folder(content_root);
        r.append("/PHOTO");
        push_signed_decimal(&mut r, id);
        r.append("_thumbnail.jpg");
        r
    }

    /// Reads a photo from a row of the photos query, given its raw and its
    /// parsed render settings. The file path and thumbnail follow from the id;
    /// an empty rating reads as none.
    pub fn from_row(row: &DbRow, raw: RawRecord, pipeline_params: P, content_root: &str) -> (r:
        PhotoRecord<P>)
        requires
            photo_row_readable(row@),
        ensures
            r.id == parse_i64_text(row@["id"@]@).unwrap(),
            r.raw == raw,
            r.pipeline_params == pipeline_params,
            r.file_path@ == photo_preview_path(content_root@, r.id),
            r.thumbnail@ == photo_thumbnail_path(content_root@, r.id),
            match r.rating {
                Some(s) => row@["rating"@]@.len() > 0 && s@ == row@["rating"@]@,
                None => row@["rating"@]@.len() == 0,
            },
    {
        let id = parse_i64(row.get("id").unwrap().as_str()).unwrap();
        let rating_cell = row.get("rating").unwrap();
        let rating = if rating_cell.as_str().is_empty() {
            None
        } else {
            Some(rating_cell.clone())
        };
        PhotoRecord {
            id,
            raw,
            file_path: Self::preview_path_by_id(content_root, id),
            pipeline_params,
            rating,
            thumbnail: Self::thumbnail_path_by_id(content_root, id),
        }
    }
}

/// Photos with different ids never share a preview path or a thumbnail path.
pub proof fn lemma_photo_paths_distinct(content_root: Seq<char>, a: i64, b: i64)
    requires
        a != b,
    ensures
        photo_preview_path(content_root, a) != photo_preview_path(content_root, b),
        photo_thumbnail_path(content_root, a) != photo_thumbnail_path(content_root, b),
{
    let ta = signed_decimal_text(a as int);
    let tb = signed_decimal_text(b as int);
    if ta == tb {
        lemma_signed_decimal_text_injective(a, b);
    }
    lemma_affix_injective(preview_folder(content_root) + "/photo_"@, ta, tb, ".jpg"@);
    lemma_affix_injective(thumbnail_folder(content_root) + "/PHOTO"@, ta, tb, "_thumbnail.jpg"@);
}

} // verus!
