//! The verified core of the Birber photo library: database row handling,
//! record entities, photo-file grouping and the paths of generated files.
//!
//! Everything that touches the file system, the environment, the database
//! connection or the user interface stays outside this crate; the functions
//! here take what those produced as plain values.
use vstd::prelude::*;

pub mod db_schema;
pub mod decimal;
pub mod entities;
pub mod metatable;
pub mod photo_file_manager;
pub mod photo_queries;
pub mod raw_processing;
pub mod sync;
pub mod text_map;

verus! {

/// The state that the application keeps for its commands: the shared database connection.
pub struct SharedDbState(pub db_schema::DbPool);

/// The folder that the library keeps its own files in, inside the content root.
pub open spec fn birber_folder(content_root: Seq<char>) -> Seq<char> {
    content_root + "_birber/"@
}

/// The folder of rendered previews.
pub open spec fn preview_folder(content_root: Seq<char>) -> Seq<char> {
    birber_folder(content_root) + "previews/"@
}

/// The folder of thumbnails.
pub open spec fn thumbnail_folder(content_root: Seq<char>) -> Seq<char> {
    birber_folder(content_root) + "thumbnails/"@
}

/// `a` followed by `b`, as a new string.
fn concat_text(a: &str, b: &str) -> (r: String)
    ensures
        r@ == a@ + b@,
{
    let mut r = String::from_str(a);
    r.append(b);
    r
}

/// The `_birber/` folder inside the content root (the folder that raws are fetched from).
pub fn get_birder_folder(content_root: &str) -> (r: String)
    ensures
        r@ == birber_folder(content_root@),
{
    concat_text(content_root, "_birber/")
}

/// The path of the database file.
pub fn get_db_path(content_root: &str) -> (r: String)
    ensures
        r@ == content_root@ + "_birber/birber.db"@,
{
    concat_text(content_root, "_birber/birber.db")
}

/// The folder where rendered previews are written.
pub fn get_preview_folder(content_root: &str) -> (r: String)
    ensures
        r@ == preview_folder(content_root@),
{
    let mut r = get_birder_folder(content_root);
    r.append("previews/");
    r
}

/// The folder where thumbnails are written.
pub fn get_thumbnail_folder(content_root: &str) -> (r: String)
    ensures
        r@ == thumbnail_folder(content_root@),
{
    let mut r = get_birder_folder(content_root);
    r.append("thumbnails/");
    r
}

/// The database file lies in the library's own folder, beside the preview
/// and thumbnail folders.
pub proof fn lemma_db_path_in_birber_folder(content_root: Seq<char>)
    ensures
        content_root + "_birber/birber.db"@ == birber_folder(content_root) + "birber.db"@,
{
    reveal_strlit("_birber/birber.db");
    reveal_strlit("_birber/");
    reveal_strlit("birber.db");
    assert(content_root + "_birber/birber.db"@ =~= birber_folder(content_root) + "birber.db"@);
}

} // verus!
