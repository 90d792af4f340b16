//! Sync: camera files found on disk are grouped by shot. A shot `DSC_1234`
//! may have a raw file `DSC_1234.NEF` and a camera JPG `DSC_1234.JPG`.
use vstd::prelude::*;

use crate::decimal::{decimal_text, lemma_u64_text_round_trip, parse_u64_text};
use crate::entities::raw_record::opt_text;
use crate::photo_file_manager::PhotoMetadata;
use crate::text_map::TextMap;

verus! {

/// The camera file name pattern: the shot name (`DSC_` and digits; `\d` is any
/// Unicode decimal digit), a dot and an ASCII alphanumeric extension, at the
/// end of the path.
pub const FILE_NAME_PATTERN: &'static str = r"(DSC_\d+)\.([a-zA-Z0-9]+)$";

/// What `regex` reports for `pattern` searched in `haystack`: `None` when the
/// pattern does not compile, `Some(None)` when nothing matches, otherwise the
/// groups of the leftmost-first match in order (group 0 is the whole match),
/// each the matched text or `None` for a group that took no part.
pub uninterp spec fn regex_captures(pattern: Seq<char>, haystack: Seq<char>) -> Option<
    Option<Seq<Option<Seq<char>>>>,
>;

/// The text of a search result as the wrapper hands it over.
pub open spec fn captures_text(c: Option<Option<Vec<Option<String>>>>) -> Option<
    Option<Seq<Option<Seq<char>>>>,
> {
    match c {
        None => None,
        Some(None) => Some(None),
        Some(Some(groups)) => Some(Some(groups@.map_values(|g: Option<String>| opt_text(g)))),
    }
}

/// Whether `t` occurs in `h` as a run of consecutive characters.
pub open spec fn occurs_in(t: Seq<char>, h: Seq<char>) -> bool {
    exists|s: int| 0 <= s && s + t.len() <= h.len() && #[trigger] h.subrange(s, s + t.len()) == t
}

/// `regex::Regex::new(pattern)` followed by `Regex::captures(haystack)`, each
/// group converted to its matched text; a pattern that does not compile gives
/// `None` (its error is dropped). The result is the named search result
/// above, which depends on the two texts alone; each matched group is text
/// taken from the haystack (`Match::as_str`).
#[verifier::external_body]
fn find_captures(pattern: &str, haystack: &str) -> (r: Option<Option<Vec<Option<String>>>>)
    ensures
        captures_text(r) == regex_captures(pattern@, haystack@),
        r matches Some(Some(groups)) ==> forall|i: int|
            0 <= i < groups@.len() ==> (#[trigger] groups@[i] matches Some(t) ==> occurs_in(
                t@,
                haystack@,
            )),
{
    match regex::Regex::new(pattern) {
        Ok(re) => Some(
            re.captures(haystack).map(
                |c| c.iter().map(|g| g.map(|g| g.as_str().to_string())).collect(),
            ),
        ),
        Err(_) => None,
    }
}

/// A path that names a camera file, or not.
pub enum FileNameMatch {
    NoMatch,
    Match { name: String, suffix: String },
}

/// The shot name and extension that a match carries.
pub open spec fn match_view(m: FileNameMatch) -> Option<(Seq<char>, Seq<char>)> {
    match m {
        FileNameMatch::NoMatch => None,
        FileNameMatch::Match { name, suffix } => Some((name@, suffix@)),
    }
}

/// The shot name and extension of a search result whose extension is `JPG`
/// or `NEF`; `None` for no match, for another extension, or for a result
/// without the two groups.
pub open spec fn match_parts(c: Option<Option<Seq<Option<Seq<char>>>>>) -> Option<
    (Seq<char>, Seq<char>),
> {
    match c {
        Some(Some(g)) => if g.len() > 2 && g[1] is Some && g[2] is Some && (g[2].unwrap()
            == "JPG"@ || g[2].unwrap() == "NEF"@) {
            Some((g[1].unwrap(), g[2].unwrap()))
        } else {
            None
        },
        _ => None,
    }
}

/// The shot name and extension of a camera file path.
pub open spec fn file_name_parts(path: Seq<char>) -> Option<(Seq<char>, Seq<char>)> {
    match_parts(regex_captures(FILE_NAME_PATTERN@, path))
}

/// Classifies a search result: a match when groups 1 and 2 are there and the
/// extension is `JPG` or `NEF`.
pub fn file_name_match_from_captures(c: Option<Option<Vec<Option<String>>>>) -> (m: FileNameMatch)
    ensures
        match_view(m) == match_parts(captures_text(c)),
{
    let jpg = String::from_str("JPG");
    let nef = String::from_str("NEF");
    match c {
        Some(Some(groups)) => {
            let ghost gt = groups@.map_values(|g: Option<String>| opt_text(g));
            if groups.len() > 2 {
                assert(gt[1] == opt_text(groups@[1]));
                assert(gt[2] == opt_text(groups@[2]));
                match (&groups[1], &groups[2]) {
                    (Some(name), Some(suffix)) => {
                        if *suffix == jpg || *suffix == nef {
                            FileNameMatch::Match { name: name.clone(), suffix: suffix.clone() }
                        } else {
                            FileNameMatch::NoMatch
                        }
                    },
                    _ => FileNameMatch::NoMatch,
                }
            } else {
                FileNameMatch::NoMatch
            }
        },
        _ => FileNameMatch::NoMatch,
    }
}

/// Finds `DSC_xxxx.JPG` and `DSC_xxxx.NEF` file names at the end of a path.
pub fn get_file_name_match(path: &String) -> (m: FileNameMatch)
    ensures
        match_view(m) == file_name_parts(path@),
        match_view(m) is Some ==> path@.len() > 0,
{
    let c = find_captures(FILE_NAME_PATTERN, path.as_str());
    let ghost ct = captures_text(c);
    let m = file_name_match_from_captures(c);
    proof {
        if match_view(m) is Some {
            let groups = c->0->0;
            assert(groups@.len() > 2);
            let g2 = ct->0->0[2];
            assert(g2 == opt_text(groups@[2]));
            assert(groups@[2] matches Some(t) && occurs_in(t@, path@));
            reveal_strlit("JPG");
            reveal_strlit("NEF");
            assert(g2.unwrap().len() == 3);
        }
    }
    m
}

/// The files of one shot; an empty path when the shot has no such file.
pub struct PhotoGroup {
    pub raw: String,
    pub jpg: String,
}

/// Shot name to its files.
pub type PhotoMap = TextMap<PhotoGroup>;

/// A shot's files by their text: (raw, jpg).
pub type GroupText = (Seq<char>, Seq<char>);

/// The groups of a photo map by their text.
pub open spec fn groups_view(m: Map<Seq<char>, PhotoGroup>) -> Map<Seq<char>, GroupText> {
    m.map_values(|g: PhotoGroup| (g.raw@, g.jpg@))
}

/// Entering one file: a file of shot `name` joins the group of that name
/// (made empty if new); a JPG becomes its jpg, a NEF its raw. A file that is
/// not a camera file changes nothing.
pub open spec fn add_file_spec(
    m: Map<Seq<char>, GroupText>,
    file: Seq<char>,
    parts: Option<(Seq<char>, Seq<char>)>,
) -> Map<Seq<char>, GroupText> {
    match parts {
        None => m,
        Some((name, suffix)) => {
            let g = if m.contains_key(name) {
                m[name]
            } else {
                (Seq::empty(), Seq::empty())
            };
            m.insert(
                name,
                if suffix == "JPG"@ {
                    (g.0, file)
                } else if suffix == "NEF"@ {
                    (file, g.1)
                } else {
                    g
                },
            )
        },
    }
}

/// The groups that a list of paths gives when the paths are entered in order.
pub open spec fn group_files(files: Seq<Seq<char>>) -> Map<Seq<char>, GroupText>
    decreases files.len(),
{
    if files.len() == 0 {
        Map::empty()
    } else {
        add_file_spec(group_files(files.drop_last()), files.last(), file_name_parts(files.last()))
    }
}

impl PhotoGroup {
    /// A group with neither file.
    pub fn empty() -> (g: PhotoGroup)
        ensures
            g.raw@ == Seq::<char>::empty(),
            g.jpg@ == Seq::<char>::empty(),
    {
        PhotoGroup { raw: String::new(), jpg: String::new() }
    }

    /// A copy of the group.
    pub fn duplicate(&self) -> (g: PhotoGroup)
        ensures
            g == *self,
    {
        PhotoGroup { raw: self.raw.clone(), jpg: self.jpg.clone() }
    }

    /// The file that a shot's metadata is read from: the JPG when there is
    /// one, else the raw.
    pub fn metadata_path(&self) -> (p: &String)
        ensures
            p == (if self.jpg@.len() == 0 {
                &self.raw
            } else {
                &self.jpg
            }),
    {
        if self.jpg.as_str().is_empty() {
            &self.raw
        } else {
            &self.jpg
        }
    }
}

/// The values a sync stores for a shot in the `raws` table, in column order
/// (`cam_id`, `raw_path`, `jpg_path`, `date_taken`): the shot's name, its two
/// paths, and the date read from its metadata, empty when none was found.
pub fn raw_row_values(cam_id: &String, group: &PhotoGroup, metadata: PhotoMetadata) -> (v: Vec<
    String,
>)
    ensures
        v@.map_values(|s: String| s@) == seq![
            cam_id@,
            group.raw@,
            group.jpg@,
            match metadata.date_taken {
                Some(d) => d@,
                None => Seq::<char>::empty(),
            },
        ],
{
    let date = match metadata.date_taken {
        Some(d) => d,
        None => String::new(),
    };
    let mut v: Vec<String> = Vec::new();
    v.push(cam_id.clone());
    v.push(group.raw.clone());
    v.push(group.jpg.clone());
    v.push(date);
    assert(v@.map_values(|s: String| s@) =~= seq![
        cam_id@,
        group.raw@,
        group.jpg@,
        match metadata.date_taken {
            Some(d) => d@,
            None => Seq::<char>::empty(),
        },
    ]);
    v
}

/// Enters one path, with what its name matched, into the groups.
pub fn add_file_to_photo_map(map: &mut PhotoMap, file_name: &String, m: FileNameMatch)
    ensures
        groups_view(final(map)@) == add_file_spec(groups_view(old(map)@), file_name@, match_view(m)),
{
    match m {
        FileNameMatch::NoMatch => {},
        FileNameMatch::Match { name, suffix } => {
            let ghost old_groups = groups_view(map@);
            let ghost name_text = name@;
            let mut group = match map.get(name.as_str()) {
                Some(g) => g.duplicate(),
                None => PhotoGroup::empty(),
            };
            assert(group.raw@ == (if old_groups.contains_key(name_text) {
                old_groups[name_text]
            } else {
                (Seq::<char>::empty(), Seq::<char>::empty())
            }).0);
            let jpg = String::from_str("JPG");
            let nef = String::from_str("NEF");
            if suffix == jpg {
                group.jpg = file_name.clone();
            } else if suffix == nef {
                group.raw = file_name.clone();
            }
            map.insert(name, group);
            assert(groups_view(map@) =~= add_file_spec(old_groups, file_name@, Some((name_text, suffix@))));
        },
    }
}

/// Every group holds at least one path that is not empty.
pub open spec fn groups_nonempty(m: Map<Seq<char>, GroupText>) -> bool {
    forall|k: Seq<char>| #[trigger] m.contains_key(k) ==> m[k].0.len() > 0 || m[k].1.len() > 0
}

/// Entering a JPG or NEF file with a nonempty path, or a file that is not a
/// camera file, keeps every group holding a nonempty path.
pub proof fn lemma_add_file_keeps_groups_nonempty(
    m: Map<Seq<char>, GroupText>,
    file: Seq<char>,
    parts: Option<(Seq<char>, Seq<char>)>,
)
    requires
        groups_nonempty(m),
        parts matches Some((n, s)) ==> file.len() > 0 && (s == "JPG"@ || s == "NEF"@),
    ensures
        groups_nonempty(add_file_spec(m, file, parts)),
{
    let r = add_file_spec(m, file, parts);
    assert forall|k: Seq<char>| #[trigger] r.contains_key(k) implies r[k].0.len() > 0 || r[k].1.len()
        > 0 by {
        if let Some((n, s)) = parts {
            if k != n {
                assert(m.contains_key(k));
            }
        }
    }
}

/// Groups the camera files among `file_names` by shot. Every group holds at
/// least one path.
pub fn file_names_to_photo_map(file_names: &Vec<String>) -> (map: PhotoMap)
    ensures
        groups_view(map@) == group_files(file_names@.map_values(|f: String| f@)),
        groups_nonempty(groups_view(map@)),
{
    let mut map: PhotoMap = TextMap::new();
    let n = file_names.len();
    let mut i: usize = 0;
    let ghost files = file_names@.map_values(|f: String| f@);
    assert(files.subrange(0, 0) =~= Seq::<Seq<char>>::empty());
    assert(groups_view(map@) =~= Map::<Seq<char>, GroupText>::empty());
    assert(groups_nonempty(groups_view(map@)));
    while i < n
        invariant
            n == file_names@.len(),
            files == file_names@.map_values(|f: String| f@),
            i <= n,
            groups_view(map@) == group_files(files.subrange(0, i as int)),
            groups_nonempty(groups_view(map@)),
        decreases n - i,
    {
        let file_name = &file_names[i];
        let m = get_file_name_match(file_name);
        proof {
            lemma_add_file_keeps_groups_nonempty(
                groups_view(map@),
                file_name@,
                match_view(m),
            );
        }
        add_file_to_photo_map(&mut map, file_name, m);
        proof {
            let s = files.subrange(0, i + 1);
            assert(s.drop_last() =~= files.subrange(0, i as int));
            assert(s.last() == file_name@);
        }
        i = i + 1;
    }
    assert(files.subrange(0, n as int) =~= files);
    map
}

/// Whether some path in `files` is a camera file of shot `name` with extension `suffix`.
pub open spec fn has_file_of(files: Seq<Seq<char>>, name: Seq<char>, suffix: Seq<char>) -> bool {
    exists|i: int| 0 <= i < files.len() && file_name_parts(files[i]) == Some((name, suffix))
}

/// The last path in `files` that is a camera file of shot `name` with
/// extension `suffix`; empty when there is none.
pub open spec fn latest_file_of(files: Seq<Seq<char>>, name: Seq<char>, suffix: Seq<char>) -> Seq<
    char,
>
    decreases files.len(),
{
    if files.len() == 0 {
        Seq::empty()
    } else if file_name_parts(files.last()) == Some((name, suffix)) {
        files.last()
    } else {
        latest_file_of(files.drop_last(), name, suffix)
    }
}

/// Grouping camera files: a shot has a group exactly when some listed path is
/// its JPG or NEF file, and the group holds the last listed NEF file of the
/// shot as its raw and the last listed JPG file as its jpg (empty when the
/// shot has none of that kind).
pub proof fn lemma_group_files(files: Seq<Seq<char>>, name: Seq<char>)
    ensures
        group_files(files).contains_key(name) <==> (has_file_of(files, name, "JPG"@) || has_file_of(
            files,
            name,
            "NEF"@,
        )),
        group_files(files).contains_key(name) ==> group_files(files)[name] == (
            latest_file_of(files, name, "NEF"@),
            latest_file_of(files, name, "JPG"@),
        ),
    decreases files.len(),
{
    reveal_strlit("JPG");
    reveal_strlit("NEF");
    assert("JPG"@ != "NEF"@) by {
        assert("JPG"@[0] != "NEF"@[0]);
    }
    if files.len() == 0 {
        assert(!has_file_of(files, name, "JPG"@));
        assert(!has_file_of(files, name, "NEF"@));
    } else {
        let init = files.drop_last();
        let last = files.last();
        lemma_group_files(init, name);
        assert forall|suffix: Seq<char>| #[trigger]
            has_file_of(files, name, suffix) <==> (has_file_of(init, name, suffix)
                || file_name_parts(last) == Some((name, suffix))) by {
            if has_file_of(files, name, suffix) {
                let i = choose|i: int|
                    0 <= i < files.len() && file_name_parts(files[i]) == Some((name, suffix));
                if i < init.len() {
                    assert(init[i] == files[i]);
                }
            }
            if has_file_of(init, name, suffix) {
                let i = choose|i: int|
                    0 <= i < init.len() && file_name_parts(init[i]) == Some((name, suffix));
                assert(files[i] == init[i]);
            }
            if file_name_parts(last) == Some((name, suffix)) {
                assert(files[files.len() - 1] == last);
            }
        }
        assert(has_file_of(files, name, "JPG"@) <==> (has_file_of(init, name, "JPG"@)
            || file_name_parts(last) == Some((name, "JPG"@))));
        assert(has_file_of(files, name, "NEF"@) <==> (has_file_of(init, name, "NEF"@)
            || file_name_parts(last) == Some((name, "NEF"@))));
        lemma_latest_without_file(init, name, "JPG"@);
        lemma_latest_without_file(init, name, "NEF"@);
        let g = group_files(init);
        match file_name_parts(last) {
            Some((n, s)) => {
                if n == name {
                    if s == "JPG"@ {
                        assert(group_files(files)[name] == (
                            latest_file_of(init, name, "NEF"@),
                            last,
                        ));
                    } else {
                        assert(s == "NEF"@);
                        assert(group_files(files)[name] == (
                            last,
                            latest_file_of(init, name, "JPG"@),
                        ));
                    }
                } else {
                    assert(group_files(files).contains_key(name) == g.contains_key(name));
                }
            },
            None => {},
        }
    }
}

/// With no such file listed, the latest one is empty.
proof fn lemma_latest_without_file(files: Seq<Seq<char>>, name: Seq<char>, suffix: Seq<char>)
    ensures
        !has_file_of(files, name, suffix) ==> latest_file_of(files, name, suffix) == Seq::<
            char,
        >::empty(),
    decreases files.len(),
{
    if files.len() > 0 && !has_file_of(files, name, suffix) {
        let init = files.drop_last();
        if has_file_of(init, name, suffix) {
            let i = choose|i: int|
                0 <= i < init.len() && file_name_parts(init[i]) == Some((name, suffix));
            assert(files[i] == init[i]);
        }
        assert(file_name_parts(files[files.len() - 1]) != Some((name, suffix)));
        lemma_latest_without_file(init, name, suffix);
    }
}

/// Whether a folder is the library's own and is left out of the scan.
pub fn is_skipped_folder(folder_name: &str) -> (b: bool)
    ensures
        b == (folder_name@ == "_birber"@),
{
    let own = String::from_str("_birber");
    folder_name.to_owned() == own
}

/// Whether a folder last modified at `modified_ms` (milliseconds since the
/// epoch) is left out because nothing changed in it since the last sync.
pub fn folder_unchanged_since(modified_ms: u64, last_sync: u64) -> (b: bool)
    ensures
        b == (modified_ms < last_sync),
{
    modified_ms < last_sync
}

/// The time of a sync, stored as its decimal text, is read back unchanged by
/// the next sync.
pub proof fn lemma_last_sync_round_trip(timestamp_ms: u64)
    ensures
        parse_u64_text(decimal_text(timestamp_ms as nat)) == Some(timestamp_ms),
{
    lemma_u64_text_round_trip(timestamp_ms);
}

/// Reading a listing file is not implemented: it gives no lines.
pub fn read_file(path: String) -> (r: Result<Vec<String>, String>)
    ensures
        r matches Ok(v) && v@.len() == 0,
{
    let result = Vec::new();
    Ok(result)
}

} // verus!
