use birber::raw_processing::{dcraw_arguments, dcraw_failure_message, dcraw_search_path, tiff_output_path};
use birber::sync::{
    file_name_match_from_captures, file_names_to_photo_map, folder_unchanged_since, get_file_name_match, is_skipped_folder,
    read_file, FileNameMatch, PhotoGroup,
};

fn strings(v: &[&str]) -> Vec<String> {
    v.iter().map(|s| s.to_string()).collect()
}

#[test]
fn camera_file_names_match() {
    match get_file_name_match(&"B:/Photos/2024/DSC_0042.NEF".to_string()) {
        FileNameMatch::Match { name, suffix } => {
            assert_eq!(name, "DSC_0042");
            assert_eq!(suffix, "NEF");
        }
        FileNameMatch::NoMatch => panic!("expected a match"),
    }
    assert!(matches!(get_file_name_match(&"DSC_1.JPG".to_string()), FileNameMatch::Match { .. }));
    assert!(matches!(get_file_name_match(&"DSC_1.jpg".to_string()), FileNameMatch::NoMatch));
    assert!(matches!(get_file_name_match(&"DSC_1.XMP".to_string()), FileNameMatch::NoMatch));
    assert!(matches!(get_file_name_match(&"IMG_1.JPG".to_string()), FileNameMatch::NoMatch));
    assert!(matches!(get_file_name_match(&"DSC_.JPG".to_string()), FileNameMatch::NoMatch));
}

#[test]
fn grouping_pairs_raw_and_jpg() {
    let files = strings(&[
        "B:/Photos/a/DSC_0001.NEF",
        "B:/Photos/a/DSC_0001.JPG",
        "B:/Photos/a/DSC_0002.JPG",
        "B:/Photos/a/notes.txt",
        "B:/Photos/a/DSC_0003.XMP",
    ]);
    let map = file_names_to_photo_map(&files);
    assert_eq!(map.len(), 2);
    let g1 = map.get("DSC_0001").unwrap();
    assert_eq!(g1.raw, "B:/Photos/a/DSC_0001.NEF");
    assert_eq!(g1.jpg, "B:/Photos/a/DSC_0001.JPG");
    let g2 = map.get("DSC_0002").unwrap();
    assert_eq!(g2.raw, "");
    assert_eq!(g2.jpg, "B:/Photos/a/DSC_0002.JPG");
    assert!(map.get("DSC_0003").is_none());
}

#[test]
fn grouping_keeps_last_listed_file() {
    let files = strings(&["x/DSC_5.JPG", "y/DSC_5.JPG"]);
    let map = file_names_to_photo_map(&files);
    assert_eq!(map.get("DSC_5").unwrap().jpg, "y/DSC_5.JPG");
    assert_eq!(file_names_to_photo_map(&vec![]).len(), 0);
}

#[test]
fn metadata_read_from_jpg_first() {
    let both = PhotoGroup { raw: "a.NEF".to_string(), jpg: "a.JPG".to_string() };
    assert_eq!(both.metadata_path(), "a.JPG");
    let raw_only = PhotoGroup { raw: "a.NEF".to_string(), jpg: String::new() };
    assert_eq!(raw_only.metadata_path(), "a.NEF");
    assert_eq!(PhotoGroup::empty().raw, "");
}

#[test]
fn folder_scan_decisions() {
    assert!(is_skipped_folder("_birber"));
    assert!(!is_skipped_folder("2024"));
    assert!(folder_unchanged_since(10, 11));
    assert!(!folder_unchanged_since(11, 11));
    assert_eq!(read_file("list.txt".to_string()), Ok(vec![]));
}

#[test]
fn dcraw_command_line() {
    assert_eq!(dcraw_arguments("in.NEF", false), strings(&["-4", "-T", "-o0", "in.NEF"]));
    assert_eq!(dcraw_arguments("in.NEF", true), strings(&["-4", "-T", "-h", "-o0", "in.NEF"]));
    assert_eq!(tiff_output_path("in.NEF"), "in.NEF.tiff");
    assert_eq!(dcraw_search_path("C:/bin", "C:/Windows"), "C:/bin;C:/Windows");
    assert_eq!(
        dcraw_failure_message(Some(3), "bad file"),
        format!("dcraw_emu exited with error code {:?}. System message: {}", Some(3), "bad file")
    );
    assert_eq!(
        dcraw_failure_message(None, ""),
        "dcraw_emu exited with error code None. System message: "
    );
}

#[test]
fn search_results_classified() {
    let s = |t: &str| Some(t.to_string());
    assert!(matches!(file_name_match_from_captures(None), FileNameMatch::NoMatch));
    assert!(matches!(file_name_match_from_captures(Some(None)), FileNameMatch::NoMatch));
    assert!(matches!(
        file_name_match_from_captures(Some(Some(vec![s("DSC_1.NEF"), None, s("NEF")]))),
        FileNameMatch::NoMatch
    ));
    assert!(matches!(
        file_name_match_from_captures(Some(Some(vec![s("DSC_1.TIF"), s("DSC_1"), s("TIF")]))),
        FileNameMatch::NoMatch
    ));
    match file_name_match_from_captures(Some(Some(vec![s("DSC_1.NEF"), s("DSC_1"), s("NEF")]))) {
        FileNameMatch::Match { name, suffix } => {
            assert_eq!(name, "DSC_1");
            assert_eq!(suffix, "NEF");
        }
        FileNameMatch::NoMatch => panic!("expected a match"),
    }
}

#[test]
fn every_group_holds_a_path() {
    let files = strings(&["DSC_9.NEF", "DSC_8.JPG", "DSC_9.XMP", "other"]);
    let map = file_names_to_photo_map(&files);
    for (_, g) in map.into_entries() {
        assert!(!g.raw.is_empty() || !g.jpg.is_empty());
    }
}

#[test]
fn raw_row_values_default_date_to_empty() {
    let group = PhotoGroup { raw: "a.NEF".to_string(), jpg: "a.JPG".to_string() };
    let cam_id = "DSC_1".to_string();
    let with_date = birber::sync::raw_row_values(
        &cam_id,
        &group,
        birber::photo_file_manager::PhotoMetadata { date_taken: Some("2024:01:02 03:04:05".to_string()) },
    );
    assert_eq!(with_date, strings(&["DSC_1", "a.NEF", "a.JPG", "2024:01:02 03:04:05"]));
    let without = birber::sync::raw_row_values(
        &cam_id,
        &group,
        birber::photo_file_manager::PhotoMetadata { date_taken: None },
    );
    assert_eq!(without, strings(&["DSC_1", "a.NEF", "a.JPG", ""]));
}
