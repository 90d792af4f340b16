use birber::db_schema::{db_row_from_cells, DbRow};
use birber::entities::photo_record::PhotoRecord;
use birber::entities::pipeline_parameters::{to_be_resized, PipelineOutFile};
use birber::entities::raw_record::RawRecord;
use birber::metatable::{MetaData, MetaLookup};
use birber::photo_file_manager::{create_thumbnail, PhotoMetadata, ThumbnailJob};
use birber::photo_queries::get_dates_with_photos;
use birber::{get_birder_folder, get_db_path, get_preview_folder, get_thumbnail_folder};

fn row(pairs: &[(&str, &str)]) -> DbRow {
    let columns: Vec<String> = pairs.iter().map(|p| p.0.to_string()).collect();
    let cells: Vec<String> = pairs.iter().map(|p| p.1.to_string()).collect();
    db_row_from_cells(&columns, &cells)
}

fn raw_row() -> DbRow {
    row(&[
        ("id", "12"),
        ("cam_id", "DSC_0042"),
        ("raw_path", "B:/Photos/DSC_0042.NEF"),
        ("jpg_path", ""),
        ("preview", ""),
        ("thumbnail", ""),
        ("date_taken", "2024:05:01 10:00:00"),
        ("author", ""),
        ("in_trash", "1"),
    ])
}

#[test]
fn folders_under_content_root() {
    assert_eq!(get_birder_folder("B:/Photos/"), "B:/Photos/_birber/");
    assert_eq!(get_db_path("B:/Photos/"), "B:/Photos/_birber/birber.db");
    assert_eq!(get_preview_folder("B:/Photos/"), "B:/Photos/_birber/previews/");
    assert_eq!(get_thumbnail_folder("B:/Photos/"), "B:/Photos/_birber/thumbnails/");
}

#[test]
fn raw_record_from_row() {
    let rec = RawRecord::try_from(&raw_row()).unwrap();
    assert_eq!(rec.id, 12);
    assert_eq!(rec.cam_id, "DSC_0042");
    assert_eq!(rec.raw_path, Some("B:/Photos/DSC_0042.NEF".to_string()));
    assert_eq!(rec.jpg_path, None);
    assert_eq!(rec.preview, None);
    assert_eq!(rec.date_taken, Some("2024:05:01 10:00:00".to_string()));
    assert!(rec.in_trash);
    assert!(rec.has_nef_file());
}

#[test]
fn raw_record_missing_columns_read_as_none() {
    let rec = RawRecord::try_from(&row(&[("id", "-3"), ("cam_id", "X"), ("in_trash", "0")])).unwrap();
    assert_eq!(rec.id, -3);
    assert_eq!(rec.raw_path, None);
    assert_eq!(rec.thumbnail, None);
    assert!(!rec.in_trash);
    assert!(!rec.has_nef_file());
    assert_eq!(rec.get_raw_path().err().unwrap(), "Fetching raw path when raw path is empty.");
    assert_eq!(rec.get_jpg_path().err().unwrap(), "Fetching jpg path when jpg path is empty.");
}

#[test]
fn raw_records_from_rows_in_order() {
    let rows = vec![raw_row(), row(&[("id", "13"), ("cam_id", "DSC_0043")])];
    let recs = RawRecord::from_rows(&rows).unwrap();
    assert_eq!(recs.len(), 2);
    assert_eq!(recs[1].cam_id, "DSC_0043");
}

#[test]
fn raw_paths() {
    let rec = RawRecord::try_from(&raw_row()).unwrap();
    assert_eq!(rec.get_raw_path().unwrap(), "B:/Photos/DSC_0042.NEF");
    assert_eq!(
        rec.get_thumbnail_path("R/"),
        "R/_birber/thumbnails//DSC_0042_thumbnail.jpg"
    );
    assert_eq!(rec.get_preview_path("R/"), "R/_birber/previews//DSC_0042_preview.jpg");
    assert_eq!(rec.has_thumbnail_file("/nonexistent-root/"), Ok(false));
}

#[test]
fn raw_paths_differ_for_different_shots() {
    let a = RawRecord::try_from(&row(&[("id", "1"), ("cam_id", "DSC_1")])).unwrap();
    let b = RawRecord::try_from(&row(&[("id", "2"), ("cam_id", "DSC_11")])).unwrap();
    assert_ne!(a.get_thumbnail_path("R/"), b.get_thumbnail_path("R/"));
    assert_ne!(a.get_preview_path("R/"), b.get_preview_path("R/"));
}

#[test]
fn has_nef_iff_raw_path_for_row_records() {
    for r in [raw_row(), row(&[("id", "1"), ("cam_id", "C"), ("raw_path", "")])] {
        let rec = RawRecord::try_from(&r).unwrap();
        assert_eq!(rec.has_nef_file(), rec.get_raw_path().is_ok());
    }
}

#[test]
fn photo_paths_by_id() {
    assert_eq!(PhotoRecord::<()>::preview_path_by_id("R/", 7), "R/_birber/previews//photo_7.jpg");
    assert_eq!(
        PhotoRecord::<()>::thumbnail_path_by_id("R/", 7),
        "R/_birber/thumbnails//PHOTO7_thumbnail.jpg"
    );
    assert_ne!(
        PhotoRecord::<()>::preview_path_by_id("R/", 1),
        PhotoRecord::<()>::preview_path_by_id("R/", 11)
    );
    assert_ne!(
        PhotoRecord::<()>::thumbnail_path_by_id("R/", -1),
        PhotoRecord::<()>::thumbnail_path_by_id("R/", 1)
    );
}

#[test]
fn photo_record_from_row() {
    let raw = RawRecord::try_from(&raw_row()).unwrap();
    let r = row(&[("id", "9"), ("raw", "DSC_0042"), ("pipeline_params", "{}"), ("rating", "")]);
    let photo = PhotoRecord::from_row(&r, raw, "params", "R/");
    assert_eq!(photo.id, 9);
    assert_eq!(photo.rating, None);
    assert_eq!(photo.pipeline_params, "params");
    assert_eq!(photo.file_path, "R/_birber/previews//photo_9.jpg");
    assert_eq!(photo.thumbnail, "R/_birber/thumbnails//PHOTO9_thumbnail.jpg");
    assert_eq!(photo.get_preview_path("R/"), photo.file_path);
    assert_eq!(photo.get_thumbnail_path("R/"), photo.thumbnail);
    let rated = row(&[("id", "10"), ("rating", "5")]);
    let raw2 = RawRecord::try_from(&raw_row()).unwrap();
    assert_eq!(PhotoRecord::from_row(&rated, raw2, 0u8, "R/").rating, Some("5".to_string()));
}

#[test]
fn resize_only_with_both_dimensions() {
    assert!(to_be_resized(300, 200));
    assert!(!to_be_resized(0, 200));
    assert!(!to_be_resized(300, 0));
}

#[test]
fn meta_value_or_default() {
    assert_eq!(MetaData::get(MetaLookup::Found("17".to_string()), "0"), Ok("17".to_string()));
    assert_eq!(MetaData::get(MetaLookup::NoRows, "0"), Ok("0".to_string()));
    assert_eq!(
        MetaData::get(MetaLookup::Failed("no such table: meta".to_string()), "0"),
        Err("no such table: meta".to_string())
    );
}

#[test]
fn photo_metadata_date() {
    let m = PhotoMetadata::from_date_time_original(Some(vec![b"2024:05:01 10:00:00".to_vec()]));
    assert_eq!(m.date_taken, Some("2024:05:01 10:00:00".to_string()));
    assert_eq!(PhotoMetadata::from_date_time_original(None).date_taken, None);
    assert_eq!(PhotoMetadata::from_date_time_original(Some(vec![])).date_taken, None);
    assert_eq!(
        PhotoMetadata::from_date_time_original(Some(vec![vec![0xff, 0xfe]])).date_taken,
        None
    );
}

#[test]
fn thumbnail_plans() {
    let with_nef = RawRecord::try_from(&raw_row()).unwrap();
    match create_thumbnail(&with_nef, "R/") {
        ThumbnailJob::RenderRaw { output_path, target_width, target_height, out_file_type } => {
            assert_eq!(output_path, "R/_birber/thumbnails//DSC_0042_thumbnail.jpg");
            assert_eq!((target_width, target_height), (300, 200));
            assert_eq!(out_file_type, PipelineOutFile::WEBP);
        }
        _ => panic!("expected a render"),
    }
    match with_nef.create_thumbnail("R/") {
        ThumbnailJob::RenderRaw { out_file_type, .. } => assert_eq!(out_file_type, PipelineOutFile::JPEG),
        _ => panic!("expected a render"),
    }
    let jpg_only = RawRecord::try_from(&row(&[("id", "1"), ("cam_id", "DSC_7"), ("jpg_path", "p.JPG")])).unwrap();
    match create_thumbnail(&jpg_only, "R/") {
        ThumbnailJob::FromJpg { input_path, .. } => assert_eq!(input_path, "p.JPG"),
        _ => panic!("expected a jpg thumbnail"),
    }
    let neither = RawRecord::try_from(&row(&[("id", "1"), ("cam_id", "DSC_8")])).unwrap();
    assert!(matches!(create_thumbnail(&neither, "R/"), ThumbnailJob::Nothing));
}

#[test]
fn dates_with_photos() {
    let rows = vec![row(&[("unique_date", "2024:05:01")]), row(&[("unique_date", "2024:05:02")])];
    assert_eq!(get_dates_with_photos(&rows), vec!["2024:05:01".to_string(), "2024:05:02".to_string()]);
}
