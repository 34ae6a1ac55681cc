use amr_database::api::maps::{
    check_delete_name, delete_reply, listing_step, map_file_name, map_file_path, upload_step,
    ListingEvent,
    RemoveOutcome, UploadAction, UploadEvent,
};
use amr_database::api::{STATUS_BAD_REQUEST, STATUS_INTERNAL_SERVER_ERROR, STATUS_NOT_FOUND, STATUS_OK};
use amr_database::utils::AppError;
use std::path::Path;

fn std_file_name(s: &str) -> String {
    Path::new(s).file_name().and_then(|n| n.to_str()).unwrap_or("").to_string()
}

#[test]
fn file_name_takes_last_component() {
    assert_eq!(map_file_name("a/b"), "b");
    assert_eq!(map_file_name("map.pgm"), "map.pgm");
    assert_eq!(map_file_name("../etc/passwd"), "passwd");
    assert_eq!(map_file_name("a//b//"), "b");
    assert_eq!(map_file_name("./x"), "x");
    assert_eq!(map_file_name("a/b/."), "b");
    assert_eq!(map_file_name("..."), "...");
    assert_eq!(map_file_name("แผนที่/ชั้น1.png"), "ชั้น1.png");
}

#[test]
fn file_name_is_empty_without_plain_name() {
    for s in ["", ".", "..", "/", "a/..", "./", "/.", "//", "x/../.."] {
        assert_eq!(map_file_name(s), "", "input {:?}", s);
    }
}

#[test]
fn file_name_agrees_with_std_path() {
    let cases = [
        "", "a", "a/b", "a/b/", "/a", "/", ".", "..", "./", "../", "a/.", "a/..", "a/./b",
        "./a/./", "a//b", ".hidden", "..x", "x..", "a/.../", "//x//y//.", "ก/ข.txt", "./..",
        "../.", "a/b/../", "...",
    ];
    for s in cases {
        assert_eq!(map_file_name(s), std_file_name(s), "input {:?}", s);
    }
}

#[test]
fn file_name_is_idempotent_on_examples() {
    for s in ["a/b", "../x", "..", "q/./", "z"] {
        let once = map_file_name(s);
        assert_eq!(map_file_name(&once), once);
        assert!(!once.contains('/'));
        assert!(once != "." && once != "..");
    }
}

#[test]
fn map_path_is_in_maps_directory() {
    assert_eq!(map_file_path("floor1.pgm"), "./uploads/maps/floor1.pgm");
    assert_eq!(map_file_path(""), "./uploads/maps/");
}

#[test]
fn listing_keeps_text_names_in_order() {
    let mut names: Vec<String> = Vec::new();
    assert!(listing_step(&mut names, ListingEvent::DirOpened(true)));
    assert!(listing_step(&mut names, ListingEvent::Entry(Ok(Some(Some("b.pgm".to_string()))))));
    assert!(listing_step(&mut names, ListingEvent::Entry(Ok(Some(None)))));
    assert!(listing_step(&mut names, ListingEvent::Entry(Ok(Some(Some("a.yaml".to_string()))))));
    assert!(!listing_step(&mut names, ListingEvent::Entry(Ok(None))));
    assert_eq!(names, vec!["b.pgm".to_string(), "a.yaml".to_string()]);
}

#[test]
fn listing_ends_on_failures() {
    let mut names: Vec<String> = Vec::new();
    assert!(!listing_step(&mut names, ListingEvent::DirOpened(false)));
    assert!(names.is_empty());
    let mut names = vec!["x".to_string()];
    assert!(!listing_step(&mut names, ListingEvent::Entry(Err(()))));
    assert_eq!(names, vec!["x".to_string()]);
}

#[test]
fn delete_rejects_unusable_names() {
    let r = check_delete_name("..").unwrap_err();
    assert_eq!(r.status, STATUS_BAD_REQUEST);
    assert_eq!(r.status, 400);
    assert_eq!(r.body, "ชื่อไฟล์ไม่ถูกต้อง");
    assert_eq!(check_delete_name("").unwrap_err().status, 400);
    assert_eq!(check_delete_name("maps/floor.pgm").unwrap(), "floor.pgm");
}

#[test]
fn delete_replies_by_outcome() {
    let r = delete_reply("floor.pgm", RemoveOutcome::Removed);
    assert_eq!((r.status, r.body.as_str()), (200, "ลบไฟล์ floor.pgm สำเร็จ"));
    assert_eq!(r.status, STATUS_OK);
    let r = delete_reply("floor.pgm", RemoveOutcome::Missing);
    assert_eq!((r.status, r.body.as_str()), (404, "ไม่พบไฟล์ floor.pgm"));
    assert_eq!(r.status, STATUS_NOT_FOUND);
    let r = delete_reply("floor.pgm", RemoveOutcome::Failed("permission denied".to_string()));
    assert_eq!((r.status, r.body.as_str()), (500, "ไม่สามารถลบไฟล์ได้: permission denied"));
    assert_eq!(r.status, STATUS_INTERNAL_SERVER_ERROR);
}

fn is_internal(a: &UploadAction, msg: &str) -> bool {
    matches!(a, UploadAction::Finish(Err(AppError::Internal(m))) if m == msg)
}

fn is_bad_request(a: &UploadAction, msg: &str) -> bool {
    matches!(a, UploadAction::Finish(Err(AppError::BadRequest(m))) if m == msg)
}

#[test]
fn upload_steps() {
    assert!(matches!(upload_step(UploadEvent::DirCreated(Ok(()))), UploadAction::ReadNextField));
    assert!(is_internal(&upload_step(UploadEvent::DirCreated(Err("no space".into()))), "no space"));
    match upload_step(UploadEvent::NextField(Ok(Some(Some("f.pgm".into()))))) {
        UploadAction::ReadData { path } => assert_eq!(path, "./uploads/maps/f.pgm"),
        other => panic!("unexpected {:?}", other),
    }
    assert!(matches!(
        upload_step(UploadEvent::NextField(Ok(Some(None)))),
        UploadAction::ReadNextField
    ));
    assert!(matches!(upload_step(UploadEvent::NextField(Ok(None))), UploadAction::Finish(Ok(200))));
    assert!(is_bad_request(&upload_step(UploadEvent::NextField(Err("bad".into()))), "bad"));
    match upload_step(UploadEvent::DataRead { path: "./uploads/maps/f.pgm".into(), read: Ok(vec![1, 2, 3]) }) {
        UploadAction::StoreFile { path, data } => {
            assert_eq!(path, "./uploads/maps/f.pgm");
            assert_eq!(data, vec![1, 2, 3]);
        }
        other => panic!("unexpected {:?}", other),
    }
    assert!(is_bad_request(
        &upload_step(UploadEvent::DataRead { path: "p".into(), read: Err("cut".into()) }),
        "cut"
    ));
    assert!(matches!(upload_step(UploadEvent::FileStored(Ok(()))), UploadAction::ReadNextField));
    assert!(is_internal(&upload_step(UploadEvent::FileStored(Err("ro".into()))), "ro"));
}
