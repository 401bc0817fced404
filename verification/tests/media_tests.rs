use anki::media::zip_files_for_upload;
use std::io::Read;

#[test]
fn upload_archive_names_members_by_position() {
    let entries = vec![
        ("a.jpg".to_string(), Some(b"aaa".to_vec())),
        ("b \"q\".mp3".to_string(), None),
        ("c.png".to_string(), Some(vec![1, 2, 3, 4])),
    ];
    let bytes = zip_files_for_upload(entries).ok().unwrap();
    let mut archive = zip::ZipArchive::new(std::io::Cursor::new(bytes)).unwrap();
    let names: Vec<String> = archive.file_names().map(|s| s.to_string()).collect();
    let mut sorted = names.clone();
    sorted.sort();
    assert_eq!(sorted, vec!["0".to_string(), "2".to_string(), "_meta".to_string()]);
    let mut first = Vec::new();
    archive.by_name("0").unwrap().read_to_end(&mut first).unwrap();
    assert_eq!(first, b"aaa");
    let mut third = Vec::new();
    archive.by_name("2").unwrap().read_to_end(&mut third).unwrap();
    assert_eq!(third, vec![1, 2, 3, 4]);
    let mut meta = String::new();
    archive.by_name("_meta").unwrap().read_to_string(&mut meta).unwrap();
    assert_eq!(meta, r#"[["a.jpg","0"],["b \"q\".mp3",null],["c.png","2"]]"#);
}

#[test]
fn upload_archive_of_nothing_has_only_meta() {
    let bytes = zip_files_for_upload(vec![]).ok().unwrap();
    let mut archive = zip::ZipArchive::new(std::io::Cursor::new(bytes.clone())).unwrap();
    assert_eq!(archive.len(), 1);
    let mut meta = String::new();
    archive.by_name("_meta").unwrap().read_to_string(&mut meta).unwrap();
    assert_eq!(meta, "[]");
    // the archive does not depend on the time it is made at
    assert_eq!(zip_files_for_upload(vec![]).ok().unwrap(), bytes);
}

#[test]
fn upload_archive_keeps_duplicate_filenames() {
    let entries = vec![
        ("a.jpg".to_string(), None),
        ("x".to_string(), Some(vec![1u8])),
        ("x".to_string(), Some(vec![2u8])),
        ("e".to_string(), Some(vec![])),
    ];
    let bytes = zip_files_for_upload(entries).ok().unwrap();
    let mut archive = zip::ZipArchive::new(std::io::Cursor::new(bytes)).unwrap();
    let names: Vec<String> = archive.file_names().map(|s| s.to_string()).collect();
    let mut sorted = names.clone();
    sorted.sort();
    assert_eq!(sorted, vec!["1", "2", "3", "_meta"]);
    let mut one = Vec::new();
    archive.by_name("1").unwrap().read_to_end(&mut one).unwrap();
    assert_eq!(one, vec![1]);
    let mut three = Vec::new();
    archive.by_name("3").unwrap().read_to_end(&mut three).unwrap();
    assert!(three.is_empty());
    let mut meta = String::new();
    archive.by_name("_meta").unwrap().read_to_string(&mut meta).unwrap();
    assert_eq!(meta, r#"[["a.jpg",null],["x","1"],["x","2"],["e","3"]]"#);
}

#[test]
fn upload_meta_escapes_control_characters() {
    let entries = vec![("\u{1}é\n".to_string(), None), ("\\".to_string(), Some(vec![7u8]))];
    let bytes = zip_files_for_upload(entries).ok().unwrap();
    let mut archive = zip::ZipArchive::new(std::io::Cursor::new(bytes)).unwrap();
    let mut meta = String::new();
    archive.by_name("_meta").unwrap().read_to_string(&mut meta).unwrap();
    assert_eq!(meta, "[[\"\\u0001é\\n\",null],[\"\\\\\",\"1\"]]");
    // within the bound: six bytes a character, and ten more a pair, and two
    assert!(meta.len() <= 2 + (6 * 3 + 10) + (6 * 1 + 6 * 1 + 10));
}
