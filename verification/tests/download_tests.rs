use anki::download::{collection_folder, folder_from_parent};
use anki::error::AnkiError;

#[test]
fn collection_folder_is_the_parent() {
    assert_eq!(collection_folder("/home/u/Anki2/User 1/collection.anki2").ok().unwrap(), "/home/u/Anki2/User 1");
    assert_eq!(collection_folder("collection.anki2").ok().unwrap(), "");
    for bad in ["", "/"] {
        match collection_folder(bad) {
            Err(AnkiError::InvalidInput { message }) => assert_eq!(message, "couldn't get col_folder"),
            _ => panic!("expected an error for {bad:?}"),
        }
    }
    assert!(folder_from_parent(None).is_err());
    assert_eq!(folder_from_parent(Some("x".to_string())).ok().unwrap(), "x");
}
