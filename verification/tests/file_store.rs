use markmind_backend::file_store::{FileStore, FsError};

#[test]
fn create_then_open_yields_empty() {
    let mut fs = FileStore::new();
    fs.create_file(String::from("/tmp/a.txt"));
    assert_eq!(fs.open_file(&String::from("/tmp/a.txt")), Ok(String::new()));
}

#[test]
fn save_then_open_yields_content() {
    let mut fs = FileStore::new();
    fs.save_file(String::from("/tmp/a.txt"), String::from("hello"));
    assert_eq!(
        fs.open_file(&String::from("/tmp/a.txt")),
        Ok(String::from("hello"))
    );
}

#[test]
fn repeated_save_same_content_is_idempotent() {
    let mut fs = FileStore::new();
    fs.save_file(String::from("notes.md"), String::from("draft"));
    fs.save_file(String::from("notes.md"), String::from("draft"));
    assert_eq!(fs.open_file(&String::from("notes.md")), Ok(String::from("draft")));
}

#[test]
fn save_overwrites_earlier_content() {
    let mut fs = FileStore::new();
    fs.save_file(String::from("notes.md"), String::from("first"));
    fs.save_file(String::from("notes.md"), String::from("second"));
    assert_eq!(fs.open_file(&String::from("notes.md")), Ok(String::from("second")));
}

#[test]
fn create_overwrites_existing_content() {
    let mut fs = FileStore::new();
    fs.save_file(String::from("notes.md"), String::from("kept?"));
    fs.create_file(String::from("notes.md"));
    assert_eq!(fs.open_file(&String::from("notes.md")), Ok(String::new()));
}

#[test]
fn open_of_missing_path_errors() {
    let fs = FileStore::new();
    assert_eq!(fs.open_file(&String::from("/nowhere")), Err(FsError::NotFound));
}

#[test]
fn save_leaves_other_paths_alone() {
    let mut fs = FileStore::new();
    fs.save_file(String::from("a"), String::from("one"));
    fs.save_file(String::from("b"), String::from("two"));
    assert_eq!(fs.open_file(&String::from("a")), Ok(String::from("one")));
    assert_eq!(fs.open_file(&String::from("b")), Ok(String::from("two")));
    assert_eq!(fs.open_file(&String::from("c")), Err(FsError::NotFound));
}

#[test]
fn not_found_message() {
    assert_eq!(FsError::NotFound.message(), "no such file");
}
