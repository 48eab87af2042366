//! The end-to-end scenario of the backend: file commands and credential
//! commands in one session.

use markmind_backend::file_store::FileStore;
use markmind_backend::key_store::KeyStore;

#[test]
fn create_save_open_then_key_cycle() {
    let mut fs = FileStore::new();
    fs.create_file(String::from("/tmp/a.txt"));
    assert_eq!(fs.open_file(&String::from("/tmp/a.txt")), Ok(String::new()));
    fs.save_file(String::from("/tmp/a.txt"), String::from("hello"));
    assert_eq!(
        fs.open_file(&String::from("/tmp/a.txt")),
        Ok(String::from("hello"))
    );

    let mut ks = KeyStore::new();
    ks.save_api_key(String::from("XYZ"));
    assert!(ks.has_api_key());
    assert_eq!(ks.load_api_key(), Ok(String::from("XYZ")));
    assert_eq!(ks.delete_api_key(), Ok(()));
    assert!(!ks.has_api_key());
}
