use mouse_leveldb::Error;
use mouse_leveldb::Options;

#[test]
fn open_policy_is_fixed() {
    let options = Options::new();
    assert!(options.create_if_missing());
    assert!(!options.error_if_exists());
    assert!(options.paranoid_checks());
}

#[test]
fn error_carries_the_engine_message_verbatim() {
    let e = Error::engine_failure(String::from("Corruption: block checksum mismatch"));
    assert_eq!(e.message().as_str(), "Corruption: block checksum mismatch");
    let empty = Error::engine_failure(String::new());
    assert_eq!(empty.message().as_str(), "");
}
