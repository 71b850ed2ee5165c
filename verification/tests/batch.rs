use mouse_leveldb::Database;
use mouse_leveldb::OpenOutcome;
use mouse_leveldb::WriteBatch;
use mouse_leveldb::WriteOutcome;

fn open_db() -> Database {
    let mut db = Database::new();
    db.open(OpenOutcome::Success).unwrap();
    db
}

#[test]
fn new_batch_is_empty_and_unallocated() {
    let batch = WriteBatch::new();
    assert_eq!(batch.len(), 0);
    assert!(!batch.is_allocated());
}

#[test]
fn put_allocates_lazily_and_appends() {
    let mut batch = WriteBatch::new();
    batch.put(&[1, 2, 3], &[]);
    assert!(batch.is_allocated());
    assert_eq!(batch.len(), 1);
    batch.put(&[4], &[5, 6]);
    assert_eq!(batch.len(), 2);
    assert_eq!(batch.key_at(0), &vec![1, 2, 3]);
    assert_eq!(batch.value_at(0), &Vec::<u8>::new());
    assert_eq!(batch.key_at(1), &vec![4]);
    assert_eq!(batch.value_at(1), &vec![5, 6]);
}

#[test]
fn put_accepts_empty_key_and_empty_value() {
    let mut batch = WriteBatch::new();
    batch.put(&[], &[]);
    assert_eq!(batch.len(), 1);
    assert_eq!(batch.key_at(0), &Vec::<u8>::new());
    assert_eq!(batch.value_at(0), &Vec::<u8>::new());
}

#[test]
fn init_allocates_without_entries() {
    let mut batch = WriteBatch::new();
    batch.init();
    assert!(batch.is_allocated());
    assert_eq!(batch.len(), 0);
    batch.put(&[7], &[8]);
    assert_eq!(batch.len(), 1);
}

#[test]
fn clear_empties_but_keeps_the_handle() {
    let mut batch = WriteBatch::new();
    batch.put(&[1], &[2]);
    batch.put(&[3], &[4]);
    batch.clear();
    assert_eq!(batch.len(), 0);
    assert!(batch.is_allocated());
}

#[test]
fn clear_on_fresh_batch_is_a_no_op() {
    let mut batch = WriteBatch::new();
    batch.clear();
    batch.clear();
    assert_eq!(batch.len(), 0);
    assert!(!batch.is_allocated());
}

#[test]
fn destroy_is_idempotent() {
    let mut batch = WriteBatch::new();
    batch.put(&[1], &[2]);
    batch.destroy();
    assert_eq!(batch.len(), 0);
    assert!(!batch.is_allocated());
    batch.destroy();
    assert_eq!(batch.len(), 0);
    assert!(!batch.is_allocated());
}

#[test]
fn destroy_on_never_populated_batch_is_safe() {
    let mut batch = WriteBatch::new();
    batch.destroy();
    batch.destroy();
    assert!(!batch.is_allocated());
}

#[test]
fn last_put_for_a_key_wins() {
    let mut batch = WriteBatch::new();
    batch.put(&[1, 2, 3], &[9]);
    batch.put(&[4], &[5, 6]);
    batch.put(&[1, 2, 3], &[7, 7, 8]);
    assert_eq!(batch.pending_value_of(&[1, 2, 3]), Some(vec![7, 7, 8]));
    assert_eq!(batch.pending_value_of(&[4]), Some(vec![5, 6]));
    assert_eq!(batch.pending_value_of(&[9]), None);
}

#[test]
fn write_clears_the_batch_on_success() {
    let db = open_db();
    let mut batch = WriteBatch::new();
    batch.put(&[1], &[2]);
    let r = mouse_leveldb::write(&db, &mut batch, WriteOutcome::Applied);
    assert!(r.is_ok());
    assert_eq!(batch.len(), 0);
    assert!(batch.is_allocated());
}

#[test]
fn write_clears_the_batch_on_failure_too() {
    let db = open_db();
    let mut batch = WriteBatch::new();
    batch.put(&[1], &[2]);
    batch.put(&[3], &[4]);
    let r = mouse_leveldb::write(
        &db,
        &mut batch,
        WriteOutcome::Failure(String::from("IO error: no space")),
    );
    let err = r.unwrap_err();
    assert_eq!(err.message().as_str(), "IO error: no space");
    assert_eq!(batch.len(), 0);
    assert!(batch.is_allocated());
    // the next round starts from an empty pending set
    batch.put(&[5], &[6]);
    assert_eq!(batch.len(), 1);
    assert_eq!(batch.pending_value_of(&[1]), None);
    assert_eq!(batch.pending_value_of(&[5]), Some(vec![6]));
}

#[test]
fn write_of_a_batch_with_no_handle_is_a_successful_no_op() {
    let db = open_db();
    let mut batch = WriteBatch::new();
    let r = mouse_leveldb::write(&db, &mut batch, WriteOutcome::Applied);
    assert!(r.is_ok());
    assert!(!batch.is_allocated());
    // without a handle there is nothing to flush, whatever the engine
    // would have said
    let mut batch = WriteBatch::new();
    let r = mouse_leveldb::write(
        &db,
        &mut batch,
        WriteOutcome::Failure(String::from("never consulted")),
    );
    assert!(r.is_ok());
}

#[test]
fn cleared_batch_still_flushes_through_the_engine() {
    // once the handle exists, a write consults the engine even with
    // nothing pending
    let db = open_db();
    let mut batch = WriteBatch::new();
    batch.put(&[1], &[2]);
    batch.clear();
    let r = mouse_leveldb::write(
        &db,
        &mut batch,
        WriteOutcome::Failure(String::from("IO error: fault")),
    );
    assert!(r.is_err());
}
