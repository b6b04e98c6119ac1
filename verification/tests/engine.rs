use filestore::error::{Error, IoKind};
use filestore::refcount::{encode_refcount, get_refcount, set_refcount, RecordWrite};
use filestore::{accept_dir_creation, delete, store_commit, DeleteAction};

#[test]
fn refcount_record_encoding() {
    assert_eq!(encode_refcount(1), vec![0, 0, 0, 1]);
    assert_eq!(encode_refcount(0x01020304), vec![1, 2, 3, 4]);
    assert_eq!(encode_refcount(u32::MAX), vec![0xff, 0xff, 0xff, 0xff]);
}

#[test]
fn refcount_record_decoding() {
    assert_eq!(get_refcount(&None), 0);
    assert_eq!(get_refcount(&Some(vec![0, 0, 0, 9])), 9);
    assert_eq!(get_refcount(&Some(vec![1, 2, 3, 4])), 0x01020304);
    // A record truncated mid-write is tolerated as count 0, not an error.
    assert_eq!(get_refcount(&Some(vec![])), 0);
    assert_eq!(get_refcount(&Some(vec![0, 0, 9])), 0);
    // Bytes past the fourth are ignored.
    assert_eq!(get_refcount(&Some(vec![0, 0, 0, 7, 9])), 7);
}

#[test]
fn refcount_round_trip() {
    for count in [1u32, 2, 255, 256, 70_000, u32::MAX] {
        assert_eq!(get_refcount(&Some(encode_refcount(count))), count);
    }
}

#[test]
fn persisting_zero_removes_the_record() {
    assert!(matches!(set_refcount(0), RecordWrite::Remove));
    match set_refcount(3) {
        RecordWrite::Write(record) => assert_eq!(record, vec![0, 0, 0, 3]),
        other => panic!("expected a written record, got {:?}", other),
    }
}

#[test]
fn dir_creation_tolerates_already_exists() {
    assert!(accept_dir_creation(Ok(())).is_ok());
    let exists = Error::new(IoKind::AlreadyExists, "directory is already there");
    assert!(accept_dir_creation(Err(exists)).is_ok());
    let denied = Error::new(IoKind::Other, "permission denied");
    let rejected = accept_dir_creation(Err(denied)).unwrap_err();
    assert_eq!(rejected.kind, IoKind::Other);
    assert_eq!(rejected.message, "permission denied");
}

#[test]
fn first_store_writes_content_and_one_reference() {
    let probe = Err(Error::from_kind(IoKind::NotFound));
    let commit = store_commit(probe, &None).unwrap();
    assert!(commit.write_content);
    assert_eq!(commit.record, vec![0, 0, 0, 1]);
}

#[test]
fn repeat_store_deduplicates() {
    // Content already present: nothing is rewritten, the refcount rises to 2.
    let commit = store_commit(Ok(()), &Some(vec![0, 0, 0, 1])).unwrap();
    assert!(!commit.write_content);
    assert_eq!(commit.record, vec![0, 0, 0, 2]);
}

#[test]
fn store_aborts_on_probe_fault() {
    let fault = Error::new(IoKind::Other, "device gone");
    let err = store_commit(Err(fault), &None).unwrap_err();
    assert_eq!(err.kind, IoKind::Other);
    assert_eq!(err.message, "device gone");
}

#[test]
fn delete_at_zero_is_noop() {
    // Refcount floor: no record and a truncated record both mean count 0,
    // and deleting then does nothing and never errors.
    assert!(matches!(delete(&None), DeleteAction::Nothing));
    assert!(matches!(delete(&Some(vec![0, 0])), DeleteAction::Nothing));
}

#[test]
fn delete_last_reference_removes_everything() {
    assert!(matches!(
        delete(&Some(vec![0, 0, 0, 1])),
        DeleteAction::RemoveBoth
    ));
}

#[test]
fn delete_decrements_while_references_remain() {
    match delete(&Some(vec![0, 0, 0, 5])) {
        DeleteAction::WriteRecord(record) => assert_eq!(record, vec![0, 0, 0, 4]),
        other => panic!("expected a decremented record, got {:?}", other),
    }
}

#[test]
fn store_then_delete_lifecycle() {
    // First store of fresh content, then one delete while the count is 1:
    // the content file and the refcount record both go away.
    let probe = Err(Error::from_kind(IoKind::NotFound));
    let commit = store_commit(probe, &None).unwrap();
    assert!(commit.write_content);
    assert!(matches!(delete(&Some(commit.record)), DeleteAction::RemoveBoth));
}

#[test]
fn serialized_stores_converge_to_n_references() {
    // N stores of identical content completing one after another, as the
    // per-key serialization arranges, leave the refcount at exactly N.
    let mut record: Option<Vec<u8>> = None;
    for expected in 1u32..=5 {
        let probe: Result<(), Error> = if expected == 1 {
            Err(Error::from_kind(IoKind::NotFound))
        } else {
            Ok(())
        };
        let commit = store_commit(probe, &record).unwrap();
        assert_eq!(commit.write_content, expected == 1);
        assert_eq!(get_refcount(&Some(commit.record.clone())), expected);
        record = Some(commit.record);
    }
}
