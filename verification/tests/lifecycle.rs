//! The store, retrieve and delete pipeline run end to end against an
//! in-memory stand-in for the filesystem: a map from path to bytes. The
//! shell's only work — performing the planned reads and writes — is played
//! by the map; every decision comes from the library.

use std::collections::HashMap;

use filestore::error::{Error, IoKind};
use filestore::filekey::FileKey;
use filestore::{
    delete, storage_file_path, storage_refcount_path, store_commit, store_data, DeleteAction,
};

struct FakeDisk {
    files: HashMap<String, Vec<u8>>,
}

impl FakeDisk {
    fn new() -> FakeDisk {
        FakeDisk {
            files: HashMap::new(),
        }
    }

    fn store(&mut self, root: &str, content: &[u8]) -> FileKey {
        let plan = store_data(root, &content.to_vec());
        let probe: Result<(), Error> = if self.files.contains_key(&plan.content_path) {
            Ok(())
        } else {
            Err(Error::from_kind(IoKind::NotFound))
        };
        let record = self.files.get(&plan.refcount_path).cloned();
        let commit = store_commit(probe, &record).unwrap();
        if commit.write_content {
            self.files
                .insert(plan.content_path.clone(), content.to_vec());
        }
        self.files.insert(plan.refcount_path, commit.record);
        plan.key
    }

    fn retrieve(&self, root: &str, key: &FileKey) -> Option<Vec<u8>> {
        self.files.get(&storage_file_path(root, key)).cloned()
    }

    fn delete(&mut self, root: &str, key: &FileKey) {
        let refcount_path = storage_refcount_path(root, key);
        let record = self.files.get(&refcount_path).cloned();
        match delete(&record) {
            DeleteAction::Nothing => {}
            DeleteAction::WriteRecord(bytes) => {
                self.files.insert(refcount_path, bytes);
            }
            DeleteAction::RemoveBoth => {
                self.files.remove(&refcount_path);
                self.files.remove(&storage_file_path(root, key));
            }
        }
    }

    fn refcount(&self, root: &str, key: &FileKey) -> u32 {
        let record = self.files.get(&storage_refcount_path(root, key)).cloned();
        filestore::refcount::get_refcount(&record)
    }
}

#[test]
fn idempotent_retrieval() {
    let mut disk = FakeDisk::new();
    let content = b"idempotent retrieval content";
    let key = disk.store("root", content);
    assert_eq!(disk.retrieve("root", &key).unwrap(), content.to_vec());
    assert_eq!(disk.retrieve("root", &key).unwrap(), content.to_vec());
}

#[test]
fn deduplication() {
    let mut disk = FakeDisk::new();
    let content = b"stored twice";
    let first = disk.store("root", content);
    let second = disk.store("root", content);
    assert_eq!(first, second);
    // One content file and one refcount record, with the count at 2.
    assert_eq!(disk.files.len(), 2);
    assert_eq!(disk.refcount("root", &first), 2);
}

#[test]
fn full_lifecycle() {
    let mut disk = FakeDisk::new();
    let key = disk.store("root", b"short-lived content");
    assert_eq!(disk.refcount("root", &key), 1);
    disk.delete("root", &key);
    // Content file and refcount record are both gone, and the key reads as
    // missing from then on.
    assert!(disk.files.is_empty());
    assert!(disk.retrieve("root", &key).is_none());
    // Deleting again is the refcount floor: a no-op, never an error.
    disk.delete("root", &key);
    assert!(disk.files.is_empty());
}

#[test]
fn distinct_contents_coexist() {
    let mut disk = FakeDisk::new();
    let k1 = disk.store("root", b"first content");
    let k2 = disk.store("root", b"second content");
    assert_ne!(k1, k2);
    assert_eq!(disk.retrieve("root", &k1).unwrap(), b"first content".to_vec());
    assert_eq!(
        disk.retrieve("root", &k2).unwrap(),
        b"second content".to_vec()
    );
    disk.delete("root", &k1);
    assert!(disk.retrieve("root", &k1).is_none());
    assert_eq!(
        disk.retrieve("root", &k2).unwrap(),
        b"second content".to_vec()
    );
}

#[test]
fn serialized_stores_then_deletes_balance_out() {
    let mut disk = FakeDisk::new();
    let content = b"shared content";
    let mut key = None;
    for expected in 1u32..=4 {
        let k = disk.store("root", content);
        assert_eq!(disk.refcount("root", &k), expected);
        key = Some(k);
    }
    let key = key.unwrap();
    for remaining in (0u32..4).rev() {
        disk.delete("root", &key);
        assert_eq!(disk.refcount("root", &key), remaining);
    }
    assert!(disk.files.is_empty());
}
