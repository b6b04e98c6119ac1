//! A content-addressed file store: byte buffers and files are stored under a
//! key derived from their content, deduplicated by a per-key reference count.
//!
//! This crate holds the verified core: content hashing, key-to-path
//! derivation, the refcount record codec, and the decision logic of the
//! store, retrieve and delete operations. The filesystem itself is driven by
//! an unverified shell that performs the actions these functions plan.

use vstd::prelude::*;

pub mod error;
pub mod filekey;
pub mod hashable;
pub mod model;
pub mod refcount;

use crate::error::{Error, IoKind};
use crate::filekey::FileKey;
use crate::hashable::{hash_data, sha224_hex_of, StreamHasher};
use crate::refcount::{be32, encode_refcount, get_refcount, record_bytes, refcount_of_record};

verus! {

/// The directory content for a key is stored into: a shard directory under
/// the root, named by the key's first two characters, so entries spread over
/// up to 256 directories.
pub open spec fn spec_storage_file_dir(root: Seq<char>, key: Seq<char>) -> Seq<char> {
    root + seq!['/'] + key.subrange(0, 2)
}

/// The name of the file content is stored into: the key's remaining
/// characters.
pub open spec fn spec_storage_file_name(key: Seq<char>) -> Seq<char> {
    key.subrange(2, key.len() as int)
}

/// The full path of the file content is stored into.
pub open spec fn spec_storage_file_path(root: Seq<char>, key: Seq<char>) -> Seq<char> {
    spec_storage_file_dir(root, key) + seq!['/'] + spec_storage_file_name(key)
}

/// The name of the file the key's refcount record is stored into.
pub open spec fn spec_storage_refcount_name(key: Seq<char>) -> Seq<char> {
    spec_storage_file_name(key) + ".refcount"@
}

/// The full path of the file the key's refcount record is stored into.
pub open spec fn spec_storage_refcount_path(root: Seq<char>, key: Seq<char>) -> Seq<char> {
    spec_storage_file_dir(root, key) + seq!['/'] + spec_storage_refcount_name(key)
}

/// Returns the directory that data for this key is stored into.
pub fn storage_file_dir(storage_path: &str, key: &FileKey) -> (dir: String)
    requires
        key.0@.len() >= 2,
    ensures
        dir@ == spec_storage_file_dir(storage_path@, key.0@),
{
    let shard = key.0.as_str().substring_char(0, 2);
    let mut dir = storage_path.to_owned();
    dir.append("/");
    dir.append(shard);
    proof {
        reveal_strlit("/");
        assert(dir@ =~= spec_storage_file_dir(storage_path@, key.0@));
    }
    dir
}

/// Returns the short name of the file that data for this key is stored into.
pub fn storage_file_name(key: &FileKey) -> (name: String)
    requires
        key.0@.len() >= 2,
    ensures
        name@ == spec_storage_file_name(key.0@),
{
    let s = key.0.as_str();
    let n = s.unicode_len();
    s.substring_char(2, n).to_owned()
}

/// Returns the full path of the file that data for this key is stored into.
pub fn storage_file_path(storage_path: &str, key: &FileKey) -> (path: String)
    requires
        key.0@.len() >= 2,
    ensures
        path@ == spec_storage_file_path(storage_path@, key.0@),
{
    let mut path = storage_file_dir(storage_path, key);
    path.append("/");
    let name = storage_file_name(key);
    path.append(name.as_str());
    proof {
        reveal_strlit("/");
        assert(path@ =~= spec_storage_file_path(storage_path@, key.0@));
    }
    path
}

/// Returns the short name of the file that this key's refcount is stored
/// into.
pub fn storage_refcount_name(key: &FileKey) -> (name: String)
    requires
        key.0@.len() >= 2,
    ensures
        name@ == spec_storage_refcount_name(key.0@),
{
    let mut name = storage_file_name(key);
    name.append(".refcount");
    name
}

/// Returns the full path of the file that this key's refcount is stored
/// into.
pub fn storage_refcount_path(storage_path: &str, key: &FileKey) -> (path: String)
    requires
        key.0@.len() >= 2,
    ensures
        path@ == spec_storage_refcount_path(storage_path@, key.0@),
{
    let mut path = storage_file_dir(storage_path, key);
    path.append("/");
    let name = storage_refcount_name(key);
    path.append(name.as_str());
    proof {
        reveal_strlit("/");
        assert(path@ =~= spec_storage_refcount_path(storage_path@, key.0@));
    }
    path
}

/// Distinct keys of one length derive distinct content paths under one root,
/// so every stored content keeps a file of its own.
pub proof fn lemma_storage_file_path_injective(root: Seq<char>, k1: Seq<char>, k2: Seq<char>)
    requires
        k1.len() == k2.len(),
        k1.len() >= 2,
        k1 != k2,
    ensures
        spec_storage_file_path(root, k1) != spec_storage_file_path(root, k2),
{
    let p1 = spec_storage_file_path(root, k1);
    let p2 = spec_storage_file_path(root, k2);
    if p1 == p2 {
        let base = root.len() + 1;
        assert forall|i: int| 0 <= i < k1.len() implies k1[i] == k2[i] by {
            if i < 2 {
                assert(p1[base + i] == k1[i]);
                assert(p2[base + i] == k2[i]);
            } else {
                assert(p1[base + 1 + i] == k1[i]);
                assert(p2[base + 1 + i] == k2[i]);
            }
        }
        assert(k1 =~= k2);
    }
}

/// Everything the filesystem shell must know to carry a store operation out:
/// the derived key and the three derived paths.
pub struct StorePlan {
    /// The key under which the content is (or already is) stored.
    pub key: FileKey,
    /// The shard directory whose existence must be ensured.
    pub dir: String,
    /// The path the content bytes live at.
    pub content_path: String,
    /// The path the refcount record lives at.
    pub refcount_path: String,
}

impl StorePlan {
    /// The plan's paths are exactly the ones its key derives under the root.
    pub open spec fn wf_for(&self, root: Seq<char>) -> bool {
        &&& self.key.wf()
        &&& self.dir@ == spec_storage_file_dir(root, self.key.0@)
        &&& self.content_path@ == spec_storage_file_path(root, self.key.0@)
        &&& self.refcount_path@ == spec_storage_refcount_path(root, self.key.0@)
    }
}

fn plan_for_key(storage_path: &str, key: FileKey) -> (plan: StorePlan)
    requires
        key.wf(),
    ensures
        plan.key == key,
        plan.wf_for(storage_path@),
{
    let dir = storage_file_dir(storage_path, &key);
    let content_path = storage_file_path(storage_path, &key);
    let refcount_path = storage_refcount_path(storage_path, &key);
    StorePlan { key, dir, content_path, refcount_path }
}

/// Begin storing an in-memory buffer: derive its key and the paths the
/// filesystem shell must touch. The key depends on the buffer's bytes alone.
pub fn store_data(storage_path: &str, input: &Vec<u8>) -> (plan: StorePlan)
    ensures
        plan.key.0@ == sha224_hex_of(input@),
        plan.wf_for(storage_path@),
{
    let key = hash_data(input);
    plan_for_key(storage_path, key)
}

/// Begin storing a copy of a file whose bytes the caller streamed through
/// the hasher in bounded chunks: derive the key of everything absorbed and
/// the paths the filesystem shell must touch. The key depends on the file's
/// bytes alone, never on its name or location.
pub fn store_file(storage_path: &str, hasher: StreamHasher) -> (plan: StorePlan)
    ensures
        plan.key.0@ == sha224_hex_of(hasher.absorbed()),
        plan.wf_for(storage_path@),
{
    let key = hasher.finish();
    plan_for_key(storage_path, key)
}

/// Judge the shard directory creation a store begins with: creation failing
/// because the directory already exists is tolerated; any other failure
/// aborts the store and is returned as it came.
pub fn accept_dir_creation(created: Result<(), Error>) -> (r: Result<(), Error>)
    ensures
        r is Ok <==> (created is Ok || (created matches Err(e) && e.kind is AlreadyExists)),
        r matches Err(e) ==> created matches Err(c) && c == e,
{
    match created {
        Result::Ok(()) => Result::Ok(()),
        Result::Err(e) => {
            if e.kind == IoKind::AlreadyExists {
                Result::Ok(())
            } else {
                Result::Err(e)
            }
        },
    }
}

/// What the filesystem shell must do to finish a store: write the content
/// only where none was found, then persist the incremented refcount record.
#[derive(Debug)]
pub struct StoreCommit {
    /// Whether the content bytes must be written to the content path.
    pub write_content: bool,
    /// The refcount record to write to the refcount path.
    pub record: Vec<u8>,
}

/// Decide how a store operation commits, from what the filesystem showed:
/// `probe` is the outcome of looking the content path up, `record` the
/// refcount record found there. Content already present is left untouched —
/// it is taken to be identical, on the strength of the digest's collision
/// resistance — and the key's refcount rises by one either way. A probe
/// failure other than `NotFound` aborts the store and is returned as it
/// came.
pub fn store_commit(probe: Result<(), Error>, record: &Option<Vec<u8>>) -> (r: Result<
    StoreCommit,
    Error,
>)
    requires
        refcount_of_record(record_bytes(*record)) < u32::MAX,
    ensures
        r is Ok <==> (probe is Ok || (probe matches Err(e) && e.kind is NotFound)),
        r matches Ok(c) ==> {
            &&& (c.write_content <==> probe is Err)
            &&& c.record@.len() == 4
            &&& be32(c.record@) == refcount_of_record(record_bytes(*record)) + 1
        },
        r matches Err(e) ==> probe matches Err(p) && p == e,
{
    let write_content = match probe {
        Result::Ok(()) => false,
        Result::Err(e) => {
            if e.kind == IoKind::NotFound {
                true
            } else {
                return Result::Err(e);
            }
        },
    };
    let refcount = get_refcount(record);
    let record = encode_refcount(refcount + 1);
    Result::Ok(StoreCommit { write_content, record })
}

/// What the filesystem shell must do to delete one reference to a key.
#[derive(Debug)]
pub enum DeleteAction {
    /// The refcount was already 0: deleting is a no-op, never an error.
    Nothing,
    /// References remain: persist the decremented record, remove nothing.
    WriteRecord(Vec<u8>),
    /// The last reference is gone: remove the refcount record, then the
    /// content file.
    RemoveBoth,
}

/// Decide a delete from the refcount record read: the count falls by one,
/// the record and the content file go away when it reaches 0, and a count
/// already at 0 means there is nothing to delete at all.
pub fn delete(record: &Option<Vec<u8>>) -> (action: DeleteAction)
    ensures
        ({
            let rc = refcount_of_record(record_bytes(*record));
            match action {
                DeleteAction::Nothing => rc == 0,
                DeleteAction::WriteRecord(b) => rc >= 2 && b@.len() == 4 && be32(b@) == rc - 1,
                DeleteAction::RemoveBoth => rc == 1,
            }
        }),
{
    let rc = get_refcount(record);
    if rc < 1 {
        DeleteAction::Nothing
    } else if rc == 1 {
        DeleteAction::RemoveBoth
    } else {
        DeleteAction::WriteRecord(encode_refcount(rc - 1))
    }
}

} // verus!
