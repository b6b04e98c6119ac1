use vstd::prelude::*;

use crate::hashable::sha224_hex_of;
use crate::refcount::{be32, refcount_of_record};
use crate::{DeleteAction, StoreCommit};

verus! {

/// The store's state, abstracted from the filesystem: which content bytes
/// live under each key, and each key's reference count. A key absent from
/// `refcounts` holds no references.
pub struct StoreModel {
    pub contents: Map<Seq<char>, Seq<u8>>,
    pub refcounts: Map<Seq<char>, nat>,
}

impl StoreModel {
    /// The key's reference count; a key with no record counts 0.
    pub open spec fn refcount(self, key: Seq<char>) -> nat {
        if self.refcounts.dom().contains(key) {
            self.refcounts[key]
        } else {
            0
        }
    }

    /// A store at rest: a record is never persisted with count 0 (it is
    /// removed instead), and content exists exactly for the keys that hold
    /// references.
    pub open spec fn wf(self) -> bool {
        &&& forall|k: Seq<char>|
            self.refcounts.dom().contains(k) ==> self.refcounts[k] >= 1
        &&& self.contents.dom() =~= self.refcounts.dom()
    }

    /// Storing content: its digest is the key; content already present under
    /// that key stays as it is (identical content is stored physically
    /// once), fresh content is added; the key's refcount rises by one.
    pub open spec fn store(self, data: Seq<u8>) -> StoreModel {
        let key = sha224_hex_of(data);
        StoreModel {
            contents: if self.contents.dom().contains(key) {
                self.contents
            } else {
                self.contents.insert(key, data)
            },
            refcounts: self.refcounts.insert(key, self.refcount(key) + 1),
        }
    }

    /// Retrieving a key: the content it holds, if any. A missing key is an
    /// expected outcome, not a failure, and retrieval changes nothing.
    pub open spec fn retrieve(self, key: Seq<char>) -> Option<Seq<u8>> {
        if self.contents.dom().contains(key) {
            Option::Some(self.contents[key])
        } else {
            Option::None
        }
    }

    /// Deleting one reference to a key: a count already at 0 changes
    /// nothing; the last reference takes the record and the content with
    /// it; otherwise only the count falls.
    pub open spec fn delete(self, key: Seq<char>) -> StoreModel {
        if self.refcount(key) == 0 {
            self
        } else if self.refcount(key) == 1 {
            StoreModel { contents: self.contents.remove(key), refcounts: self.refcounts.remove(key) }
        } else {
            StoreModel {
                contents: self.contents,
                refcounts: self.refcounts.insert(key, (self.refcount(key) - 1) as nat),
            }
        }
    }

    /// The store after the same content has been stored `n` times over.
    pub open spec fn store_n(self, data: Seq<u8>, n: nat) -> StoreModel
        decreases n,
    {
        if n == 0 {
            self
        } else {
            self.store_n(data, (n - 1) as nat).store(data)
        }
    }
}

/// Idempotent retrieval: once content is stored, retrieving its key returns
/// exactly those bytes — on this and every later lookup, since retrieval
/// changes nothing. The hypothesis rules out the key already naming other
/// content, which the digest's collision resistance is trusted to prevent.
pub proof fn lemma_store_then_retrieve(m: StoreModel, data: Seq<u8>)
    requires
        m.contents.dom().contains(sha224_hex_of(data)) ==> m.contents[sha224_hex_of(data)]
            == data,
    ensures
        m.store(data).retrieve(sha224_hex_of(data)) == Option::Some(data),
{
}

/// Deduplication: storing the same content twice issues the same key both
/// times — the key is a function of the bytes alone — stores the content
/// physically once, and leaves its refcount at 2 when the key was fresh.
pub proof fn lemma_store_twice_dedup(m: StoreModel, data: Seq<u8>)
    requires
        m.wf(),
        !m.contents.dom().contains(sha224_hex_of(data)),
    ensures
        m.store(data).store(data).contents =~= m.contents.insert(sha224_hex_of(data), data),
        m.store(data).store(data).refcount(sha224_hex_of(data)) == 2,
{
}

/// Refcount floor: deleting a key whose count is already 0 is a no-op and
/// never an error.
pub proof fn lemma_delete_at_zero(m: StoreModel, key: Seq<char>)
    requires
        m.refcount(key) == 0,
    ensures
        m.delete(key) == m,
{
}

/// Full lifecycle: store fresh content, then delete once while its count is
/// 1. The content and its record are both gone — the store is back where it
/// began — and retrieving the key reports it missing.
pub proof fn lemma_store_delete_lifecycle(m: StoreModel, data: Seq<u8>)
    requires
        m.wf(),
        !m.contents.dom().contains(sha224_hex_of(data)),
    ensures
        m.store(data).delete(sha224_hex_of(data)).contents =~= m.contents,
        m.store(data).delete(sha224_hex_of(data)).refcounts =~= m.refcounts,
        m.store(data).delete(sha224_hex_of(data)).retrieve(sha224_hex_of(data)) is None,
{
}

/// Storing keeps a store at rest at rest.
pub proof fn lemma_store_preserves_wf(m: StoreModel, data: Seq<u8>)
    requires
        m.wf(),
    ensures
        m.store(data).wf(),
{
}

/// Deleting keeps a store at rest at rest.
pub proof fn lemma_delete_preserves_wf(m: StoreModel, key: Seq<char>)
    requires
        m.wf(),
    ensures
        m.delete(key).wf(),
{
}

/// Serialized convergence: `n` stores of the same content, one completing
/// after another — as the per-key serialization demanded of the filesystem
/// shell arranges — leave the key's refcount exactly `n` higher. No
/// increment is lost when the read-modify-write sequences do not interleave.
pub proof fn lemma_store_n_refcount(m: StoreModel, data: Seq<u8>, n: nat)
    ensures
        m.store_n(data, n).refcount(sha224_hex_of(data)) == m.refcount(sha224_hex_of(data)) + n,
    decreases n,
{
    if n > 0 {
        lemma_store_n_refcount(m, data, (n - 1) as nat);
    }
}

/// A store commit carries the filesystem to the model's store step: when the
/// probe and the record reflected state `m`, writing the content exactly
/// where the commit says and persisting the commit's record leaves the
/// contents and the refcounts of `m.store(data)`.
pub proof fn lemma_store_commit_models(
    m: StoreModel,
    data: Seq<u8>,
    c: StoreCommit,
    record: Option<Seq<u8>>,
)
    requires
        c.write_content <==> !m.contents.dom().contains(sha224_hex_of(data)),
        refcount_of_record(record) == m.refcount(sha224_hex_of(data)),
        c.record@.len() == 4,
        be32(c.record@) == refcount_of_record(record) + 1,
    ensures
        m.store(data).contents =~= if c.write_content {
            m.contents.insert(sha224_hex_of(data), data)
        } else {
            m.contents
        },
        m.store(data).refcounts =~= m.refcounts.insert(
            sha224_hex_of(data),
            be32(c.record@) as nat,
        ),
{
}

/// A delete action carries the filesystem to the model's delete step: when
/// the record read reflected state `m`, doing what the action says — nothing,
/// writing the decremented record, or removing record and content — leaves
/// the contents and the refcounts of `m.delete(key)`.
pub proof fn lemma_delete_action_models(
    m: StoreModel,
    key: Seq<char>,
    action: DeleteAction,
    record: Option<Seq<u8>>,
)
    requires
        refcount_of_record(record) == m.refcount(key),
        match action {
            DeleteAction::Nothing => refcount_of_record(record) == 0,
            DeleteAction::WriteRecord(b) => refcount_of_record(record) >= 2 && b@.len() == 4
                && be32(b@) == refcount_of_record(record) - 1,
            DeleteAction::RemoveBoth => refcount_of_record(record) == 1,
        },
    ensures
        match action {
            DeleteAction::Nothing => m.delete(key) == m,
            DeleteAction::WriteRecord(b) => m.delete(key).contents == m.contents && m.delete(
                key,
            ).refcounts =~= m.refcounts.insert(key, be32(b@) as nat),
            DeleteAction::RemoveBoth => m.delete(key).contents =~= m.contents.remove(key)
                && m.delete(key).refcounts =~= m.refcounts.remove(key),
        },
{
}

} // verus!
