use vstd::prelude::*;

verus! {

/// The value a 4-byte big-endian record encodes.
pub open spec fn be32(b: Seq<u8>) -> int
    recommends
        b.len() == 4,
{
    (b[0] as int) * 0x1000000 + (b[1] as int) * 0x10000 + (b[2] as int) * 0x100 + (b[3] as int)
}

/// What a refcount record read from disk means. A missing record is count 0,
/// whether the key was never stored or was fully deleted; a record too short
/// to hold a complete 4-byte value (truncated mid-write) is tolerated as
/// count 0 as well, never as an error. Bytes past the fourth are ignored.
pub open spec fn refcount_of_record(record: Option<Seq<u8>>) -> int {
    match record {
        Option::None => 0,
        Option::Some(b) => if b.len() < 4 {
            0
        } else {
            be32(b.take(4))
        },
    }
}

/// The bytes a refcount record holds, if one was read.
pub open spec fn record_bytes(record: Option<Vec<u8>>) -> Option<Seq<u8>> {
    match record {
        Option::None => Option::None,
        Option::Some(v) => Option::Some(v@),
    }
}

/// Decode a refcount record as read from disk: absent or truncated records
/// count as 0, anything else as the big-endian value of its first 4 bytes.
pub fn get_refcount(record: &Option<Vec<u8>>) -> (count: u32)
    ensures
        count as int == refcount_of_record(record_bytes(*record)),
{
    match record {
        Option::None => 0,
        Option::Some(v) => {
            if v.len() < 4 {
                0
            } else {
                let b0 = v[0] as u32;
                let b1 = v[1] as u32;
                let b2 = v[2] as u32;
                let b3 = v[3] as u32;
                let count = b0 * 0x1000000 + b1 * 0x10000 + b2 * 0x100 + b3;
                proof {
                    let t = v@.take(4);
                    assert(t[0] == v@[0] && t[1] == v@[1] && t[2] == v@[2] && t[3] == v@[3]);
                }
                count
            }
        },
    }
}

/// Encode a count as the 4-byte big-endian record written to disk.
pub fn encode_refcount(count: u32) -> (r: Vec<u8>)
    ensures
        r@.len() == 4,
        be32(r@) == count as int,
{
    let b0 = ((count >> 24) & 0xff) as u8;
    let b1 = ((count >> 16) & 0xff) as u8;
    let b2 = ((count >> 8) & 0xff) as u8;
    let b3 = (count & 0xff) as u8;
    proof {
        assert(((count >> 24) & 0xff) < 0x100 && ((count >> 16) & 0xff) < 0x100 && ((count >> 8)
            & 0xff) < 0x100 && (count & 0xff) < 0x100) by (bit_vector);
        assert(((count >> 24) & 0xff) * 0x1000000 + ((count >> 16) & 0xff) * 0x10000 + ((count
            >> 8) & 0xff) * 0x100 + (count & 0xff) == count) by (bit_vector);
    }
    let r: Vec<u8> = vec![b0, b1, b2, b3];
    proof {
        assert(r@[0] == b0 && r@[1] == b1 && r@[2] == b2 && r@[3] == b3);
    }
    r
}

/// What persisting a refcount means on disk.
#[derive(Debug)]
pub enum RecordWrite {
    /// A count of 0 is never written out: the record file is removed, so a
    /// missing record and a fully deleted one read the same.
    Remove,
    /// A positive count is written as its 4-byte big-endian record.
    Write(Vec<u8>),
}

/// Decide how a refcount is persisted: remove the record at 0, write the
/// encoded record otherwise.
pub fn set_refcount(count: u32) -> (w: RecordWrite)
    ensures
        count == 0 <==> w is Remove,
        w matches RecordWrite::Write(b) ==> b@.len() == 4 && be32(b@) == count as int,
{
    if count < 1 {
        RecordWrite::Remove
    } else {
        RecordWrite::Write(encode_refcount(count))
    }
}

/// A record decodes back to the count it was written for: the ledger's
/// on-disk round trip is exact.
pub proof fn lemma_refcount_round_trip(count: u32, r: Seq<u8>)
    requires
        r.len() == 4,
        be32(r) == count as int,
    ensures
        refcount_of_record(Option::Some(r)) == count as int,
{
    assert(r.take(4) =~= r);
}

} // verus!
