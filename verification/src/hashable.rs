use vstd::prelude::*;

use crate::error::Error;
use crate::filekey::{is_lower_hex_digit, valid_key, FileKey};
use crypto::digest::Digest;

verus! {

/// Relies on `crypto::sha2::Sha224`: the incremental SHA-224 digest state.
/// Declared so that a value of it can be held and passed around; verified
/// code reads nothing inside it.
#[verifier::external_type_specification]
#[verifier::external_body]
pub struct ExSha224(crypto::sha2::Sha224);

/// The message a digest state has absorbed so far, as fed through `input`.
pub uninterp spec fn sha224_absorbed(h: crypto::sha2::Sha224) -> Seq<u8>;

/// The lowercase hex text of the SHA-224 digest of a message. The digest is
/// a function of the message bytes alone, the same in every process and on
/// every machine.
pub uninterp spec fn sha224_hex_of(data: Seq<u8>) -> Seq<char>;

/// Relies on `crypto::sha2::Sha224::new`: a fresh digest state has absorbed
/// nothing.
#[verifier::external_body]
fn sha224_new() -> (h: crypto::sha2::Sha224)
    ensures
        sha224_absorbed(h) == Seq::<u8>::empty(),
{
    crypto::sha2::Sha224::new()
}

/// Relies on `crypto::digest::Digest::input` for `Sha224`: it appends the
/// given bytes to the state's absorbed message. `input` accepts only a state
/// that has not been finalized; every state these wrappers let verified code
/// hold is such, because finalization below consumes the state.
#[verifier::external_body]
fn sha224_input(h: &mut crypto::sha2::Sha224, data: &[u8])
    ensures
        sha224_absorbed(*final(h)) == sha224_absorbed(*old(h)) + data@,
{
    h.input(data);
}

/// Relies on `crypto::digest::Digest::result_str` for `Sha224`: it returns
/// the digest of the absorbed message, hex-encoded as two lowercase digits
/// per digest byte, so 56 characters for the 224-bit digest. It takes the
/// state by value: a finalized state must not absorb further input, and
/// consuming it here keeps every state verified code can reach unfinalized.
#[verifier::external_body]
fn sha224_result_str(h: crypto::sha2::Sha224) -> (r: String)
    ensures
        r@ == sha224_hex_of(sha224_absorbed(h)),
        r@.len() == 56,
        forall|i: int| 0 <= i < r@.len() ==> is_lower_hex_digit(#[trigger] r@[i]),
{
    let mut state = h;
    state.result_str()
}

/// An incremental content hasher: content is absorbed in bounded chunks, so
/// memory use stays constant however large the content, and the finished
/// digest derives the content's key.
pub struct StreamHasher {
    state: crypto::sha2::Sha224,
}

impl StreamHasher {
    /// The bytes absorbed so far.
    pub closed spec fn absorbed(&self) -> Seq<u8> {
        sha224_absorbed(self.state)
    }

    /// A fresh hasher that has absorbed nothing.
    pub fn new() -> (h: StreamHasher)
        ensures
            h.absorbed() == Seq::<u8>::empty(),
    {
        StreamHasher { state: sha224_new() }
    }

    /// Absorb the next chunk of content.
    pub fn push(&mut self, chunk: &[u8])
        ensures
            final(self).absorbed() == old(self).absorbed() + chunk@,
    {
        sha224_input(&mut self.state, chunk);
    }

    /// Finish the digest: the key for everything absorbed. The key text is
    /// a function of the absorbed bytes alone, never of any file name.
    pub fn finish(self) -> (key: FileKey)
        ensures
            key.0@ == sha224_hex_of(self.absorbed()),
            key.wf(),
    {
        let text = sha224_result_str(self.state);
        FileKey(text)
    }
}

/// Hash a whole in-memory buffer in one pass.
pub fn hash_data(input: &Vec<u8>) -> (key: FileKey)
    ensures
        key.0@ == sha224_hex_of(input@),
        key.wf(),
{
    let mut h = StreamHasher::new();
    h.push(input.as_slice());
    proof {
        assert(h.absorbed() =~= input@);
    }
    h.finish()
}

/// Content that can be digested into key text.
pub trait Hashable {
    /// The bytes the digest is taken over.
    spec fn content(&self) -> Seq<u8>;

    /// Digest the content: on success, the 56-character lowercase hex text
    /// of its 224-bit digest.
    fn hash(&self) -> (r: Result<String, Error>)
        ensures
            r matches Ok(s) ==> s@ == sha224_hex_of(self.content()) && valid_key(s@),
    ;
}

impl Hashable for Vec<u8> {
    open spec fn content(&self) -> Seq<u8> {
        self@
    }

    /// Hashing an in-memory buffer reads no file, so it never fails.
    fn hash(&self) -> (r: Result<String, Error>)
        ensures
            r is Ok,
    {
        let key = hash_data(self);
        Ok(key.0)
    }
}

} // verus!
