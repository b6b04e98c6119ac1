use vstd::prelude::*;

verus! {

/// True of the characters a key may contain: lowercase hexadecimal digits.
pub open spec fn is_lower_hex_digit(c: char) -> bool {
    (48 <= c as u32 && c as u32 <= 57) || (97 <= c as u32 && c as u32 <= 102)
}

/// A well-formed key text: the lowercase hex encoding of a 28-byte digest,
/// so exactly 56 lowercase hex characters.
pub open spec fn valid_key(s: Seq<char>) -> bool {
    &&& s.len() == 56
    &&& forall|i: int| 0 <= i < s.len() ==> is_lower_hex_digit(#[trigger] s[i])
}

/// A key issued at storage, used to retrieve your file. Its text is derived
/// from the stored content alone, never from a caller-supplied name or path.
#[derive(PartialEq, Eq, Debug, Clone)]
pub struct FileKey(pub String);

impl FileKey {
    /// Well-formedness: the text is the lowercase hex form of a 224-bit digest.
    pub open spec fn wf(&self) -> bool {
        valid_key(self.0@)
    }

    /// The key's external text form, stable across store and retrieve calls.
    pub fn text(&self) -> (s: &str)
        ensures
            s@ == self.0@,
    {
        self.0.as_str()
    }

    /// Parse an external text form back into a key. Returns `None` exactly
    /// when the text is not the lowercase hex form of a 224-bit digest, so
    /// `text` and `from_text` round-trip on every well-formed key.
    pub fn from_text(s: &str) -> (r: Option<FileKey>)
        ensures
            r matches Some(k) ==> k.0@ == s@ && k.wf(),
            r is Some <==> valid_key(s@),
    {
        let n = s.unicode_len();
        if n != 56 {
            return None;
        }
        let mut i: usize = 0;
        while i < 56
            invariant
                i <= 56,
                s@.len() == 56,
                forall|j: int| 0 <= j < i ==> is_lower_hex_digit(#[trigger] s@[j]),
            decreases 56 - i,
        {
            let c = s.get_char(i);
            let u = c as u32;
            if !((48 <= u && u <= 57) || (97 <= u && u <= 102)) {
                return None;
            }
            i += 1;
        }
        Some(FileKey(s.to_owned()))
    }
}

/// Inner error for building conversion errors in database adapters: the
/// column type a key cannot be converted to or from.
///
/// Relies on `postgres::types::Type`, declared here so that a value of it
/// can be carried; nothing inside it is read by verified code.
#[verifier::external_type_specification]
#[verifier::external_body]
pub struct ExPgType(postgres::types::Type);

/// The error reported by database adapters when a column's type cannot hold
/// a key.
#[derive(Debug)]
pub struct WrongType(pub postgres::types::Type);

impl WrongType {
    pub fn new(ty: postgres::types::Type) -> (w: WrongType)
        ensures
            w.0 == ty,
    {
        WrongType(ty)
    }
}

} // verus!
