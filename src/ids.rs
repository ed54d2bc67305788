use vstd::prelude::*;

verus! {

/// A character of the Crockford base-32 alphabet that ids are written in.
pub open spec fn is_id_char(c: char) -> bool {
    ('0' <= c <= '9') || ('A' <= c <= 'H') || c == 'J' || c == 'K' || c == 'M' || c == 'N' || ('P'
        <= c <= 'T') || ('V' <= c <= 'Z')
}

/// Number of characters in an id.
pub const ID_LEN: usize = 26;

/// A well-formed id: exactly `ID_LEN` characters of the id alphabet.
pub open spec fn is_id(s: Seq<char>) -> bool {
    s.len() == ID_LEN && forall|i: int| 0 <= i < s.len() ==> is_id_char(#[trigger] s[i])
}

/// Relies on `ulid::Ulid::new` and `Ulid::to_string`: a fresh time-ordered
/// id, written as 26 characters of the Crockford base-32 alphabet.
#[verifier::external_body]
pub(crate) fn new_ulid() -> (r: String)
    ensures
        is_id(r@),
{
    ulid::Ulid::new().to_string()
}

} // verus!
