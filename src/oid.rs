use vstd::prelude::*;

verus! {

/// A hex digit in either case.
pub open spec fn is_hex_digit(c: char) -> bool {
    ('0' <= c && c <= '9') || ('a' <= c && c <= 'f') || ('A' <= c && c <= 'F')
}

/// A hex digit as a canonical identifier writes it.
pub open spec fn is_lower_hex_digit(c: char) -> bool {
    ('0' <= c && c <= '9') || ('a' <= c && c <= 'f')
}

/// Text that names a document identifier: twelve bytes as 24 hex digits.
pub open spec fn is_object_id_text(s: Seq<char>) -> bool {
    s.len() == 24 && forall|i: int| 0 <= i < s.len() ==> is_hex_digit(#[trigger] s[i])
}

/// The canonical text of an identifier: 24 lowercase hex digits.
pub open spec fn is_canonical_id(s: Seq<char>) -> bool {
    s.len() == 24 && forall|i: int| 0 <= i < s.len() ==> is_lower_hex_digit(#[trigger] s[i])
}

pub open spec fn lower_hex_digit(c: char) -> char {
    if c == 'A' {
        'a'
    } else if c == 'B' {
        'b'
    } else if c == 'C' {
        'c'
    } else if c == 'D' {
        'd'
    } else if c == 'E' {
        'e'
    } else if c == 'F' {
        'f'
    } else {
        c
    }
}

/// The canonical form of identifier text: each hex digit in lower case.
pub open spec fn canonical_id(s: Seq<char>) -> Seq<char> {
    s.map_values(|c: char| lower_hex_digit(c))
}

/// Relies on bson's `ObjectId::parse_str`, which hex-decodes the text and
/// accepts exactly twelve bytes, and on `ObjectId::to_hex`, which encodes
/// them again as lowercase hex.
#[verifier::external_body]
pub(crate) fn parse_object_id(s: &str) -> (r: Option<String>)
    ensures
        r is Some <==> is_object_id_text(s@),
        r matches Some(h) ==> h@ == canonical_id(s@),
{
    bson::oid::ObjectId::parse_str(s).ok().map(|o| o.to_hex())
}

/// Relies on bson's `ObjectId::new`, written out by `ObjectId::to_hex`: a
/// fresh identifier as 24 lowercase hex digits. Which one comes depends on
/// the time, the process and a counter.
#[verifier::external_body]
pub(crate) fn new_object_id() -> (r: String)
    ensures
        is_canonical_id(r@),
{
    bson::oid::ObjectId::new().to_hex()
}

} // verus!
