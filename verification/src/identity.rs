//! Identities of registered users: sixteen bytes in the store, canonical
//! hyphenated lower-case text inside a token.
use vstd::prelude::*;

verus! {

/// The parse failure of the `uuid` crate, carried opaquely.
#[verifier::external_type_specification]
#[verifier::external_body]
pub struct ExUuidError(uuid::Error);

/// Number of bytes of an identity.
pub const IDENTITY_LEN: usize = 16;

/// What `uuid::Uuid::parse_str` makes of a text: the sixteen bytes of the
/// identity it denotes, or `None` where it rejects the text.
pub uninterp spec fn uuid_parsing(text: Seq<char>) -> Option<Seq<u8>>;

/// The sixteen lower-case hexadecimal digits.
pub open spec fn hex_digits() -> Seq<char> {
    seq!['0', '1', '2', '3', '4', '5', '6', '7', '8', '9', 'a', 'b', 'c', 'd', 'e', 'f']
}

/// Index among the 32 hexadecimal digits of position `i` of a canonical text,
/// for a position that holds no hyphen.
pub open spec fn digit_index(i: int) -> int {
    if i < 8 {
        i
    } else if i < 13 {
        i - 1
    } else if i < 18 {
        i - 2
    } else if i < 23 {
        i - 3
    } else {
        i - 4
    }
}

/// Character at position `i` of the canonical text of `id`.
pub open spec fn canonical_char(id: Seq<u8>, i: int) -> char {
    if i == 8 || i == 13 || i == 18 || i == 23 {
        '-'
    } else {
        let k = digit_index(i);
        let byte = id[k / 2] as int;
        if k % 2 == 0 {
            hex_digits()[byte / 16]
        } else {
            hex_digits()[byte % 16]
        }
    }
}

/// Canonical text of an identity: 32 lower-case hexadecimal digits in groups
/// of 8, 4, 4, 4 and 12, separated by hyphens.
pub open spec fn canonical_text(id: Seq<u8>) -> Seq<char> {
    Seq::new(36, |i: int| canonical_char(id, i))
}

/// Calls `uuid::Uuid::parse_str`. The bytes returned are those the crate
/// parsed, always sixteen; an error comes exactly where the crate rejects
/// the text.
#[verifier::external_body]
pub(crate) fn uuid_parse_str(text: &str) -> (r: Result<Vec<u8>, uuid::Error>)
    ensures
        uuid_parsing(text@) == match r {
            Ok(id) => Some(id@),
            Err(_) => None,
        },
        r matches Ok(id) ==> id@.len() == IDENTITY_LEN,
{
    uuid::Uuid::parse_str(text).map(|u| u.as_bytes().to_vec())
}

/// Calls `uuid::Uuid::from_slice` and formats the value with its `Display`
/// impl. The crate accepts exactly slices of sixteen bytes, prints them in
/// hyphenated lower-case form, and parses every text it prints back to the
/// same bytes.
#[verifier::external_body]
pub(crate) fn uuid_to_text(id: &[u8]) -> (r: Result<String, uuid::Error>)
    ensures
        r is Ok <==> id@.len() == IDENTITY_LEN,
        r matches Ok(text) ==> text@ == canonical_text(id@) && uuid_parsing(text@) == Some(id@),
{
    uuid::Uuid::from_slice(id).map(|u| u.to_string())
}

/// Calls `uuid::Uuid::new_v4`: sixteen bytes drawn at random.
#[verifier::external_body]
pub(crate) fn uuid_new_v4() -> (id: Vec<u8>)
    ensures
        id@.len() == IDENTITY_LEN,
{
    uuid::Uuid::new_v4().as_bytes().to_vec()
}

/// Draws a fresh identity at random.
pub fn new_identity() -> (id: Vec<u8>)
    ensures
        id@.len() == IDENTITY_LEN,
{
    uuid_new_v4()
}

/// Mathematical value of an identity that may be absent.
pub open spec fn seen_identity(id: Option<Vec<u8>>) -> Option<Seq<u8>> {
    match id {
        Some(bytes) => Some(bytes@),
        None => None,
    }
}

/// Parses the textual form of an identity; `None` for a text that is none.
pub fn parse_identity(text: &str) -> (r: Option<Vec<u8>>)
    ensures
        seen_identity(r) == uuid_parsing(text@),
        r matches Some(id) ==> id@.len() == IDENTITY_LEN,
{
    match uuid_parse_str(text) {
        Ok(id) => Some(id),
        Err(_) => None,
    }
}

} // verus!
