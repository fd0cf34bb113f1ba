use vstd::prelude::*;

verus! {

/// A UUID as its sixteen bytes, most significant first.
#[derive(Debug, Clone, Copy, PartialEq, Eq)]
pub struct Uid {
    pub bytes: [u8; 16],
}

/// Why a path segment was not accepted as an identifier.
#[derive(Debug, Clone, Copy, PartialEq, Eq)]
pub enum UidError {
    Malformed,
}

/// The lowercase hexadecimal digit of `n`, for `n < 16`.
pub open spec fn hex_digit(n: u8) -> char {
    seq!['0', '1', '2', '3', '4', '5', '6', '7', '8', '9', 'a', 'b', 'c', 'd', 'e', 'f'][n as int]
}

/// The number of hyphens that stand before position `i` of the hyphenated text.
pub open spec fn hyphens_before(i: int) -> int {
    if i > 23 {
        4
    } else if i > 18 {
        3
    } else if i > 13 {
        2
    } else if i > 8 {
        1
    } else {
        0
    }
}

pub open spec fn is_hyphen_position(i: int) -> bool {
    i == 8 || i == 13 || i == 18 || i == 23
}

/// Character `i` of the hyphenated text of `b`: groups of 8, 4, 4, 4 and 12
/// lowercase hex digits, high nibble first, joined by hyphens.
pub open spec fn text_char(b: Seq<u8>, i: int) -> char {
    if is_hyphen_position(i) {
        '-'
    } else {
        let d = i - hyphens_before(i);
        let byte = b[d / 2];
        hex_digit(if d % 2 == 0 { byte / 16 } else { byte % 16 })
    }
}

/// The hyphenated lowercase text of the UUID with bytes `b`
/// (`xxxxxxxx-xxxx-xxxx-xxxx-xxxxxxxxxxxx`).
pub open spec fn uid_text(b: Seq<u8>) -> Seq<char> {
    Seq::new(36, |i: int| text_char(b, i))
}

/// The bytes of a random UUID: version 4 in the high nibble of byte 6 and the
/// RFC 4122 variant (binary `10`) in the top bits of byte 8.
pub open spec fn is_random_uid(b: Seq<u8>) -> bool {
    &&& b.len() == 16
    &&& b[6] / 16 == 4
    &&& b[8] / 64 == 2
}

#[verifier::external_type_specification]
#[verifier::external_body]
pub struct ExUuidError(uuid::Error);

/// Relies on uuid's `Uuid::new_v4`: sixteen bytes from the system's random
/// source, with the version and variant bits set as `is_random_uid` states.
/// It panics only where the system has no random source.
#[verifier::external_body]
fn draw_random_uid() -> (r: Uid)
    ensures
        is_random_uid(r.bytes@),
{
    Uid { bytes: *uuid::Uuid::new_v4().as_bytes() }
}

/// Relies on uuid's `Display` of `Uuid`, which writes the hyphenated
/// lowercase form.
#[verifier::external_body]
fn hyphenated_text(u: &Uid) -> (r: String)
    ensures
        r@ == uid_text(u.bytes@),
{
    uuid::Uuid::from_bytes(u.bytes).to_string()
}

/// Relies on uuid's `Uuid::parse_str`: it refuses any text whose length is not
/// that of the simple (32), hyphenated (36) or URN (45) form, and reads the
/// hyphenated lowercase text of a UUID back to its bytes.
#[verifier::external_body]
fn parse_uuid_text(s: &str) -> (r: Result<Uid, uuid::Error>)
    ensures
        s@.len() != 32 && s@.len() != 36 && s@.len() != 45 ==> r is Err,
        forall|b: Seq<u8>|
            b.len() == 16 && s@ == #[trigger] uid_text(b) ==> (r is Ok && r->Ok_0.bytes@ == b),
{
    match uuid::Uuid::parse_str(s) {
        Ok(u) => Ok(Uid { bytes: *u.as_bytes() }),
        Err(e) => Err(e),
    }
}

impl Uid {
    /// A fresh random (version 4) identifier.
    pub fn new_random() -> (r: Uid)
        ensures
            is_random_uid(r.bytes@),
    {
        draw_random_uid()
    }

    /// The hyphenated lowercase text of this identifier, as it is stored.
    pub fn to_text(&self) -> (r: String)
        ensures
            r@ == uid_text(self.bytes@),
            r@.len() == 36,
    {
        hyphenated_text(self)
    }

    /// Reads an identifier from a path segment. Text of a length that no UUID
    /// form has is refused; the hyphenated text of a UUID gives that UUID.
    pub fn parse(s: &str) -> (r: Result<Uid, UidError>)
        ensures
            s@.len() != 32 && s@.len() != 36 && s@.len() != 45 ==> r == Err::<Uid, UidError>(
                UidError::Malformed,
            ),
            forall|b: Seq<u8>| #![trigger uid_text(b)]
                b.len() == 16 && s@ == uid_text(b) ==> (r matches Ok(u) && u.bytes@ == b),
    {
        match parse_uuid_text(s) {
            Ok(u) => Ok(u),
            Err(_) => Err(UidError::Malformed),
        }
    }
}

/// The text of a random identifier is never empty: it has 36 characters and
/// shows the version digit `4` at position 14.
pub proof fn lemma_random_uid_text(b: Seq<u8>)
    requires
        is_random_uid(b),
    ensures
        uid_text(b).len() == 36,
        uid_text(b)[14] == '4',
{
    assert(hyphens_before(14) == 2);
    assert(b[6] / 16 == 4);
}

} // verus!
