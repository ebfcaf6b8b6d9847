//! Trusted interface to the `uuid` crate, the external UUID primitive: random
//! generation and textual parsing. Everything else about an identifier is
//! computed and proved in this crate.
use vstd::prelude::*;

use crate::text::spells_uuid;
use crate::Error;

verus! {

/// What `uuid::Uuid::parse_str` makes of a text: the 16 bytes it spells, or
/// nothing. Parsing is a function of the characters alone, so one name covers
/// every call.
pub uninterp spec fn uuid_parse(s: Seq<char>) -> Option<Seq<u8>>;

/// Relies on `uuid::Uuid::parse_str`. Its parser accepts, of any input text,
/// exactly the four variants that `spells_uuid` describes: the plain
/// hyphenated form (36 characters, hyphens after the 8th, 12th, 16th and
/// 20th hexadecimal digit, digits case-insensitive), that form in braces,
/// the 32-digit form without hyphens, and the `urn:uuid:` form, and decodes
/// each to the bytes it spells, high nibble first. Every accepted character
/// is ASCII, so the byte lengths it matches on, 32, 36, 38 and 45, equal the
/// character counts, and anything of another length is rejected, as is a
/// 38-character input that does not open with a brace.
#[verifier::external_body]
pub(crate) fn parse_uuid_text(s: &str) -> (r: Result<[u8; 16], Error>)
    ensures
        r matches Ok(bs) ==> uuid_parse(s@) == Some(bs@),
        r is Err ==> uuid_parse(s@) is None,
        r is Err ==> forall|b: Seq<u8>| !#[trigger] spells_uuid(s@, b),
        r matches Ok(bs) ==> forall|b: Seq<u8>| #[trigger] spells_uuid(s@, b) ==> bs@ == b,
        r is Err <== s@.len() != 32 && s@.len() != 36 && s@.len() != 38 && s@.len() != 45,
        r is Err <== s@.len() == 38 && s@[0] != '{',
{
    match uuid::Uuid::parse_str(s) {
        Ok(u) => Ok(*u.as_bytes()),
        Err(_) => Err(Error),
    }
}

/// Relies on `uuid::Uuid::new_v4`: 16 bytes drawn from the process-wide
/// random source, with the version nibble set to 4 and the variant bits to
/// the standard variant. Nothing else holds of the outcome: it is random.
#[verifier::external_body]
pub(crate) fn generate_v4_bytes() -> (r: [u8; 16])
    ensures
        r@[6] / 16 == 4,
        r@[8] / 64 == 2,
{
    *uuid::Uuid::new_v4().as_bytes()
}

} // verus!
