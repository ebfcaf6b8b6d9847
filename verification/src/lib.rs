//! A compile-time-distinguishable identifier: a 128-bit UUID wrapped with a
//! marker type, so that identifiers of different entities are different types
//! even though they share one runtime representation.
use vstd::prelude::*;

use core::cmp::Ordering;
use core::marker::PhantomData;
use vstd::std_specs::cmp::PartialEqSpec;
use vstd::std_specs::cmp::PartialOrdSpec;
use vstd::string::StringExecFns;

pub mod order;
pub mod text;
pub mod uuid_bridge;

use crate::order::{lemma_lex_cmp_from, lemma_lex_trichotomy, lex_cmp};
use crate::text::{canonical_text, hex_str, is_gap, is_hyphenated_text_of, lemma_canonical_text_spells, nibble_of, spells_uuid};
use crate::uuid_bridge::{generate_v4_bytes, parse_uuid_text, uuid_parse};

verus! {

broadcast use vstd::array::group_array_axioms;

/// Failure to read an identifier: the given text or byte sequence does not
/// spell a well-formed UUID.
#[derive(Clone, Copy, Debug, PartialEq, Eq, Structural)]
pub struct Error;

impl Error {
    /// A human-readable description of the failure.
    pub fn message(&self) -> (r: String)
        ensures
            r@ == "malformed identifier"@,
    {
        "malformed identifier".to_owned()
    }
}

/// An identifier holding the 16 bytes of a UUID, tagged by a marker type `T`
/// that exists only at compile time and never participates in the value.
#[derive(Debug, Hash)]
#[verifier::ext_equal]
pub struct TaggedId<T> {
    bytes: [u8; 16],
    tag: PhantomData<T>,
}

impl<T> View for TaggedId<T> {
    type V = Seq<u8>;

    closed spec fn view(&self) -> Seq<u8> {
        self.bytes@
    }
}

impl<T> TaggedId<T> {
    /// Generates a fresh identifier with a random version-4 UUID value.
    /// The version nibble and the variant bits are fixed; the rest is random.
    pub fn new() -> (r: Self)
        ensures
            r@[6] / 16 == 4,
            r@[8] / 64 == 2,
    {
        TaggedId::from_bytes(generate_v4_bytes())
    }

    /// Wraps exactly the 16 bytes given, in the standard big-endian UUID
    /// layout.
    pub fn from_bytes(bytes: [u8; 16]) -> (r: Self)
        ensures
            r@ == bytes@,
    {
        TaggedId { bytes, tag: PhantomData }
    }

    /// Reads an identifier from a byte slice: accepts exactly 16 bytes and
    /// rejects every other length.
    pub fn from_slice(b: &[u8]) -> (r: Result<Self, Error>)
        ensures
            b@.len() == 16 ==> (r matches Ok(id) && id@ == b@),
            b@.len() != 16 ==> r == Err::<Self, Error>(Error),
    {
        if b.len() == 16 {
            let mut bytes: [u8; 16] = [0; 16];
            let mut i: usize = 0;
            while i < 16
                invariant
                    i <= 16,
                    b@.len() == 16,
                    forall|j: int| 0 <= j < i ==> bytes@[j] == b@[j],
                decreases 16 - i,
            {
                bytes[i] = b[i];
                i += 1;
            }
            let id = TaggedId::from_bytes(bytes);
            proof {
                assert(bytes@ =~= b@);
            }
            Ok(id)
        } else {
            Err(Error)
        }
    }

    /// Reads an identifier from text. Everything the UUID primitive's parser
    /// accepts is accepted: the plain hyphenated form, that form in braces,
    /// the 32-digit form, and the `urn:uuid:` form, each decoded to the bytes
    /// it spells; a text of a length the parser never accepts, the empty
    /// text among them, is rejected, and so is an otherwise valid text with
    /// trailing characters.
    pub fn parse_str(s: &str) -> (r: Result<Self, Error>)
        ensures
            uuid_parse(s@) matches Some(b) ==> (r matches Ok(id) && id@ == b),
            uuid_parse(s@) is None ==> r == Err::<Self, Error>(Error),
            r matches Ok(id) ==> uuid_parse(s@) == Some(id@),
            forall|b: Seq<u8>| #[trigger] spells_uuid(s@, b) ==> (r matches Ok(id) && id@ == b),
            s@.len() != 32 && s@.len() != 36 && s@.len() != 38 && s@.len() != 45 ==> r is Err,
            s@.len() == 38 && s@[0] != '{' ==> r is Err,
    {
        match parse_uuid_text(s) {
            Ok(bytes) => Ok(TaggedId::from_bytes(bytes)),
            Err(e) => Err(e),
        }
    }

    /// Read-only view of the 16-byte representation.
    pub fn as_bytes(&self) -> (r: &[u8; 16])
        ensures
            r@ == self@,
    {
        &self.bytes
    }

    /// Renders the canonical lowercase hyphenated text: the exact inverse of
    /// parsing for every text that parsing accepts in this form.
    pub fn to_string(&self) -> (r: String)
        ensures
            r@ == canonical_text(self@),
    {
        let mut out = String::new();
        let mut i: usize = 0;
        while i < 36
            invariant
                i <= 36,
                out@.len() == i,
                forall|j: int| 0 <= j < i ==> out@[j] == canonical_text(self@)[j],
            decreases 36 - i,
        {
            if i == 8 || i == 13 || i == 18 || i == 23 {
                proof {
                    reveal_strlit("-");
                }
                out.append("-");
            } else {
                let k: usize = if i < 8 { i } else if i < 13 { i - 1 } else if i < 18 { i - 2 }
                    else if i < 23 { i - 3 } else { i - 4 };
                let byte = self.bytes[k / 2];
                let v: u8 = if k % 2 == 0 { byte / 16 } else { byte % 16 };
                proof {
                    assert(!is_gap(i as int));
                    assert(v as int == nibble_of(self@, crate::text::digit_index(i as int)));
                }
                out.append(hex_str(v));
            }
            i += 1;
        }
        proof {
            assert(out@ =~= canonical_text(self@));
        }
        out
    }
}

impl<T> core::str::FromStr for TaggedId<T> {
    type Err = Error;

    /// Parsing through the standard trait is `parse_str` exactly: it succeeds
    /// on the same texts, with the same identifier, and fails on the rest.
    fn from_str(s: &str) -> (r: Result<Self, Error>)
        ensures
            uuid_parse(s@) matches Some(b) ==> (r matches Ok(id) && id@ == b),
            uuid_parse(s@) is None ==> r == Err::<Self, Error>(Error),
            r matches Ok(id) ==> uuid_parse(s@) == Some(id@),
            forall|b: Seq<u8>| #[trigger] spells_uuid(s@, b) ==> (r matches Ok(id) && id@ == b),
            s@.len() != 32 && s@.len() != 36 && s@.len() != 38 && s@.len() != 45 ==> r is Err,
            s@.len() == 38 && s@[0] != '{' ==> r is Err,
    {
        TaggedId::parse_str(s)
    }
}

impl<T> Copy for TaggedId<T> {

}

impl<T> Clone for TaggedId<T> {
    fn clone(&self) -> (r: Self)
        ensures
            r == *self,
    {
        *self
    }
}

impl<T> vstd::std_specs::cmp::PartialEqSpecImpl for TaggedId<T> {
    open spec fn obeys_eq_spec() -> bool {
        true
    }

    open spec fn eq_spec(&self, other: &Self) -> bool {
        self@ == other@
    }
}

impl<T> PartialEq for TaggedId<T> {
    /// Identifiers are interchangeable exactly when their 16 bytes agree;
    /// the marker type never takes part.
    fn eq(&self, other: &Self) -> (r: bool) {
        let mut i: usize = 0;
        while i < 16
            invariant
                i <= 16,
                forall|j: int| 0 <= j < i ==> self@[j] == other@[j],
            decreases 16 - i,
        {
            if self.bytes[i] != other.bytes[i] {
                return false;
            }
            i += 1;
        }
        proof {
            assert(self@ =~= other@);
        }
        true
    }
}

impl<T> Eq for TaggedId<T> {

}

impl<T> vstd::std_specs::cmp::PartialOrdSpecImpl for TaggedId<T> {
    open spec fn obeys_partial_cmp_spec() -> bool {
        true
    }

    open spec fn partial_cmp_spec(&self, other: &Self) -> Option<Ordering> {
        Some(lex_cmp(self@, other@))
    }
}

impl<T> PartialOrd for TaggedId<T> {
    /// The natural total order of UUID values: lexicographic over the bytes.
    fn partial_cmp(&self, other: &Self) -> (r: Option<Ordering>) {
        let mut i: usize = 0;
        while i < 16
            invariant
                i <= 16,
                forall|j: int| 0 <= j < i ==> self@[j] == other@[j],
            decreases 16 - i,
        {
            let a = self.bytes[i];
            let b = other.bytes[i];
            if a < b {
                proof {
                    lemma_lex_cmp_from(self@, other@, i as int);
                    assert(self@.skip(i as int)[0] == self@[i as int]);
                    assert(other@.skip(i as int)[0] == other@[i as int]);
                }
                return Some(Ordering::Less);
            }
            if a > b {
                proof {
                    lemma_lex_cmp_from(self@, other@, i as int);
                    assert(self@.skip(i as int)[0] == self@[i as int]);
                    assert(other@.skip(i as int)[0] == other@[i as int]);
                }
                return Some(Ordering::Greater);
            }
            i += 1;
        }
        proof {
            lemma_lex_cmp_from(self@, other@, 16);
            assert(self@.skip(16).len() == 0);
        }
        Some(Ordering::Equal)
    }
}

/// An identifier has exactly 16 bytes in view.
pub proof fn lemma_view_len<T>(id: TaggedId<T>)
    ensures
        id@.len() == 16,
{
}

/// The 16-byte view determines the identifier: values with equal views are
/// equal, so constructing from bytes and reading bytes back round-trips.
pub proof fn lemma_view_determines_id<T>(a: TaggedId<T>, b: TaggedId<T>)
    requires
        a@ == b@,
    ensures
        a == b,
{
    assert(a.bytes =~= b.bytes);
    assert(a =~= b);
}

/// Byte round-trip law: an identifier constructed from 16 bytes holds them
/// as its view, and reading the bytes back yields that view, so what comes
/// back is what went in.
pub proof fn lemma_byte_round_trip<T>(bytes: [u8; 16], id: TaggedId<T>, out: [u8; 16])
    requires
        id@ == bytes@,
        out@ == id@,
    ensures
        out == bytes,
{
    assert(out =~= bytes);
}

/// Consistency law: parsing is a function of the text alone, so two
/// identifiers parsed independently from the same text are the same value.
pub proof fn lemma_parse_deterministic<T>(s: Seq<char>, id1: TaggedId<T>, id2: TaggedId<T>)
    requires
        uuid_parse(s) == Some(id1@),
        uuid_parse(s) == Some(id2@),
    ensures
        id1 == id2,
{
    assert(id1@ == id2@);
    lemma_view_determines_id(id1, id2);
}

/// Rendering an identifier gives a text that spells its own bytes, so the
/// canonical text parses back to an equal value: serialization through the
/// canonical form loses nothing.
pub proof fn lemma_render_spells_self<T>(id: TaggedId<T>)
    ensures
        is_hyphenated_text_of(canonical_text(id@), id@),
        spells_uuid(canonical_text(id@), id@),
{
    lemma_view_len(id);
    lemma_canonical_text_spells(id@);
}

/// Ordering totality law: comparison never fails, it follows the
/// byte-lexicographic order, comparing equal coincides with equality of the
/// values and with `==`, and less one way round is greater the other; as a
/// comparison has exactly one outcome, exactly one of less, equal and greater
/// holds of any pair.
pub proof fn lemma_ordering_total<T>(a: TaggedId<T>, b: TaggedId<T>)
    ensures
        a.partial_cmp_spec(&b) == Some(lex_cmp(a@, b@)),
        a.eq_spec(&b) <==> lex_cmp(a@, b@) == Ordering::Equal,
        lex_cmp(a@, b@) == Ordering::Equal <==> a == b,
        lex_cmp(a@, b@) == Ordering::Less <==> lex_cmp(b@, a@) == Ordering::Greater,
{
    lemma_lex_trichotomy(a@, b@);
    if lex_cmp(a@, b@) == Ordering::Equal {
        lemma_view_determines_id(a, b);
    }
}

} // verus!
