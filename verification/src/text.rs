//! The canonical textual form of an identifier: 36 characters, lowercase
//! hexadecimal, hyphens after the 8th, 12th, 16th and 20th digit.
use vstd::prelude::*;

verus! {

/// Numeric value of a hexadecimal digit, case-insensitive; -1 for any other
/// character.
pub open spec fn hex_val(c: char) -> int {
    if '0' <= c && c <= '9' {
        c as int - '0' as int
    } else if 'a' <= c && c <= 'f' {
        10 + c as int - 'a' as int
    } else if 'A' <= c && c <= 'F' {
        10 + c as int - 'A' as int
    } else {
        -1
    }
}

/// The lowercase hexadecimal digit with value `v`, for `v` in `0..16`.
pub open spec fn hex_char(v: int) -> char {
    if v == 0 { '0' }
    else if v == 1 { '1' }
    else if v == 2 { '2' }
    else if v == 3 { '3' }
    else if v == 4 { '4' }
    else if v == 5 { '5' }
    else if v == 6 { '6' }
    else if v == 7 { '7' }
    else if v == 8 { '8' }
    else if v == 9 { '9' }
    else if v == 10 { 'a' }
    else if v == 11 { 'b' }
    else if v == 12 { 'c' }
    else if v == 13 { 'd' }
    else if v == 14 { 'e' }
    else { 'f' }
}

/// Lowercase folding of one character, as far as canonical UUID text needs it:
/// an uppercase hexadecimal digit folds to its lowercase form, everything else
/// stays.
pub open spec fn fold_char(c: char) -> char {
    if hex_val(c) >= 0 {
        hex_char(hex_val(c))
    } else {
        c
    }
}

/// Lowercase folding of a whole text, character by character.
pub open spec fn fold_text(s: Seq<char>) -> Seq<char> {
    s.map_values(|c: char| fold_char(c))
}

/// The positions of the four hyphens in the canonical 36-character form.
pub open spec fn is_gap(i: int) -> bool {
    i == 8 || i == 13 || i == 18 || i == 23
}

/// Index of the hexadecimal digit standing at text position `i`, counting
/// digits only (the hyphens before `i` are skipped).
pub open spec fn digit_index(i: int) -> int {
    if i < 8 { i }
    else if i < 13 { i - 1 }
    else if i < 18 { i - 2 }
    else if i < 23 { i - 3 }
    else { i - 4 }
}

/// The `k`-th 4-bit group of the byte sequence `b`, high nibble first.
pub open spec fn nibble_of(b: Seq<u8>, k: int) -> int {
    if k % 2 == 0 {
        b[k / 2] as int / 16
    } else {
        b[k / 2] as int % 16
    }
}

/// The canonical lowercase hyphenated text of 16 bytes: 36 characters.
pub open spec fn canonical_text(b: Seq<u8>) -> Seq<char> {
    Seq::new(36, |i: int|
        if is_gap(i) {
            '-'
        } else {
            hex_char(nibble_of(b, digit_index(i)))
        }
    )
}

/// `s` spells the bytes `b` in the hyphenated form, hexadecimal digits taken
/// case-insensitively.
pub open spec fn is_hyphenated_text_of(s: Seq<char>, b: Seq<u8>) -> bool {
    &&& s.len() == 36
    &&& b.len() == 16
    &&& forall|i: int| 0 <= i < 36 && is_gap(i) ==> #[trigger] s[i] == '-'
    &&& forall|i: int| 0 <= i < 36 && !is_gap(i)
        ==> hex_val(#[trigger] s[i]) == nibble_of(b, digit_index(i))
}

/// `s` spells the bytes `b` in the braced variant: the hyphenated form
/// surrounded by `{` and `}`.
pub open spec fn is_braced_text_of(s: Seq<char>, b: Seq<u8>) -> bool {
    &&& s.len() == 38
    &&& s[0] == '{'
    &&& s[37] == '}'
    &&& is_hyphenated_text_of(s.subrange(1, 37), b)
}

/// `s` spells the bytes `b` as 32 hexadecimal digits without hyphens, the
/// digits taken case-insensitively.
pub open spec fn is_simple_text_of(s: Seq<char>, b: Seq<u8>) -> bool {
    &&& s.len() == 32
    &&& b.len() == 16
    &&& forall|k: int| 0 <= k < 32 ==> hex_val(#[trigger] s[k]) == nibble_of(b, k)
}

/// `s` spells the bytes `b` in the URN variant: the prefix `urn:uuid:`, its
/// letters in either case, before the hyphenated form.
pub open spec fn is_urn_text_of(s: Seq<char>, b: Seq<u8>) -> bool {
    &&& s.len() == 45
    &&& (s[0] == 'u' || s[0] == 'U')
    &&& (s[1] == 'r' || s[1] == 'R')
    &&& (s[2] == 'n' || s[2] == 'N')
    &&& s[3] == ':'
    &&& (s[4] == 'u' || s[4] == 'U')
    &&& (s[5] == 'u' || s[5] == 'U')
    &&& (s[6] == 'i' || s[6] == 'I')
    &&& (s[7] == 'd' || s[7] == 'D')
    &&& s[8] == ':'
    &&& is_hyphenated_text_of(s.subrange(9, 45), b)
}

/// `s` spells the bytes `b` in one of the accepted text variants: hyphenated,
/// braced, without hyphens, or as a URN.
pub open spec fn spells_uuid(s: Seq<char>, b: Seq<u8>) -> bool {
    ||| is_hyphenated_text_of(s, b)
    ||| is_braced_text_of(s, b)
    ||| is_simple_text_of(s, b)
    ||| is_urn_text_of(s, b)
}

/// Reading a hexadecimal digit back from the character that renders a value
/// gives the value again.
pub proof fn lemma_hex_char_val(v: int)
    requires
        0 <= v < 16,
    ensures
        hex_val(hex_char(v)) == v,
{
}

/// The canonical text of any 16 bytes spells exactly those bytes: rendering
/// always parses back.
pub proof fn lemma_canonical_text_spells(b: Seq<u8>)
    requires
        b.len() == 16,
    ensures
        is_hyphenated_text_of(canonical_text(b), b),
{
    let s = canonical_text(b);
    assert forall|i: int| 0 <= i < 36 && !is_gap(i)
        implies hex_val(#[trigger] s[i]) == nibble_of(b, digit_index(i)) by {
        let k = digit_index(i);
        assert(0 <= k < 32);
        assert(0 <= nibble_of(b, k) < 16);
        lemma_hex_char_val(nibble_of(b, k));
    }
}

/// Round-trip law: any text that spells bytes `b` folds, character by
/// character, to the canonical text of `b`. Rendering a parsed identifier
/// therefore returns the lowercase form of what was parsed.
pub proof fn lemma_render_after_parse(s: Seq<char>, b: Seq<u8>)
    requires
        is_hyphenated_text_of(s, b),
    ensures
        canonical_text(b) =~= fold_text(s),
{
    assert forall|i: int| 0 <= i < 36 implies canonical_text(b)[i] == fold_text(s)[i] by {
        if is_gap(i) {
            assert(s[i] == '-');
        } else {
            assert(hex_val(s[i]) == nibble_of(b, digit_index(i)));
        }
    }
}

/// The lowercase hexadecimal digit standing for `v`, as a one-character text.
pub fn hex_str(v: u8) -> (r: &'static str)
    requires
        v < 16,
    ensures
        r@.len() == 1,
        r@[0] == hex_char(v as int),
{
    proof {
        reveal_strlit("0");
        reveal_strlit("1");
        reveal_strlit("2");
        reveal_strlit("3");
        reveal_strlit("4");
        reveal_strlit("5");
        reveal_strlit("6");
        reveal_strlit("7");
        reveal_strlit("8");
        reveal_strlit("9");
        reveal_strlit("a");
        reveal_strlit("b");
        reveal_strlit("c");
        reveal_strlit("d");
        reveal_strlit("e");
        reveal_strlit("f");
    }
    match v {
        0 => "0",
        1 => "1",
        2 => "2",
        3 => "3",
        4 => "4",
        5 => "5",
        6 => "6",
        7 => "7",
        8 => "8",
        9 => "9",
        10 => "a",
        11 => "b",
        12 => "c",
        13 => "d",
        14 => "e",
        _ => "f",
    }
}

} // verus!
