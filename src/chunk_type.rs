use vstd::prelude::*;
use vstd::string::StringSliceAdditionalSpecFns;
use vstd::utf8::{encode_utf8, valid_utf8};

verus! {

/// Whether `c` has the Unicode `Alphabetic` property, as `char::is_alphabetic` reports it.
pub uninterp spec fn alphabetic(c: char) -> bool;

/// Relies on `char::is_alphabetic`: it reports the Unicode `Alphabetic`
/// property of `c`.
#[verifier::external_body]
fn char_is_alphabetic(c: char) -> (r: bool)
    ensures
        r == alphabetic(c),
{
    c.is_alphabetic()
}

/// Relies on `String::from_utf8`: on valid UTF-8 it returns the string whose
/// UTF-8 encoding is `v`.
#[verifier::external_body]
fn string_from_utf8(v: Vec<u8>) -> (r: String)
    requires
        valid_utf8(v@),
    ensures
        encode_utf8(r@) == v@,
{
    String::from_utf8(v).unwrap()
}

/// `b` is an ASCII upper-case letter (`A`..=`Z`).
pub open spec fn is_upper(b: u8) -> bool {
    65 <= b <= 90
}

/// `b` is an ASCII lower-case letter (`a`..=`z`).
pub open spec fn is_lower(b: u8) -> bool {
    97 <= b <= 122
}

/// `b` is an ASCII letter.
pub open spec fn is_letter(b: u8) -> bool {
    is_upper(b) || is_lower(b)
}

/// `s` is a well-formed chunk-type code: four ASCII letters.
pub open spec fn valid_code(s: Seq<u8>) -> bool {
    s.len() == 4 && forall|i: int| 0 <= i < 4 ==> #[trigger] is_letter(s[i])
}

fn is_ascii_upper(b: u8) -> (r: bool)
    ensures
        r == is_upper(b),
{
    65 <= b && b <= 90
}

fn is_ascii_lower(b: u8) -> (r: bool)
    ensures
        r == is_lower(b),
{
    97 <= b && b <= 122
}

fn is_ascii_letter(b: u8) -> (r: bool)
    ensures
        r == is_letter(b),
{
    is_ascii_upper(b) || is_ascii_lower(b)
}

/// `c` is an ASCII letter.
pub open spec fn is_letter_char(c: char) -> bool {
    'A' <= c <= 'Z' || 'a' <= c <= 'z'
}

/// `c` is alphabetic: an ASCII letter, or a character with the Unicode
/// `Alphabetic` property.
pub open spec fn is_alphabetic_char(c: char) -> bool {
    is_letter_char(c) || alphabetic(c)
}

/// Critical: the first letter is upper case.
pub open spec fn critical(code: Seq<u8>) -> bool {
    is_upper(code[0])
}

/// Public: the second letter is upper case.
pub open spec fn public(code: Seq<u8>) -> bool {
    is_upper(code[1])
}

/// Reserved bit valid: the third letter is upper case.
pub open spec fn reserved_bit_valid(code: Seq<u8>) -> bool {
    is_upper(code[2])
}

/// Safe to copy: the fourth letter is lower case.
pub open spec fn safe_to_copy(code: Seq<u8>) -> bool {
    is_lower(code[3])
}

/// Every character of `s` is alphabetic.
pub open spec fn all_alphabetic(s: Seq<char>) -> bool {
    forall|i: int| 0 <= i < s.len() ==> #[trigger] is_alphabetic_char(s[i])
}

/// `s` names a chunk type: it is alphabetic character by character, and its
/// UTF-8 encoding is four ASCII letters.
pub open spec fn accepts_text(s: Seq<char>) -> bool {
    all_alphabetic(s) && valid_code(encode_utf8(s))
}

/// The text that a code reads as: each byte taken as the character it encodes.
pub open spec fn text_of(code: Seq<u8>) -> Seq<char> {
    code.map_values(|b: u8| b as char)
}

/// Decides ASCII letters at once and asks `char::is_alphabetic` about any
/// other character.
fn char_alphabetic(c: char) -> (r: bool)
    ensures
        r == is_alphabetic_char(c),
{
    if ('A' <= c && c <= 'Z') || ('a' <= c && c <= 'z') {
        true
    } else {
        char_is_alphabetic(c)
    }
}

/// Tells whether every character of `s` is alphabetic.
fn all_chars_alphabetic(s: &str) -> (r: bool)
    ensures
        r == all_alphabetic(s@),
{
    for c in it: s.chars()
        invariant
            it.seq() == s@,
            forall|j: int| 0 <= j < it.index() ==> #[trigger] is_alphabetic_char(s@[j]),
    {
        if !char_alphabetic(c) {
            return false;
        }
    }
    true
}

/// A chunk type: four ASCII letters, kept exactly as given.
#[derive(Clone, Copy, Debug)]
pub struct ChunkType([u8; 4]);

/// Why a chunk type could not be built.
#[derive(Debug, PartialEq, Eq, Structural)]
pub enum ChunkError {
    InvalidChunk,
}

/// The text of a code is ASCII and encodes back to the code.
proof fn lemma_text_of_code(code: Seq<u8>)
    requires
        valid_code(code),
    ensures
        vstd::utf8::is_ascii_chars(text_of(code)),
        encode_utf8(text_of(code)) == code,
        valid_utf8(code),
{
    let t = text_of(code);
    assert forall|i: int| 0 <= i < t.len() implies '\0' <= #[trigger] t[i] <= '\u{7f}' by {
        assert(is_letter(code[i]));
    }
    assert(vstd::utf8::is_ascii_chars(t));
    vstd::utf8::is_ascii_chars_encode_utf8(t);
    assert(encode_utf8(t) =~= code);
    vstd::utf8::encode_utf8_valid_utf8(t);
}

/// Some chunk type has `code` as its bytes (as a ghost value, which need not
/// be well formed).
proof fn lemma_view_reached(code: [u8; 4])
    ensures
        exists|c: ChunkType| c@ == code@,
{
    let w = ChunkType(code);
    assert(w@ == code@);
}

impl View for ChunkType {
    type V = Seq<u8>;

    closed spec fn view(&self) -> Seq<u8> {
        self.0@
    }
}

impl ChunkType {
    #[verifier::type_invariant]
    spec fn inv(self) -> bool {
        valid_code(self.0@)
    }

    /// The four bytes of the code.
    pub fn bytes(self) -> (r: [u8; 4])
        ensures
            r@ == self@,
            valid_code(r@),
    {
        proof {
            use_type_invariant(&self);
        }
        self.0
    }

    /// Takes `value` as a chunk type when it holds four ASCII letters.
    pub fn from_bytes(value: [u8; 4]) -> (r: Result<Self, ChunkError>)
        ensures
            r is Ok <==> valid_code(value@),
            r matches Ok(c) ==> c@ == value@,
            r is Err ==> r == Err::<Self, ChunkError>(ChunkError::InvalidChunk),
    {
        if is_ascii_letter(value[0]) && is_ascii_letter(value[1]) && is_ascii_letter(value[2])
            && is_ascii_letter(value[3]) {
            Ok(ChunkType(value))
        } else {
            Err(ChunkError::InvalidChunk)
        }
    }

    /// Takes `array` as a chunk type when it holds exactly four ASCII letters.
    pub fn from_slice(array: &[u8]) -> (r: Option<Self>)
        ensures
            r is Some <==> valid_code(array@),
            r matches Some(c) ==> c@ == array@,
    {
        if array.len() != 4 {
            return None;
        }
        let code: [u8; 4] = [array[0], array[1], array[2], array[3]];
        assert(code@ == array@);
        match Self::from_bytes(code) {
            Ok(c) => Some(c),
            Err(_) => None,
        }
    }

    /// Combines the two checks on a text: `alpha_only` tells whether every
    /// character is alphabetic, and `bytes` is its UTF-8 encoding, which must
    /// be four ASCII letters.
    pub fn from_parts(alpha_only: bool, bytes: &[u8]) -> (r: Result<Self, ChunkError>)
        ensures
            r is Ok <==> alpha_only && valid_code(bytes@),
            r matches Ok(c) ==> c@ == bytes@,
            r is Err ==> r == Err::<Self, ChunkError>(ChunkError::InvalidChunk),
    {
        match (alpha_only, Self::from_slice(bytes)) {
            (true, Some(c)) => Ok(c),
            _ => Err(ChunkError::InvalidChunk),
        }
    }

    /// Parses a chunk type from its text.
    pub fn from_string(value: &str) -> (r: Result<Self, ChunkError>)
        ensures
            r is Ok <==> accepts_text(value@),
            r matches Ok(c) ==> c@ == encode_utf8(value@),
            r is Err ==> r == Err::<Self, ChunkError>(ChunkError::InvalidChunk),
    {
        let alpha_only = all_chars_alphabetic(value);
        Self::from_parts(alpha_only, value.as_bytes())
    }

    /// The code as text: its four letters.
    pub fn to_string(&self) -> (r: String)
        ensures
            r@ == text_of(self@),
    {
        proof {
            use_type_invariant(self);
            lemma_text_of_code(self@);
        }
        let v: Vec<u8> = vec![self.0[0], self.0[1], self.0[2], self.0[3]];
        assert(v@ == self@);
        let r = string_from_utf8(v);
        proof {
            vstd::utf8::encode_utf8_decode_utf8(r@);
            vstd::utf8::encode_utf8_decode_utf8(text_of(self@));
        }
        r
    }

    /// Ancillary bit: the first letter is upper case.
    pub fn is_critical(self) -> (r: bool)
        ensures
            r == critical(self@),
    {
        is_ascii_upper(self.0[0])
    }

    /// Private bit: the second letter is upper case.
    pub fn is_public(self) -> (r: bool)
        ensures
            r == public(self@),
    {
        is_ascii_upper(self.0[1])
    }

    /// Reserved bit: the third letter is upper case.
    pub fn is_reserved_bit_valid(self) -> (r: bool)
        ensures
            r == reserved_bit_valid(self@),
    {
        is_ascii_upper(self.0[2])
    }

    /// Safe-to-copy bit: the fourth letter is lower case.
    pub fn is_safe_to_copy(self) -> (r: bool)
        ensures
            r == safe_to_copy(self@),
    {
        is_ascii_lower(self.0[3])
    }

    /// A chunk type is valid when its reserved bit is.
    pub fn is_valid(self) -> (r: bool)
        ensures
            r == reserved_bit_valid(self@),
    {
        self.is_reserved_bit_valid()
    }
}

impl PartialEq for ChunkType {
    fn eq(&self, other: &ChunkType) -> (r: bool) {
        let r = self.0[0] == other.0[0] && self.0[1] == other.0[1] && self.0[2] == other.0[2]
            && self.0[3] == other.0[3];
        proof {
            if r {
                assert(self@ =~= other@);
            }
        }
        r
    }
}

impl vstd::std_specs::cmp::PartialEqSpecImpl for ChunkType {
    open spec fn obeys_eq_spec() -> bool {
        true
    }

    open spec fn eq_spec(&self, other: &ChunkType) -> bool {
        self@ == other@
    }
}

impl Eq for ChunkType {}

impl std::str::FromStr for ChunkType {
    type Err = ChunkError;

    fn from_str(value: &str) -> Result<Self, Self::Err> {
        ChunkType::from_string(value)
    }
}

impl TryFrom<[u8; 4]> for ChunkType {
    type Error = ChunkError;

    fn try_from(value: [u8; 4]) -> (r: Result<Self, Self::Error>) {
        let r = ChunkType::from_bytes(value);
        proof {
            lemma_view_reached(value);
            if let Ok(c) = r {
                let d = choose|d: ChunkType| d@ == value@;
                assert(c.0@ == d.0@);
                assert(c.0 == d.0);
            }
        }
        r
    }
}

impl vstd::std_specs::convert::TryFromSpecImpl<[u8; 4]> for ChunkType {
    open spec fn obeys_try_from_spec() -> bool {
        true
    }

    open spec fn try_from_spec(value: [u8; 4]) -> Result<Self, ChunkError> {
        if valid_code(value@) {
            Ok(choose|c: ChunkType| c@ == value@)
        } else {
            Err(ChunkError::InvalidChunk)
        }
    }
}

/// What `ChunkType::try_from` returns on `value`.
pub open spec fn from_bytes_result(value: [u8; 4]) -> Result<ChunkType, ChunkError> {
    <ChunkType as vstd::std_specs::convert::TryFromSpec<[u8; 4]>>::try_from_spec(value)
}

/// Four ASCII letters always make a chunk type, and its bytes are those
/// letters unchanged.
pub proof fn lemma_letters_accepted(value: [u8; 4])
    requires
        valid_code(value@),
    ensures
        from_bytes_result(value) matches Ok(c) && c@ == value@,
{
    lemma_view_reached(value);
}

/// Four bytes of which one is not an ASCII letter never make a chunk type.
pub proof fn lemma_non_letter_rejected(value: [u8; 4], i: int)
    requires
        0 <= i < 4,
        !is_letter(value@[i]),
    ensures
        from_bytes_result(value) == Err::<ChunkType, ChunkError>(ChunkError::InvalidChunk),
{
}

/// Two chunk types with the same bytes are the same value.
pub proof fn lemma_view_injective(a: ChunkType, b: ChunkType)
    requires
        a@ == b@,
    ensures
        a == b,
{
    assert(a.0 == b.0);
}

/// Parsing the text of a chunk type gives back that chunk type: the text is
/// accepted, and the bytes parsed from it are the chunk type's own bytes.
pub proof fn lemma_round_trip(x: ChunkType)
    requires
        valid_code(x@),
    ensures
        accepts_text(text_of(x@)),
        encode_utf8(text_of(x@)) == x@,
{
    lemma_text_of_code(x@);
    let t = text_of(x@);
    assert forall|i: int| 0 <= i < t.len() implies #[trigger] is_alphabetic_char(t[i]) by {
        assert(is_letter(x@[i]));
    }
}

} // verus!
