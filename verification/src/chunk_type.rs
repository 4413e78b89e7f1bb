//! The chunk type code: a 4-byte binary tag with per-byte positional roles
//! (ancillary, private, reserved, safe-to-copy) and fixed bit-case rules.
//!
//! Type codes are restricted to uppercase and lowercase ASCII letters
//! (65-90 and 97-122 decimal). Encoders and decoders must treat the codes as
//! fixed binary values, not character strings, so construction from text goes
//! through the text's raw byte sequence and never through a character
//! re-encoding step.

use vstd::prelude::*;
use vstd::string::StringSliceAdditionalSpecFns;

verus! {

/// The one error of this module: a chunk type code could not be constructed
/// because an input byte is not an ASCII letter, or because a text input
/// holds fewer than four bytes.
#[derive(Clone, Copy, Debug, PartialEq, Eq, Structural)]
pub enum ChunkTypeError {
    InvalidTypeCode,
}

/// Whether `b` is an ASCII uppercase letter, `A`-`Z` (65-90 decimal).
pub open spec fn is_ascii_upper(b: u8) -> bool {
    65 <= b <= 90
}

/// Whether `b` is an ASCII lowercase letter, `a`-`z` (97-122 decimal).
pub open spec fn is_ascii_lower(b: u8) -> bool {
    97 <= b <= 122
}

/// Whether `b` is an ASCII letter of either case.
pub open spec fn is_ascii_letter(b: u8) -> bool {
    is_ascii_upper(b) || is_ascii_lower(b)
}

/// Whether every byte of `s` is an ASCII letter.
pub open spec fn all_letters(s: Seq<u8>) -> bool {
    forall|i: int| 0 <= i < s.len() ==> is_ascii_letter(#[trigger] s[i])
}

/// A 4-byte chunk type code. Every constructed instance holds four ASCII
/// letters; the case of each letter carries the positional bit (only the
/// reserved position's case is checked by [`ChunkType::is_valid`]).
#[derive(Clone, Copy, Debug, PartialEq, Eq, Structural)]
pub struct ChunkType {
    ancillary: u8,
    private: u8,
    reserved: u8,
    safe_to_copy: u8,
}

impl View for ChunkType {
    type V = Seq<u8>;

    /// A chunk type code is abstractly its four bytes in positional order.
    closed spec fn view(&self) -> Seq<u8> {
        seq![self.ancillary, self.private, self.reserved, self.safe_to_copy]
    }
}

/// The code whose four bytes are the first four elements of `s`.
pub closed spec fn code_of(s: Seq<u8>) -> ChunkType {
    ChunkType { ancillary: s[0], private: s[1], reserved: s[2], safe_to_copy: s[3] }
}

/// What construction from a byte sequence yields: the code made of the first
/// four bytes when there are at least four and all four are ASCII letters,
/// and `InvalidTypeCode` otherwise. Both constructors return exactly this.
pub open spec fn parse_code(s: Seq<u8>) -> Result<ChunkType, ChunkTypeError> {
    if s.len() >= 4 && all_letters(s.take(4)) {
        Ok(code_of(s))
    } else {
        Err(ChunkTypeError::InvalidTypeCode)
    }
}

impl ChunkType {
    /// Every constructed instance satisfies this: all four bytes are ASCII
    /// letters. It is weaker than [`ChunkType::spec_is_valid`], which in
    /// addition requires the reserved byte to be uppercase.
    pub open spec fn wf(self) -> bool {
        all_letters(self@)
    }

    /// What [`ChunkType::is_valid`] returns: positions 0, 1 and 3 hold ASCII
    /// letters of either case, and position 2 (the reserved byte) holds an
    /// ASCII uppercase letter.
    pub open spec fn spec_is_valid(self) -> bool {
        &&& is_ascii_letter(self@[0])
        &&& is_ascii_letter(self@[1])
        &&& is_ascii_upper(self@[2])
        &&& is_ascii_letter(self@[3])
    }

    /// Creates a chunk type code from an array of four raw bytes. Succeeds
    /// iff every byte is an ASCII letter; the bytes fill the four positional
    /// roles in order.
    pub fn from_bytes(bytes: [u8; 4]) -> (r: Result<ChunkType, ChunkTypeError>)
        ensures
            r == parse_code(bytes@),
            r is Ok <==> all_letters(bytes@),
            r matches Ok(t) ==> t@ == bytes@ && t.wf(),
            r is Err ==> r == Err::<ChunkType, ChunkTypeError>(ChunkTypeError::InvalidTypeCode),
    {
        let r = Self::from_byte_prefix(bytes.as_slice());
        proof {
            assert(bytes@.take(4) =~= bytes@);
            if r is Ok {
                assert(code_of(bytes@)@ =~= bytes@);
            }
        }
        r
    }

    /// Creates a chunk type code from a text value, read as its raw byte
    /// sequence: the same validation as [`ChunkType::from_bytes`], applied to
    /// the first four bytes; bytes beyond the fourth are ignored. A text of
    /// fewer than four bytes is rejected with `InvalidTypeCode`.
    pub fn from_text(text: &str) -> (r: Result<ChunkType, ChunkTypeError>)
        ensures
            r == parse_code(text.spec_bytes()),
            r is Ok <==> text.spec_bytes().len() >= 4 && all_letters(text.spec_bytes().take(4)),
            r matches Ok(t) ==> t@ == text.spec_bytes().take(4) && t.wf(),
            r is Err ==> r == Err::<ChunkType, ChunkTypeError>(ChunkTypeError::InvalidTypeCode),
    {
        Self::from_byte_prefix(text.as_bytes())
    }

    /// The shared construction path: validates the first four bytes of `b`
    /// and assembles the code from them.
    fn from_byte_prefix(b: &[u8]) -> (r: Result<ChunkType, ChunkTypeError>)
        ensures
            r == parse_code(b@),
            r matches Ok(t) ==> t@ == b@.take(4) && t.wf(),
    {
        if b.len() < 4 {
            return Err(ChunkTypeError::InvalidTypeCode);
        }
        let mut i: usize = 0;
        while i < 4
            invariant
                i <= 4,
                b@.len() >= 4,
                forall|j: int| 0 <= j < i ==> is_ascii_letter(#[trigger] b@[j]),
            decreases 4 - i,
        {
            if !byte_is_letter(b[i]) {
                proof {
                    assert(!is_ascii_letter(b@.take(4)[i as int]));
                }
                return Err(ChunkTypeError::InvalidTypeCode);
            }
            i += 1;
        }
        let t = ChunkType { ancillary: b[0], private: b[1], reserved: b[2], safe_to_copy: b[3] };
        proof {
            assert(forall|j: int| 0 <= j < 4 ==> b@.take(4)[j] == b@[j]);
            assert(all_letters(b@.take(4)));
            assert(t == code_of(b@));
            assert(t@ =~= b@.take(4));
        }
        Ok(t)
    }

    /// The four positional bytes, in original order (ancillary, private,
    /// reserved, safe-to-copy).
    pub fn bytes(&self) -> (r: [u8; 4])
        ensures
            r@ == self@,
    {
        let r = [self.ancillary, self.private, self.reserved, self.safe_to_copy];
        proof {
            assert(r@ =~= self@);
        }
        r
    }

    /// Checks whether the chunk type code is valid: the ancillary, private
    /// and safe-to-copy bytes are ASCII letters of either case, and the
    /// reserved byte is an ASCII uppercase letter. A constructed instance may
    /// report `false` here (a lowercase reserved byte) and still be a legal
    /// instance.
    pub fn is_valid(&self) -> (r: bool)
        ensures
            r == self.spec_is_valid(),
    {
        byte_is_letter(self.ancillary) && byte_is_letter(self.private) && byte_is_upper(
            self.reserved,
        ) && byte_is_letter(self.safe_to_copy)
    }
}

/// Whether `b` is an ASCII letter of either case, as executable code.
pub fn byte_is_letter(b: u8) -> (r: bool)
    ensures
        r == is_ascii_letter(b),
{
    (65 <= b && b <= 90) || (97 <= b && b <= 122)
}

/// Whether `b` is an ASCII uppercase letter, as executable code.
pub fn byte_is_upper(b: u8) -> (r: bool)
    ensures
        r == is_ascii_upper(b),
{
    65 <= b && b <= 90
}

/// Round-trip law: construction from any four ASCII-letter bytes succeeds,
/// and the constructed code reads back as exactly those bytes. Together with
/// the contract of [`ChunkType::bytes`], `from_bytes(b)` followed by
/// `bytes()` returns `b` unchanged.
pub proof fn lemma_round_trip(s: Seq<u8>)
    requires
        s.len() == 4,
        all_letters(s),
    ensures
        parse_code(s) is Ok,
        parse_code(s)->Ok_0@ == s,
{
    assert(s.take(4) =~= s);
    assert(code_of(s)@ =~= s);
}

/// Text/byte equivalence law: construction from a byte sequence depends only
/// on its first four bytes, so a text of at least four bytes and the
/// four-byte array holding its first four bytes construct equal instances
/// (and fail together otherwise).
pub proof fn lemma_text_byte_equivalence(s: Seq<u8>)
    requires
        s.len() >= 4,
    ensures
        parse_code(s) == parse_code(s.take(4)),
{
    assert(s.take(4).take(4) =~= s.take(4));
    if s.len() >= 4 && all_letters(s.take(4)) {
        assert(code_of(s) == code_of(s.take(4)));
    }
}

/// Rejection law: a byte sequence whose first four bytes include one that is
/// not an ASCII letter — so in particular any 4-byte array with such a byte —
/// is rejected by both constructors with `InvalidTypeCode`.
pub proof fn lemma_rejection(s: Seq<u8>, i: int)
    requires
        0 <= i < s.len(),
        i < 4,
        !is_ascii_letter(s[i]),
    ensures
        parse_code(s) == Err::<ChunkType, ChunkTypeError>(ChunkTypeError::InvalidTypeCode),
{
    if s.len() >= 4 {
        assert(s.take(4)[i] == s[i]);
        assert(!is_ascii_letter(s.take(4)[i]));
    }
}

/// Validity law: validity is case-sensitive on position 2 only. A code is
/// valid iff positions 0, 1 and 3 hold letters of either case and position 2
/// holds an uppercase letter; for a constructed instance (all four bytes are
/// letters) validity therefore comes down to the case of position 2 alone.
pub proof fn lemma_validity_case_rule(t: ChunkType)
    ensures
        t.spec_is_valid() <==> (is_ascii_letter(t@[0]) && is_ascii_letter(t@[1]) && is_ascii_upper(
            t@[2],
        ) && is_ascii_letter(t@[3])),
        t.wf() ==> (t.spec_is_valid() <==> is_ascii_upper(t@[2])),
{
    if t.wf() {
        assert(t@.len() == 4);
        assert(is_ascii_letter(t@[0]) && is_ascii_letter(t@[1]) && is_ascii_letter(t@[3]));
    }
}

} // verus!
