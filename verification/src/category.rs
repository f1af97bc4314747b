//! The grammar of category slugs.

use vstd::prelude::*;
use vstd::utf8::*;

verus! {

/// Why a proposed category is refused.
#[derive(Debug, Clone, Copy, PartialEq, Eq, Structural)]
pub enum CategoryError {
    /// More than [`MAX_CATEGORY_BYTES`] bytes are left after trimming.
    TooLong,
    /// Nothing is left after trimming.
    Empty,
    /// The first or the last character is `-`.
    BoundaryDash,
    /// Some character is outside `a-z`, `0-9` and `-`.
    BadChars,
}

/// The longest category, in bytes of UTF-8.
pub const MAX_CATEGORY_BYTES: usize = 255;

/// The byte of the character `-`.
pub const DASH: u8 = 0x2d;

/// Membership in Unicode's `White_Space` property: the characters that
/// `str::trim` removes.
pub open spec fn is_white_space(c: char) -> bool {
    let v = c as u32;
    ||| 0x09 <= v <= 0x0d
    ||| v == 0x20
    ||| v == 0x85
    ||| v == 0xa0
    ||| v == 0x1680
    ||| 0x2000 <= v <= 0x200a
    ||| v == 0x2028
    ||| v == 0x2029
    ||| v == 0x202f
    ||| v == 0x205f
    ||| v == 0x3000
}

/// `s` without its leading white space.
pub open spec fn trim_start(s: Seq<char>) -> Seq<char>
    decreases s.len(),
{
    if s.len() > 0 && is_white_space(s[0]) {
        trim_start(s.drop_first())
    } else {
        s
    }
}

/// `s` without its trailing white space.
pub open spec fn trim_end(s: Seq<char>) -> Seq<char>
    decreases s.len(),
{
    if s.len() > 0 && is_white_space(s.last()) {
        trim_end(s.drop_last())
    } else {
        s
    }
}

/// `s` without the white space around it.
pub open spec fn trimmed(s: Seq<char>) -> Seq<char> {
    trim_end(trim_start(s))
}

/// The characters a category is made of: `a-z`, `0-9` and `-`.
pub open spec fn is_slug_char(c: char) -> bool {
    ('a' <= c <= 'z') || ('0' <= c <= '9') || c == '-'
}

/// Every character of `s` is a slug character.
pub open spec fn all_slug_chars(s: Seq<char>) -> bool {
    forall|i: int| 0 <= i < s.len() ==> is_slug_char(#[trigger] s[i])
}

/// What the validator makes of a raw category: the trimmed text where it is a
/// well-formed slug, and otherwise the first rule that it breaks, in the order
/// length, emptiness, boundary dashes, character set.
pub open spec fn category_verdict(raw: Seq<char>) -> Result<Seq<char>, CategoryError> {
    let t = trimmed(raw);
    if encode_utf8(t).len() > MAX_CATEGORY_BYTES {
        Err(CategoryError::TooLong)
    } else if t.len() == 0 {
        Err(CategoryError::Empty)
    } else if t.first() == '-' || t.last() == '-' {
        Err(CategoryError::BoundaryDash)
    } else if !all_slug_chars(t) {
        Err(CategoryError::BadChars)
    } else {
        Ok(t)
    }
}

/// A category as the directory stores it: a slug of 1 to 255 characters that
/// neither starts nor ends with a dash.
pub open spec fn is_category(s: Seq<char>) -> bool {
    &&& 1 <= s.len() <= MAX_CATEGORY_BYTES
    &&& all_slug_chars(s)
    &&& s.first() != '-'
    &&& s.last() != '-'
}

/// The view of a validation result.
pub open spec fn verdict_view(r: Result<String, CategoryError>) -> Result<Seq<char>, CategoryError> {
    match r {
        Ok(s) => Ok(s@),
        Err(e) => Err(e),
    }
}

impl CategoryError {
    /// The text shown to the submitter.
    pub open spec fn message_text(self) -> Seq<char> {
        match self {
            CategoryError::TooLong => "category is too long, max 255 chars"@,
            CategoryError::Empty => "category is 0 characters"@,
            CategoryError::BoundaryDash => "category cannot start or end with -"@,
            CategoryError::BadChars => "category must only contain 0-9, a-z, and -"@,
        }
    }

    /// The text shown to the submitter.
    pub fn message(&self) -> (text: &'static str)
        ensures
            text@ == self.message_text(),
    {
        match self {
            CategoryError::TooLong => "category is too long, max 255 chars",
            CategoryError::Empty => "category is 0 characters",
            CategoryError::BoundaryDash => "category cannot start or end with -",
            CategoryError::BadChars => "category must only contain 0-9, a-z, and -",
        }
    }
}

/// Calls `str::trim`. Its contract is not proved: it says of `str::trim` what
/// the documentation of the standard library does, that the slice returned is
/// what is left of the argument once the leading and the trailing characters
/// with Unicode's `White_Space` property are removed.
#[verifier::external_body]
fn trim(s: &str) -> (t: &str)
    ensures
        t@ == trimmed(s@),
{
    s.trim()
}

/// Whether `b` is the byte of a slug character.
fn is_slug_byte(b: u8) -> (r: bool)
    ensures
        r == is_slug_char(b as char),
{
    (0x61 <= b && b <= 0x7a) || (0x30 <= b && b <= 0x39) || b == DASH
}

/// Whether every byte of `bytes` is the byte of a slug character.
fn all_slug_bytes(bytes: &[u8]) -> (r: bool)
    ensures
        r == (forall|i: int| 0 <= i < bytes@.len() ==> is_slug_char(#[trigger] bytes@[i] as char)),
{
    let mut i: usize = 0;
    while i < bytes.len()
        invariant
            i <= bytes@.len(),
            forall|j: int| 0 <= j < i ==> is_slug_char(#[trigger] bytes@[j] as char),
        decreases bytes@.len() - i,
    {
        if !is_slug_byte(bytes[i]) {
            return false;
        }
        i += 1;
    }
    true
}

/// Checks that a category is valid: returns the trimmed category if it is, and
/// the rule it breaks if it is not.
pub fn validate_category(category: String) -> (r: Result<String, CategoryError>)
    ensures
        verdict_view(r) == category_verdict(category@),
        r matches Ok(c) ==> is_category(c@),
{
    let t = trim(category.as_str());
    let bytes = t.as_bytes();
    proof {
        lemma_boundary_bytes(t@);
    }
    if bytes.len() > MAX_CATEGORY_BYTES {
        return Err(CategoryError::TooLong);
    }
    if bytes.len() == 0 {
        return Err(CategoryError::Empty);
    }
    if bytes[0] == DASH || bytes[bytes.len() - 1] == DASH {
        return Err(CategoryError::BoundaryDash);
    }
    if !t.is_ascii() {
        return Err(CategoryError::BadChars);
    }
    proof {
        is_ascii_chars_encode_utf8(t@);
    }
    if !all_slug_bytes(bytes) {
        return Err(CategoryError::BadChars);
    }
    Ok(t.to_owned())
}

/// The first and the last byte of one character's encoding: each is the byte
/// `-` for the character `-` and for no other.
proof fn lemma_dash_bytes(c: u32)
    requires
        is_scalar(c),
    ensures
        encode_scalar(c).len() >= 1,
        encode_scalar(c).first() == DASH <==> c == 0x2d,
        encode_scalar(c).last() == DASH <==> c == 0x2d,
{
    assert(c <= 0x7f ==> ((c & 0x7f) as u8 == 0x2du8 <==> c == 0x2d)) by (bit_vector);
    assert((0xc0u8 | ((c >> 6) & 0x1f) as u8) != 0x2du8) by (bit_vector);
    assert((0xe0u8 | ((c >> 12) & 0x0f) as u8) != 0x2du8) by (bit_vector);
    assert((0xf0u8 | ((c >> 18) & 0x7) as u8) != 0x2du8) by (bit_vector);
    assert((0x80u8 | (c & 0x3f) as u8) != 0x2du8) by (bit_vector);
}

/// The encoding of a text ends with the encoding of its last character.
proof fn lemma_encoding_ends(t: Seq<char>)
    requires
        t.len() > 0,
    ensures
        encode_utf8(t) == encode_utf8(t.drop_last()) + encode_scalar(t.last() as u32),
    decreases t.len(),
{
    if t.len() == 1 {
        assert(t.drop_first() =~= t.drop_last());
        assert(encode_utf8(t) =~= encode_utf8(t.drop_last()) + encode_scalar(t.last() as u32));
    } else {
        let rest = t.drop_first();
        lemma_encoding_ends(rest);
        assert(t.drop_last().drop_first() =~= rest.drop_last());
        assert(t.drop_last()[0] == t[0]);
        assert(encode_utf8(t) =~= encode_utf8(t.drop_last()) + encode_scalar(t.last() as u32));
    }
}

/// Bytes and characters agree at the boundaries of a text. A text is empty
/// exactly when its encoding is; its encoding starts with the byte `-`
/// exactly when it starts with the character `-`, and ends with that byte
/// exactly when it ends with that character.
pub proof fn lemma_boundary_bytes(t: Seq<char>)
    ensures
        encode_utf8(t).len() == 0 <==> t.len() == 0,
        t.len() > 0 ==> (encode_utf8(t).first() == DASH <==> t.first() == '-'),
        t.len() > 0 ==> (encode_utf8(t).last() == DASH <==> t.last() == '-'),
{
    if t.len() > 0 {
        let head = t.first() as u32;
        let tail = t.last() as u32;
        char_is_scalar(t.first());
        char_is_scalar(t.last());
        char_u32_cast(t.first(), head);
        char_u32_cast(t.last(), tail);
        lemma_dash_bytes(head);
        lemma_dash_bytes(tail);
        lemma_encoding_ends(t);
        let bytes = encode_utf8(t);
        assert(bytes == encode_scalar(head) + encode_utf8(t.drop_first()));
        assert(bytes.first() == encode_scalar(head).first());
        assert(bytes.last() == encode_scalar(tail).last());
    }
}

/// Whatever the validator accepts is a category, and is the raw text trimmed.
pub proof fn lemma_accepted_is_category(raw: Seq<char>)
    ensures
        category_verdict(raw) matches Ok(c) ==> is_category(c) && c == trimmed(raw),
{
    let t = trimmed(raw);
    if category_verdict(raw) is Ok {
        assert(is_ascii_chars(t)) by {
            assert forall|i: int| 0 <= i < t.len() implies '\0' <= #[trigger] t[i] <= '\u{7f}' by {
                assert(is_slug_char(t[i]));
            }
        }
        is_ascii_chars_encode_utf8(t);
    }
}

/// A category passes the validator unchanged: validating twice gives what
/// validating once gave.
pub proof fn lemma_category_is_accepted(c: Seq<char>)
    requires
        is_category(c),
    ensures
        category_verdict(c) == Ok::<Seq<char>, CategoryError>(c),
{
    assert(is_slug_char(c.first()));
    assert(is_slug_char(c.last()));
    assert(trim_start(c) == c);
    assert(trim_end(c) == c);
    assert(is_ascii_chars(c)) by {
        assert forall|i: int| 0 <= i < c.len() implies '\0' <= #[trigger] c[i] <= '\u{7f}' by {
            assert(is_slug_char(c[i]));
        }
    }
    is_ascii_chars_encode_utf8(c);
}

/// The validator is idempotent: what it returns, it accepts as it is.
pub proof fn lemma_validation_is_idempotent(raw: Seq<char>)
    ensures
        category_verdict(raw) matches Ok(c) ==> category_verdict(c) == category_verdict(raw),
{
    lemma_accepted_is_category(raw);
    if category_verdict(raw) is Ok {
        lemma_category_is_accepted(category_verdict(raw)->Ok_0);
    }
}

} // verus!
