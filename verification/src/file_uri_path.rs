//! Decoding of raw `file:` URI paths into canonical local path text, and the
//! inverse encoding used for canonical registry URIs.
//!
//! URI percent escapes represent native path bytes, whereas local logical
//! path components use canonical escaped-byte text: every byte that is not
//! part of a printable UTF-8 scalar, and every `%`, is written as an
//! uppercase `%XX` escape. Decoding each URI component independently keeps an
//! encoded separator from changing the path structure.

use vstd::prelude::*;
use vstd::utf8::*;

verus! {

/// The byte value of `%`.
pub const PERCENT: u8 = 0x25;

/// The byte value of `/`.
pub const SLASH: u8 = 0x2f;

/// Numeric value of one ASCII hexadecimal digit, in either case.
pub open spec fn spec_hex_value(byte: u8) -> Option<u8> {
    if 0x30 <= byte <= 0x39 {
        Some((byte - 0x30) as u8)
    } else if 0x61 <= byte <= 0x66 {
        Some((byte - 0x61 + 10) as u8)
    } else if 0x41 <= byte <= 0x46 {
        Some((byte - 0x41 + 10) as u8)
    } else {
        None
    }
}

/// Uppercase ASCII hexadecimal digit for a value below sixteen.
pub open spec fn upper_hex_digit(value: u8) -> u8 {
    if value < 10 {
        (0x30 + value) as u8
    } else {
        (0x41 + value - 10) as u8
    }
}

/// The uppercase `%XX` escape of one byte.
pub open spec fn escape_byte(byte: u8) -> Seq<u8> {
    seq![PERCENT, upper_hex_digit(byte / 16), upper_hex_digit(byte % 16)]
}

/// The concatenated escapes of a byte sequence, in order.
pub open spec fn escape_bytes(bytes: Seq<u8>) -> Seq<u8>
    decreases bytes.len(),
{
    if bytes.len() == 0 {
        seq![]
    } else {
        escape_bytes(bytes.drop_last()) + escape_byte(bytes.last())
    }
}

/// Strict percent-decoding of one URI component: `+` is an ordinary byte,
/// and a `%` must be followed by two hexadecimal digits.
pub open spec fn percent_decode(s: Seq<u8>) -> Option<Seq<u8>>
    decreases s.len(),
{
    if s.len() == 0 {
        Some(seq![])
    } else if s[0] != PERCENT {
        match percent_decode(s.drop_first()) {
            Some(rest) => Some(seq![s[0]] + rest),
            None => None,
        }
    } else if s.len() >= 3 && spec_hex_value(s[1]) is Some && spec_hex_value(s[2]) is Some {
        match percent_decode(s.subrange(3, s.len() as int)) {
            Some(rest) => Some(
                seq![(spec_hex_value(s[1])->0 * 16 + spec_hex_value(s[2])->0) as u8] + rest,
            ),
            None => None,
        }
    } else {
        None
    }
}

/// Prepends known bytes to an optional decoding.
pub open spec fn prepend(prefix: Seq<u8>, rest: Option<Seq<u8>>) -> Option<Seq<u8>> {
    match rest {
        Some(r) => Some(prefix + r),
        None => None,
    }
}

/// Reasons a raw `file:` URI path is refused.
#[derive(Clone, Copy, Debug, PartialEq, Eq, Structural)]
pub enum UriPathError {
    /// A component holds a malformed percent escape or an encoded NUL byte.
    InvalidEncodedComponent,
    /// A component decodes to a byte that is a native path separator.
    EncodedSeparator,
    /// The decoded text is not accepted as a logical path.
    InvalidPath,
    /// A logical path cannot be spelled as a canonical `file:` URI.
    NotCanonicalizable,
}

/// The native bytes named by one URI component, or the reason it is refused.
pub open spec fn component_bytes(component: Seq<u8>) -> Result<Seq<u8>, UriPathError> {
    match percent_decode(component) {
        Some(decoded) => if decoded.contains(0u8) {
            Err(UriPathError::InvalidEncodedComponent)
        } else {
            Ok(decoded)
        },
        None => Err(UriPathError::InvalidEncodedComponent),
    }
}

/// Converts one ASCII hexadecimal digit to its numeric value.
pub fn hex_value(byte: u8) -> (r: Option<u8>)
    ensures
        r == spec_hex_value(byte),
{
    if 0x30 <= byte && byte <= 0x39 {
        Some(byte - 0x30)
    } else if 0x61 <= byte && byte <= 0x66 {
        Some(byte - 0x61 + 10)
    } else if 0x41 <= byte && byte <= 0x46 {
        Some(byte - 0x41 + 10)
    } else {
        None
    }
}

/// Returns the uppercase hexadecimal digit for a value below sixteen.
fn upper_hex(value: u8) -> (r: u8)
    requires
        value < 16,
    ensures
        r == upper_hex_digit(value),
{
    if value < 10 {
        0x30 + value
    } else {
        0x41 + value - 10
    }
}

/// Appends one uppercase percent escape.
pub fn push_uri_escaped_byte(canonical: &mut Vec<u8>, byte: u8)
    ensures
        final(canonical)@ == old(canonical)@ + escape_byte(byte),
{
    canonical.push(PERCENT);
    canonical.push(upper_hex(byte / 16));
    canonical.push(upper_hex(byte % 16));
    assert(final(canonical)@ =~= old(canonical)@ + escape_byte(byte));
}

/// Strictly percent-decodes the component `bytes[start..end]` without
/// treating `+` as a space.
///
/// Fails for a malformed escape or for an embedded NUL byte.
pub fn decode_uri_bytes(bytes: &[u8], start: usize, end: usize) -> (r: Result<Vec<u8>, UriPathError>)
    requires
        start <= end <= bytes@.len(),
    ensures
        r matches Ok(v) ==> component_bytes(bytes@.subrange(start as int, end as int)) == Ok::<Seq<u8>, UriPathError>(v@),
        r matches Err(e) ==> component_bytes(bytes@.subrange(start as int, end as int)) == Err::<Seq<u8>, UriPathError>(e),
{
    let ghost whole = bytes@.subrange(start as int, end as int);
    let mut decoded: Vec<u8> = Vec::new();
    let mut index: usize = start;
    while index < end
        invariant
            start <= index <= end <= bytes@.len(),
            whole == bytes@.subrange(start as int, end as int),
            percent_decode(whole) == prepend(decoded@, percent_decode(bytes@.subrange(index as int, end as int))),
        decreases end - index,
    {
        let ghost rest = bytes@.subrange(index as int, end as int);
        if bytes[index] != PERCENT {
            assert(rest.drop_first() =~= bytes@.subrange(index + 1, end as int));
            assert(decoded@.push(bytes[index as int]) =~= decoded@ + seq![bytes[index as int]]);
            decoded.push(bytes[index]);
            index = index + 1;
            continue;
        }
        if end - index < 3 {
            return Err(UriPathError::InvalidEncodedComponent);
        }
        let high = hex_value(bytes[index + 1]);
        let low = hex_value(bytes[index + 2]);
        match (high, low) {
            (Some(high), Some(low)) => {
                assert(rest.subrange(3, rest.len() as int) =~= bytes@.subrange(index + 3, end as int));
                let value: u8 = high * 16 + low;
                assert(decoded@.push(value) =~= decoded@ + seq![value]);
                decoded.push(value);
                index = index + 3;
            },
            _ => {
                assert(rest[1] == bytes@[index + 1] && rest[2] == bytes@[index + 2]);
                assert(percent_decode(rest) is None);
                return Err(UriPathError::InvalidEncodedComponent);
            },
        }
    }
    assert(bytes@.subrange(index as int, end as int) =~= Seq::<u8>::empty());
    assert(decoded@ + Seq::<u8>::empty() =~= decoded@);
    let mut k: usize = 0;
    while k < decoded.len()
        invariant
            0 <= k <= decoded@.len(),
            forall|m: int| 0 <= m < k ==> decoded@[m] != 0u8,
            whole == bytes@.subrange(start as int, end as int),
            percent_decode(whole) == Some(decoded@),
        decreases decoded@.len() - k,
    {
        if decoded[k] == 0 {
            assert(decoded@.contains(0u8));
            return Err(UriPathError::InvalidEncodedComponent);
        }
        k = k + 1;
    }
    Ok(decoded)
}


/// Whether a decoded scalar must be written as escaped bytes in canonical
/// text: the escape introducer `%` and the control characters (general
/// category `Cc`: U+0000 to U+001F and U+007F to U+009F).
pub open spec fn scalar_needs_escape(scalar: u32) -> bool {
    scalar == 0x25 || scalar < 0x20 || (0x7f <= scalar && scalar <= 0x9f)
}

/// Canonical escaped-byte text for decoded native bytes.
///
/// Each well-formed UTF-8 scalar is copied unless it is `%` or a control
/// character, in which case its bytes are escaped; each byte that does not
/// begin a well-formed scalar is escaped on its own.
pub open spec fn canonicalize(bytes: Seq<u8>) -> Seq<u8>
    decreases bytes.len(),
{
    if bytes.len() == 0 {
        seq![]
    } else if valid_first_scalar(bytes) {
        let n = length_of_first_scalar(bytes);
        let head = bytes.subrange(0, n);
        (if scalar_needs_escape(decode_first_scalar(bytes)) {
            escape_bytes(head)
        } else {
            head
        }) + canonicalize(bytes.subrange(n, bytes.len() as int))
    } else {
        escape_byte(bytes[0]) + canonicalize(bytes.drop_first())
    }
}

/// Recognizes the well-formed UTF-8 scalar starting at `bytes[start]`,
/// returning its encoded length and value.
fn first_scalar_at(bytes: &[u8], start: usize) -> (r: Option<(usize, u32)>)
    requires
        start < bytes@.len(),
    ensures
        r is Some <==> valid_first_scalar(bytes@.subrange(start as int, bytes@.len() as int)),
        r matches Some((n, scalar)) ==> {
            &&& n as int == length_of_first_scalar(bytes@.subrange(start as int, bytes@.len() as int))
            &&& scalar == decode_first_scalar(bytes@.subrange(start as int, bytes@.len() as int))
            &&& 1 <= n <= 4
            &&& start + n <= bytes@.len()
        },
{
    let ghost s = bytes@.subrange(start as int, bytes@.len() as int);
    let available: usize = bytes.len() - start;
    let b0 = bytes[start];
    assert(s[0] == b0);
    let (width, codepoint): (usize, u32) = if b0 <= 0x7f {
        (1, (b0 & 0x7f) as u32)
    } else if 0xc0 <= b0 && b0 <= 0xdf {
        if available < 2 {
            return None;
        }
        let b1 = bytes[start + 1];
        assert(s[1] == b1);
        if !(0x80 <= b1 && b1 <= 0xbf) {
            return None;
        }
        (2, (((b0 & 0x1f) as u32) << 6) | ((b1 & 0x3f) as u32))
    } else if 0xe0 <= b0 && b0 <= 0xef {
        if available < 3 {
            return None;
        }
        let b1 = bytes[start + 1];
        let b2 = bytes[start + 2];
        assert(s[1] == b1 && s[2] == b2);
        if !(0x80 <= b1 && b1 <= 0xbf && 0x80 <= b2 && b2 <= 0xbf) {
            return None;
        }
        (3, (((b0 & 0x0f) as u32) << 12) | (((b1 & 0x3f) as u32) << 6) | ((b2 & 0x3f) as u32))
    } else if 0xf0 <= b0 && b0 <= 0xf7 {
        if available < 4 {
            return None;
        }
        let b1 = bytes[start + 1];
        let b2 = bytes[start + 2];
        let b3 = bytes[start + 3];
        assert(s[1] == b1 && s[2] == b2 && s[3] == b3);
        if !(0x80 <= b1 && b1 <= 0xbf && 0x80 <= b2 && b2 <= 0xbf && 0x80 <= b3 && b3 <= 0xbf) {
            return None;
        }
        (
            4,
            (((b0 & 0x07) as u32) << 18) | (((b1 & 0x3f) as u32) << 12) | (((b2 & 0x3f) as u32)
                << 6) | ((b3 & 0x3f) as u32),
        )
    } else {
        return None;
    };
    assert(valid_leading_and_continuation_bytes_first_codepoint(s));
    assert(codepoint == decode_first_codepoint(s));
    assert(width as int == length_of_first_codepoint(s));
    let not_overlong = (width != 2 || 0x80 <= codepoint) && (width != 3 || 0x800 <= codepoint) && (
    width != 4 || (0x10000 <= codepoint && codepoint <= 0x10ffff));
    let not_surrogate = !(0xd800 <= codepoint && codepoint <= 0xdfff);
    if not_overlong && not_surrogate {
        Some((width, codepoint))
    } else {
        None
    }
}

/// Appends one decoded scalar `bytes[start..start + width]` in canonical
/// form: escaped when it is `%` or a control character, copied otherwise.
fn push_uri_scalars(canonical: &mut Vec<u8>, bytes: &[u8], start: usize, width: usize, scalar: u32)
    requires
        start + width <= bytes@.len(),
    ensures
        final(canonical)@ == old(canonical)@ + (if scalar_needs_escape(scalar) {
            escape_bytes(bytes@.subrange(start as int, start + width))
        } else {
            bytes@.subrange(start as int, start + width)
        }),
{
    let escape = scalar == 0x25 || scalar < 0x20 || (0x7f <= scalar && scalar <= 0x9f);
    let total: usize = bytes.len();
    let mut k: usize = 0;
    while k < width
        invariant
            start + width <= bytes@.len(),
            total == bytes@.len(),
            0 <= k <= width,
            escape == scalar_needs_escape(scalar),
            canonical@ == old(canonical)@ + (if escape {
                escape_bytes(bytes@.subrange(start as int, start + k))
            } else {
                bytes@.subrange(start as int, start + k)
            }),
        decreases width - k,
    {
        let ghost before = canonical@;
        let byte = bytes[start + k];
        let ghost taken = bytes@.subrange(start as int, start + k + 1);
        assert(taken.drop_last() =~= bytes@.subrange(start as int, start + k));
        assert(taken.last() == byte);
        if escape {
            push_uri_escaped_byte(canonical, byte);
            assert(canonical@ =~= old(canonical)@ + escape_bytes(taken));
        } else {
            canonical.push(byte);
            assert(canonical@ =~= old(canonical)@ + taken);
        }
        k = k + 1;
    }
}

/// Canonicalizes decoded URI bytes as escaped-byte text: printable UTF-8
/// scalars are copied, while `%`, control characters, and bytes that do not
/// form well-formed UTF-8 are written as uppercase escapes.
pub fn canonicalize_uri_bytes(bytes: &[u8]) -> (r: Vec<u8>)
    ensures
        r@ == canonicalize(bytes@),
        percent_decode(r@) == Some(bytes@),
        valid_utf8(r@),
        encodes_no_control(r@),
        escapes_are_upper(r@),
{
    let mut canonical: Vec<u8> = Vec::new();
    let mut index: usize = 0;
    assert(bytes@.subrange(0, bytes@.len() as int) =~= bytes@);
    while index < bytes.len()
        invariant
            0 <= index <= bytes@.len(),
            canonicalize(bytes@) == canonical@ + canonicalize(
                bytes@.subrange(index as int, bytes@.len() as int),
            ),
        decreases bytes@.len() - index,
    {
        let ghost rest = bytes@.subrange(index as int, bytes@.len() as int);
        let ghost before = canonical@;
        match first_scalar_at(bytes, index) {
            Some((width, scalar)) => {
                assert(rest.subrange(0, width as int) =~= bytes@.subrange(index as int, index + width));
                assert(rest.subrange(width as int, rest.len() as int) =~= bytes@.subrange(
                    index + width,
                    bytes@.len() as int,
                ));
                push_uri_scalars(&mut canonical, bytes, index, width, scalar);
                index = index + width;
            },
            None => {
                assert(rest[0] == bytes@[index as int]);
                assert(rest.drop_first() =~= bytes@.subrange(index + 1, bytes@.len() as int));
                push_uri_escaped_byte(&mut canonical, bytes[index]);
                index = index + 1;
            },
        }
    }
    assert(bytes@.subrange(index as int, bytes@.len() as int) =~= Seq::<u8>::empty());
    assert(canonical@ + Seq::<u8>::empty() =~= canonical@);
    proof {
        lemma_canonicalize_preserves_bytes(bytes@);
        lemma_canonical_text_is_clean(bytes@);
    }
    canonical
}


/// Whether every byte is an ASCII byte.
pub open spec fn is_ascii_bytes(bytes: Seq<u8>) -> bool {
    forall|i: int| 0 <= i < bytes.len() ==> #[trigger] bytes[i] < 0x80
}

/// ASCII byte sequences are well-formed UTF-8.
pub proof fn lemma_ascii_valid_utf8(bytes: Seq<u8>)
    requires
        is_ascii_bytes(bytes),
    ensures
        valid_utf8(bytes),
    decreases bytes.len(),
{
    if bytes.len() > 0 {
        let b = bytes[0];
        assert(b < 0x80);
        assert((b & 0x7f) <= 0x7f) by (bit_vector);
        let rest = bytes.subrange(1, bytes.len() as int);
        assert(is_ascii_bytes(rest)) by {
            assert forall|i: int| 0 <= i < rest.len() implies #[trigger] rest[i] < 0x80 by {
                assert(rest[i] == bytes[i + 1]);
            }
        }
        lemma_ascii_valid_utf8(rest);
        assert(pop_first_scalar(bytes) =~= rest);
    }
}

/// Escapes consist of ASCII bytes.
pub proof fn lemma_escape_bytes_ascii(bytes: Seq<u8>)
    ensures
        is_ascii_bytes(escape_bytes(bytes)),
    decreases bytes.len(),
{
    if bytes.len() > 0 {
        lemma_escape_bytes_ascii(bytes.drop_last());
        let b = bytes.last();
        assert(b / 16 < 16 && b % 16 < 16);
        let e = escape_bytes(bytes);
        let front = escape_bytes(bytes.drop_last());
        assert forall|i: int| 0 <= i < e.len() implies #[trigger] e[i] < 0x80 by {
            if i < front.len() {
                assert(e[i] == front[i]);
            }
        }
    }
}

/// Escaping one byte yields exactly its escape.
pub proof fn lemma_escape_bytes_single(byte: u8)
    ensures
        escape_bytes(seq![byte]) == escape_byte(byte),
{
    let single = seq![byte];
    assert(single.drop_last() =~= Seq::<u8>::empty());
    assert(escape_bytes(Seq::<u8>::empty()) =~= Seq::<u8>::empty());
    assert(Seq::<u8>::empty() + escape_byte(byte) =~= escape_byte(byte));
}

/// Whether `byte` is an uppercase hexadecimal digit.
pub open spec fn is_upper_hex_digit(byte: u8) -> bool {
    (0x30 <= byte <= 0x39) || (0x41 <= byte <= 0x46)
}

/// Whether every `%` in `s` starts an uppercase `%XX` escape.
pub open spec fn escapes_are_upper(s: Seq<u8>) -> bool {
    forall|i: int|
        0 <= i < s.len() && #[trigger] s[i] == PERCENT ==> i + 2 < s.len() && is_upper_hex_digit(s[i + 1])
            && is_upper_hex_digit(s[i + 2])
}

/// Whether UTF-8 bytes encode no control character: no byte encodes U+0000
/// to U+001F or U+007F, and no `0xC2` lead byte is followed by the
/// continuation byte of U+0080 to U+009F.
pub open spec fn encodes_no_control(s: Seq<u8>) -> bool {
    &&& forall|i: int| 0 <= i < s.len() ==> #[trigger] s[i] >= 0x20 && s[i] != 0x7f
    &&& forall|i: int| 0 <= i < s.len() - 1 && #[trigger] s[i] == 0xc2 ==> !(0x80 <= s[i + 1] <= 0x9f)
}

/// Clean text that can be followed by more clean text: escapes complete,
/// no control encoding, and no dangling `0xC2` lead byte at the end.
spec fn clean_piece(s: Seq<u8>) -> bool {
    &&& escapes_are_upper(s)
    &&& encodes_no_control(s)
    &&& s.len() > 0 ==> s.last() != 0xc2
}

/// Clean pieces concatenate to a clean piece.
proof fn lemma_clean_concat(a: Seq<u8>, b: Seq<u8>)
    requires
        clean_piece(a),
        clean_piece(b),
    ensures
        clean_piece(a + b),
{
    let s = a + b;
    assert forall|i: int| 0 <= i < s.len() && #[trigger] s[i] == PERCENT implies i + 2 < s.len()
        && is_upper_hex_digit(s[i + 1]) && is_upper_hex_digit(s[i + 2]) by {
        if i < a.len() {
            assert(a[i] == PERCENT);
        } else {
            assert(b[i - a.len()] == PERCENT);
            assert(s[i + 1] == b[i + 1 - a.len()]);
            assert(s[i + 2] == b[i + 2 - a.len()]);
        }
    }
    assert forall|i: int| 0 <= i < s.len() implies #[trigger] s[i] >= 0x20 && s[i] != 0x7f by {
        if i < a.len() {
            assert(s[i] == a[i]);
        } else {
            assert(s[i] == b[i - a.len()]);
        }
    }
    assert forall|i: int| 0 <= i < s.len() - 1 && #[trigger] s[i] == 0xc2 implies !(0x80 <= s[i + 1]
        <= 0x9f) by {
        if i < a.len() - 1 {
            assert(s[i] == a[i]);
        } else if i == a.len() - 1 {
            assert(s[i] == a.last());
        } else {
            assert(s[i] == b[i - a.len()]);
            assert(s[i + 1] == b[i + 1 - a.len()]);
        }
    }
    if s.len() > 0 {
        if b.len() > 0 {
            assert(s.last() == b.last());
        } else {
            assert(s.last() == a.last());
        }
    }
}

/// An uppercase escape is clean.
proof fn lemma_escape_byte_clean(byte: u8)
    ensures
        clean_piece(escape_byte(byte)),
{
    let e = escape_byte(byte);
    assert(byte / 16 < 16 && byte % 16 < 16);
    assert(is_upper_hex_digit(e[1]) && is_upper_hex_digit(e[2]));
    assert(e[1] != PERCENT && e[2] != PERCENT);
}

/// A run of uppercase escapes is clean.
proof fn lemma_escape_bytes_clean(bytes: Seq<u8>)
    ensures
        clean_piece(escape_bytes(bytes)),
    decreases bytes.len(),
{
    if bytes.len() > 0 {
        lemma_escape_bytes_clean(bytes.drop_last());
        lemma_escape_byte_clean(bytes.last());
        lemma_clean_concat(escape_bytes(bytes.drop_last()), escape_byte(bytes.last()));
    }
}

/// The bytes of a first scalar that is neither `%` nor a control character
/// are clean.
proof fn lemma_plain_scalar_clean(bytes: Seq<u8>)
    requires
        valid_first_scalar(bytes),
        !scalar_needs_escape(decode_first_scalar(bytes)),
    ensures
        clean_piece(bytes.subrange(0, length_of_first_scalar(bytes))),
{
    let n = length_of_first_scalar(bytes);
    let head = bytes.subrange(0, n);
    let b0 = bytes[0];
    if n == 1 {
        assert(b0 <= 0x7f ==> (b0 & 0x7f) == b0) by (bit_vector);
        assert(head[0] == b0);
    } else if n == 2 {
        let b1 = bytes[1];
        assert(b0 == 0xc2 && 0x80 <= b1 <= 0x9f ==> 0x80 <= ((((b0 & 0x1f) as u32) << 6u32) | ((b1
            & 0x3f) as u32)) <= 0x9f) by (bit_vector);
        assert(head[0] == b0 && head[1] == b1);
    } else if n == 3 {
        assert(head[0] == b0 && head[1] == bytes[1] && head[2] == bytes[2]);
    } else {
        assert(head[0] == b0 && head[1] == bytes[1] && head[2] == bytes[2] && head[3] == bytes[3]);
    }
}

/// Canonical text is clean.
proof fn lemma_canonicalize_clean(bytes: Seq<u8>)
    ensures
        clean_piece(canonicalize(bytes)),
    decreases bytes.len(),
{
    if bytes.len() > 0 {
        if valid_first_scalar(bytes) {
            let n = length_of_first_scalar(bytes);
            let head = bytes.subrange(0, n);
            lemma_canonicalize_clean(bytes.subrange(n, bytes.len() as int));
            if scalar_needs_escape(decode_first_scalar(bytes)) {
                lemma_escape_bytes_clean(head);
                lemma_clean_concat(escape_bytes(head), canonicalize(bytes.subrange(n, bytes.len() as int)));
            } else {
                lemma_plain_scalar_clean(bytes);
                lemma_clean_concat(head, canonicalize(bytes.subrange(n, bytes.len() as int)));
            }
        } else {
            lemma_escape_byte_clean(bytes[0]);
            lemma_canonicalize_clean(bytes.drop_first());
            lemma_clean_concat(escape_byte(bytes[0]), canonicalize(bytes.drop_first()));
        }
    }
}

/// Canonical text is well-formed UTF-8 that holds no control character, and
/// every `%` in it starts an uppercase `%XX` escape.
pub proof fn lemma_canonical_text_is_clean(bytes: Seq<u8>)
    ensures
        valid_utf8(canonicalize(bytes)),
        encodes_no_control(canonicalize(bytes)),
        escapes_are_upper(canonicalize(bytes)),
{
    lemma_canonicalize_valid_utf8(bytes);
    lemma_canonicalize_clean(bytes);
}

/// The bytes of the first well-formed scalar are themselves well-formed UTF-8.
pub proof fn lemma_first_scalar_valid_utf8(bytes: Seq<u8>)
    requires
        valid_first_scalar(bytes),
    ensures
        valid_utf8(bytes.subrange(0, length_of_first_scalar(bytes))),
{
    let n = length_of_first_scalar(bytes);
    let head = bytes.subrange(0, n);
    assert(head.len() == n);
    assert(forall|i: int| 0 <= i < n ==> head[i] == bytes[i]);
    assert(valid_first_scalar(head));
    assert(length_of_first_scalar(head) == n);
    assert(pop_first_scalar(head) =~= Seq::<u8>::empty());
    reveal_with_fuel(valid_utf8, 2);
}

/// Canonical text is well-formed UTF-8.
pub proof fn lemma_canonicalize_valid_utf8(bytes: Seq<u8>)
    ensures
        valid_utf8(canonicalize(bytes)),
    decreases bytes.len(),
{
    if bytes.len() > 0 {
        if valid_first_scalar(bytes) {
            let n = length_of_first_scalar(bytes);
            let head = bytes.subrange(0, n);
            lemma_canonicalize_valid_utf8(bytes.subrange(n, bytes.len() as int));
            if scalar_needs_escape(decode_first_scalar(bytes)) {
                lemma_escape_bytes_ascii(head);
                lemma_ascii_valid_utf8(escape_bytes(head));
            } else {
                lemma_first_scalar_valid_utf8(bytes);
            }
        } else {
            lemma_escape_bytes_ascii(seq![bytes[0]]);
            lemma_escape_bytes_single(bytes[0]);
            lemma_ascii_valid_utf8(escape_byte(bytes[0]));
            lemma_canonicalize_valid_utf8(bytes.drop_first());
        }
        broadcast use valid_utf8_concat;
    }
}

/// The canonical text of one raw URI component, or the reason it is refused.
pub open spec fn canonical_component(component: Seq<u8>) -> Result<Seq<u8>, UriPathError> {
    match component_bytes(component) {
        Ok(decoded) => {
            let canonical = canonicalize(decoded);
            if canonical.contains(SLASH) {
                Err(UriPathError::EncodedSeparator)
            } else {
                Ok(canonical)
            }
        },
        Err(e) => Err(e),
    }
}

/// Index of the first `/`, or the length when there is none.
pub open spec fn slash_index(s: Seq<u8>) -> nat
    decreases s.len(),
{
    if s.len() == 0 {
        0
    } else if s[0] == SLASH {
        0
    } else {
        1 + slash_index(s.drop_first())
    }
}

/// Canonical local path text for a raw URI path: the path is split at every
/// `/` (as `str::split` does), each component is decoded and canonicalized
/// independently, and the results are joined with `/`. The first refused
/// component decides the error.
pub open spec fn decode_text(raw: Seq<u8>) -> Result<Seq<u8>, UriPathError>
    decreases raw.len(),
{
    let k = slash_index(raw);
    if k > raw.len() {
        Err(UriPathError::InvalidEncodedComponent)
    } else {
        match canonical_component(raw.subrange(0, k as int)) {
            Err(e) => Err(e),
            Ok(c) => if k == raw.len() {
                Ok(c)
            } else {
                match decode_text(raw.subrange(k as int + 1, raw.len() as int)) {
                    Ok(t) => Ok(c + seq![SLASH] + t),
                    Err(e) => Err(e),
                }
            },
        }
    }
}

/// The position of the first `/` is found by scanning.
pub proof fn lemma_slash_index(s: Seq<u8>, k: int)
    requires
        0 <= k <= s.len(),
        forall|m: int| 0 <= m < k ==> s[m] != SLASH,
        k == s.len() || s[k] == SLASH,
    ensures
        slash_index(s) == k,
    decreases k,
{
    if k > 0 {
        lemma_slash_index(s.drop_first(), k - 1);
    }
}

/// Decodes one raw URI segment and encodes it as canonical escaped-byte text.
///
/// Fails for malformed escapes, NUL bytes, or bytes decoding to a native
/// path separator.
pub fn decode_component(bytes: &[u8], start: usize, end: usize) -> (r: Result<Vec<u8>, UriPathError>)
    requires
        start <= end <= bytes@.len(),
    ensures
        r matches Ok(v) ==> canonical_component(bytes@.subrange(start as int, end as int)) == Ok::<Seq<u8>, UriPathError>(v@),
        r matches Err(e) ==> canonical_component(bytes@.subrange(start as int, end as int)) == Err::<Seq<u8>, UriPathError>(e),
{
    let decoded = decode_uri_bytes(bytes, start, end)?;
    let canonical = canonicalize_uri_bytes(decoded.as_slice());
    let mut k: usize = 0;
    while k < canonical.len()
        invariant
            0 <= k <= canonical@.len(),
            component_bytes(bytes@.subrange(start as int, end as int)) == Ok::<Seq<u8>, UriPathError>(decoded@),
            canonical@ == canonicalize(decoded@),
            forall|m: int| 0 <= m < k ==> canonical@[m] != SLASH,
        decreases canonical@.len() - k,
    {
        if canonical[k] == SLASH {
            assert(canonical@.contains(SLASH));
            return Err(UriPathError::EncodedSeparator);
        }
        k = k + 1;
    }
    Ok(canonical)
}

/// Builds a string from bytes already known to be well-formed UTF-8.
///
/// Calls `String::from_utf8`, which by its documentation succeeds exactly for
/// well-formed UTF-8 and then holds the decoded characters.
#[verifier::external_body]
pub(crate) fn string_from_utf8(bytes: Vec<u8>) -> (r: String)
    requires
        valid_utf8(bytes@),
    ensures
        r@ == decode_utf8(bytes@),
{
    String::from_utf8(bytes).unwrap_or_default()
}

/// Appends all of `tail` to `out`.
fn extend_bytes(out: &mut Vec<u8>, tail: &Vec<u8>)
    ensures
        final(out)@ == old(out)@ + tail@,
{
    let mut k: usize = 0;
    while k < tail.len()
        invariant
            0 <= k <= tail@.len(),
            out@ == old(out)@ + tail@.subrange(0, k as int),
        decreases tail@.len() - k,
    {
        assert(tail@.subrange(0, k + 1) =~= tail@.subrange(0, k as int).push(tail@[k as int]));
        out.push(tail[k]);
        k = k + 1;
    }
    assert(tail@.subrange(0, tail@.len() as int) =~= tail@);
}

/// Decodes a raw URI path into canonical local path text.
///
/// Each slash-separated component is percent-decoded independently, so an
/// encoded separator cannot change the path structure; the decoded native
/// bytes are written in canonical escaped-byte text.
pub fn decode_canonical_text(raw: &str) -> (r: Result<String, UriPathError>)
    ensures
        r matches Ok(text) ==> decode_text(encode_utf8(raw@)) == Ok::<Seq<u8>, UriPathError>(encode_utf8(text@)),
        r matches Err(e) ==> decode_text(encode_utf8(raw@)) == Err::<Seq<u8>, UriPathError>(e),
        decode_text(encode_utf8(raw@)) is Ok ==> r is Ok,
{
    let bytes = raw.as_bytes();
    let total: usize = bytes.len();
    let mut out: Vec<u8> = Vec::new();
    let mut start: usize = 0;
    proof {
        assert(bytes@.subrange(0, bytes@.len() as int) =~= bytes@);
        lemma_ascii_valid_utf8(out@);
    }
    loop
        invariant
            total == bytes@.len(),
            bytes@ == encode_utf8(raw@),
            start <= total,
            valid_utf8(out@),
            decode_text(bytes@) == match decode_text(bytes@.subrange(start as int, total as int)) {
                Ok(t) => Ok(out@ + t),
                Err(e) => Err(e),
            },
        decreases total - start,
    {
        let ghost rest = bytes@.subrange(start as int, total as int);
        let mut end: usize = start;
        while end < total && bytes[end] != SLASH
            invariant
                start <= end <= total,
                total == bytes@.len(),
                forall|m: int| start <= m < end ==> bytes@[m] != SLASH,
            decreases total - end,
        {
            end = end + 1;
        }
        proof {
            lemma_slash_index(rest, end - start);
            assert(rest.subrange(0, end - start) =~= bytes@.subrange(start as int, end as int));
        }
        let component = decode_component(bytes, start, end)?;
        proof {
            lemma_canonicalize_valid_utf8(component_bytes(bytes@.subrange(start as int, end as int))->Ok_0);
            valid_utf8_concat(out@, component@);
        }
        let ghost before = out@;
        extend_bytes(&mut out, &component);
        if end == total {
            proof {
                broadcast use encode_utf8_decode_utf8, decode_utf8_encode_utf8;
            }
            return Ok(string_from_utf8(out));
        }
        proof {
            assert(rest.subrange(end - start + 1, rest.len() as int) =~= bytes@.subrange(
                end + 1,
                total as int,
            ));
            lemma_ascii_valid_utf8(seq![SLASH]);
            valid_utf8_concat(out@, seq![SLASH]);
        }
        out.push(SLASH);
        proof {
            assert(out@ =~= before + component@ + seq![SLASH]);
            assert forall|t: Seq<u8>| before + (component@ + seq![SLASH] + t) =~= out@ + t by {}
        }
        start = end + 1;
    }
}


/// Whether a byte may appear unescaped in a URI path segment: an ASCII
/// letter or digit, or one of `-._~!$&'()*+,;:@`.
pub open spec fn is_uri_pchar_byte(byte: u8) -> bool {
    ||| (0x30 <= byte <= 0x39)
    ||| (0x41 <= byte <= 0x5a)
    ||| (0x61 <= byte <= 0x7a)
    ||| byte == 0x2d
    ||| byte == 0x2e
    ||| byte == 0x5f
    ||| byte == 0x7e
    ||| byte == 0x21
    ||| byte == 0x24
    ||| byte == 0x26
    ||| byte == 0x27
    ||| byte == 0x28
    ||| byte == 0x29
    ||| byte == 0x2a
    ||| byte == 0x2b
    ||| byte == 0x2c
    ||| byte == 0x3b
    ||| byte == 0x3a
    ||| byte == 0x40
}

/// The URI path spelling of canonical local path text: existing `%XX`
/// escapes, `/`, and path-segment characters are kept, and every other byte
/// is written as an uppercase escape.
pub open spec fn uri_encode(s: Seq<u8>) -> Seq<u8>
    decreases s.len(),
{
    if s.len() == 0 {
        seq![]
    } else if s[0] == PERCENT && s.len() >= 3 && spec_hex_value(s[1]) is Some && spec_hex_value(
        s[2],
    ) is Some {
        s.subrange(0, 3) + uri_encode(s.subrange(3, s.len() as int))
    } else if s[0] == SLASH || is_uri_pchar_byte(s[0]) {
        seq![s[0]] + uri_encode(s.drop_first())
    } else {
        escape_byte(s[0]) + uri_encode(s.drop_first())
    }
}

/// The bytes of the `file://` scheme and empty authority.
pub open spec fn file_uri_prefix() -> Seq<u8> {
    seq![0x66u8, 0x69u8, 0x6cu8, 0x65u8, 0x3au8, 0x2fu8, 0x2fu8]
}

/// Whether bytes are URI path text: each byte is `/`, a path-segment
/// character, or the `%` of an escape followed by two hexadecimal digits.
pub open spec fn is_uri_path_bytes(p: Seq<u8>) -> bool {
    forall|i: int|
        0 <= i < p.len() ==> #[trigger] p[i] == SLASH || is_uri_pchar_byte(p[i]) || (p[i] == PERCENT && i + 2
            < p.len() && spec_hex_value(p[i + 1]) is Some && spec_hex_value(p[i + 2]) is Some)
}

/// URI path texts concatenate to URI path text.
proof fn lemma_uri_path_concat(a: Seq<u8>, b: Seq<u8>)
    requires
        is_uri_path_bytes(a),
        is_uri_path_bytes(b),
    ensures
        is_uri_path_bytes(a + b),
{
    let s = a + b;
    assert forall|i: int| 0 <= i < s.len() implies #[trigger] s[i] == SLASH || is_uri_pchar_byte(s[i]) || (
    s[i] == PERCENT && i + 2 < s.len() && spec_hex_value(s[i + 1]) is Some && spec_hex_value(s[i + 2]) is Some) by {
        if i < a.len() {
            assert(s[i] == a[i]);
            if a[i] == PERCENT && i + 2 < a.len() {
                assert(s[i + 1] == a[i + 1] && s[i + 2] == a[i + 2]);
            }
        } else {
            let j = i - a.len();
            assert(s[i] == b[j]);
            if b[j] == PERCENT && j + 2 < b.len() {
                assert(s[i + 1] == b[j + 1] && s[i + 2] == b[j + 2]);
            }
        }
    }
}

/// The URI spelling of bytes is URI path text, and keeps a leading `/`.
pub proof fn lemma_uri_encode_is_uri_path(s: Seq<u8>)
    ensures
        is_uri_path_bytes(uri_encode(s)),
        s.len() > 0 && s[0] == SLASH ==> uri_encode(s).len() > 0 && uri_encode(s)[0] == SLASH,
    decreases s.len(),
{
    if s.len() > 0 {
        if s[0] == PERCENT && s.len() >= 3 && spec_hex_value(s[1]) is Some && spec_hex_value(s[2]) is Some {
            let head = s.subrange(0, 3);
            lemma_uri_encode_is_uri_path(s.subrange(3, s.len() as int));
            assert(head[0] == PERCENT && head[1] == s[1] && head[2] == s[2]);
            assert(is_uri_pchar_byte(s[1]) && is_uri_pchar_byte(s[2]));
            lemma_uri_path_concat(head, uri_encode(s.subrange(3, s.len() as int)));
        } else if s[0] == SLASH || is_uri_pchar_byte(s[0]) {
            lemma_uri_encode_is_uri_path(s.drop_first());
            lemma_uri_path_concat(seq![s[0]], uri_encode(s.drop_first()));
        } else {
            let e = escape_byte(s[0]);
            assert(s[0] / 16 < 16 && s[0] % 16 < 16);
            assert(spec_hex_value(e[1]) is Some && spec_hex_value(e[2]) is Some);
            lemma_uri_encode_is_uri_path(s.drop_first());
            lemma_uri_path_concat(e, uri_encode(s.drop_first()));
        }
    }
}

/// Returns whether a byte can appear unescaped in a URI path segment.
pub fn is_uri_pchar(byte: u8) -> (r: bool)
    ensures
        r == is_uri_pchar_byte(byte),
{
    (0x30 <= byte && byte <= 0x39) || (0x41 <= byte && byte <= 0x5a) || (0x61 <= byte && byte
        <= 0x7a) || byte == 0x2d || byte == 0x2e || byte == 0x5f || byte == 0x7e || byte == 0x21
        || byte == 0x24 || byte == 0x26 || byte == 0x27 || byte == 0x28 || byte == 0x29 || byte
        == 0x2a || byte == 0x2b || byte == 0x2c || byte == 0x3b || byte == 0x3a || byte == 0x40
}

/// URI spellings consist of ASCII bytes.
pub proof fn lemma_uri_encode_ascii(s: Seq<u8>)
    ensures
        is_ascii_bytes(uri_encode(s)),
    decreases s.len(),
{
    if s.len() > 0 {
        let e = uri_encode(s);
        if s[0] == PERCENT && s.len() >= 3 && spec_hex_value(s[1]) is Some && spec_hex_value(
            s[2],
        ) is Some {
            let rest = s.subrange(3, s.len() as int);
            lemma_uri_encode_ascii(rest);
            assert forall|i: int| 0 <= i < e.len() implies #[trigger] e[i] < 0x80 by {
                if i >= 3 {
                    assert(e[i] == uri_encode(rest)[i - 3]);
                }
            }
        } else {
            let rest = s.drop_first();
            lemma_uri_encode_ascii(rest);
            let head = if s[0] == SLASH || is_uri_pchar_byte(s[0]) {
                seq![s[0]]
            } else {
                escape_byte(s[0])
            };
            assert(s[0] / 16 < 16 && s[0] % 16 < 16);
            assert(e == head + uri_encode(rest));
            assert forall|i: int| 0 <= i < e.len() implies #[trigger] e[i] < 0x80 by {
                if i >= head.len() {
                    assert(e[i] == uri_encode(rest)[i - head.len()]);
                }
            }
        }
    }
}

/// Encodes canonical logical path text as the unique absolute `file:` URI
/// spelling used by registry resolutions.
pub fn canonical_uri_text(path_text: &str) -> (r: String)
    ensures
        encode_utf8(r@) == file_uri_prefix() + uri_encode(encode_utf8(path_text@)),
{
    let text = path_text.as_bytes();
    let total: usize = text.len();
    let mut encoded: Vec<u8> = Vec::new();
    encoded.push(0x66);
    encoded.push(0x69);
    encoded.push(0x6c);
    encoded.push(0x65);
    encoded.push(0x3a);
    encoded.push(0x2f);
    encoded.push(0x2f);
    let mut index: usize = 0;
    proof {
        assert(encoded@ =~= file_uri_prefix());
        assert(text@.subrange(0, total as int) =~= text@);
    }
    while index < total
        invariant
            total == text@.len(),
            text@ == encode_utf8(path_text@),
            index <= total,
            file_uri_prefix() + uri_encode(text@) == encoded@ + uri_encode(
                text@.subrange(index as int, total as int),
            ),
        decreases total - index,
    {
        let ghost rest = text@.subrange(index as int, total as int);
        let ghost before = encoded@;
        let byte = text[index];
        if byte == PERCENT && total - index >= 3 && hex_value(text[index + 1]).is_some()
            && hex_value(text[index + 2]).is_some() {
            proof {
                assert(rest.subrange(0, 3) =~= seq![byte, text@[index + 1], text@[index + 2]]);
                assert(rest.subrange(3, rest.len() as int) =~= text@.subrange(index + 3, total as int));
            }
            encoded.push(PERCENT);
            encoded.push(text[index + 1]);
            encoded.push(text[index + 2]);
            proof {
                assert(encoded@ =~= before + rest.subrange(0, 3));
                assert(before + (rest.subrange(0, 3) + uri_encode(text@.subrange(index + 3, total as int)))
                    =~= encoded@ + uri_encode(text@.subrange(index + 3, total as int)));
            }
            index = index + 3;
        } else {
            proof {
                assert(rest[0] == byte);
                assert(rest.len() >= 3 ==> rest[1] == text@[index + 1] && rest[2] == text@[index + 2]);
                assert(rest.drop_first() =~= text@.subrange(index + 1, total as int));
            }
            if byte == SLASH || is_uri_pchar(byte) {
                encoded.push(byte);
                proof {
                    assert(encoded@ =~= before + seq![byte]);
                    assert(before + (seq![byte] + uri_encode(text@.subrange(index + 1, total as int)))
                        =~= encoded@ + uri_encode(text@.subrange(index + 1, total as int)));
                }
            } else {
                push_uri_escaped_byte(&mut encoded, byte);
                proof {
                    assert(before + (escape_byte(byte) + uri_encode(
                        text@.subrange(index + 1, total as int),
                    )) =~= encoded@ + uri_encode(text@.subrange(index + 1, total as int)));
                }
            }
            index = index + 1;
        }
    }
    proof {
        assert(text@.subrange(index as int, total as int) =~= Seq::<u8>::empty());
        assert(encoded@ + Seq::<u8>::empty() =~= encoded@);
        lemma_uri_encode_ascii(text@);
        assert(is_ascii_bytes(encoded@)) by {
            assert forall|i: int| 0 <= i < encoded@.len() implies #[trigger] encoded@[i] < 0x80 by {
                if i >= 7 {
                    assert(encoded@[i] == uri_encode(text@)[i - 7]);
                }
            }
        }
        lemma_ascii_valid_utf8(encoded@);
        broadcast use decode_utf8_encode_utf8;
    }
    string_from_utf8(encoded)
}


/// An escape decodes back to its byte.
pub proof fn lemma_decode_escape(byte: u8, rest: Seq<u8>)
    ensures
        percent_decode(escape_byte(byte) + rest) == prepend(seq![byte], percent_decode(rest)),
{
    let s = escape_byte(byte) + rest;
    let high = byte / 16;
    let low = byte % 16;
    assert(high < 16 && low < 16);
    assert(s[0] == PERCENT && s[1] == upper_hex_digit(high) && s[2] == upper_hex_digit(low));
    assert(spec_hex_value(upper_hex_digit(high)) == Some(high));
    assert(spec_hex_value(upper_hex_digit(low)) == Some(low));
    assert(s.subrange(3, s.len() as int) =~= rest);
    assert((high * 16 + low) as u8 == byte);
}

/// Lowercase ASCII hexadecimal digit for a value below sixteen.
pub open spec fn lower_hex_digit(value: u8) -> u8 {
    if value < 10 {
        (0x30 + value) as u8
    } else {
        (0x61 + value - 10) as u8
    }
}

/// Hexadecimal digit for a value below sixteen, in lower or upper case.
pub open spec fn hex_digit(value: u8, lower: bool) -> u8 {
    if lower {
        lower_hex_digit(value)
    } else {
        upper_hex_digit(value)
    }
}

/// Percent-decoding reads both hexadecimal digits of an escape in either
/// case: `%` followed by the two digits of a byte, each in lower or upper
/// case, decodes to that byte, followed by the decoding of what comes after.
pub proof fn lemma_escape_digits_are_case_insensitive(byte: u8, high_lower: bool, low_lower: bool, rest: Seq<u8>)
    ensures
        percent_decode(seq![PERCENT, hex_digit(byte / 16, high_lower), hex_digit(byte % 16, low_lower)] + rest)
            == prepend(seq![byte], percent_decode(rest)),
{
    let s = seq![PERCENT, hex_digit(byte / 16, high_lower), hex_digit(byte % 16, low_lower)] + rest;
    let high = byte / 16;
    let low = byte % 16;
    assert(high < 16 && low < 16);
    assert(s[0] == PERCENT && s[1] == hex_digit(high, high_lower) && s[2] == hex_digit(low, low_lower));
    assert(spec_hex_value(hex_digit(high, high_lower)) == Some(high));
    assert(spec_hex_value(hex_digit(low, low_lower)) == Some(low));
    assert(s.subrange(3, s.len() as int) =~= rest);
    assert((high * 16 + low) as u8 == byte);
}

/// A byte other than `%` stands for itself (a `+` is not a space), and a
/// `%` that is not followed by two hexadecimal digits makes the text
/// undecodable.
pub proof fn lemma_plain_bytes_and_malformed_escapes(byte: u8, next: u8, rest: Seq<u8>)
    ensures
        byte != PERCENT ==> percent_decode(seq![byte] + rest) == prepend(seq![byte], percent_decode(rest)),
        !((0x30 <= next <= 0x39) || (0x41 <= next <= 0x46) || (0x61 <= next <= 0x66)) ==> percent_decode(
            seq![PERCENT, next] + rest,
        ) is None,
        percent_decode(seq![PERCENT]) is None,
{
    assert((seq![byte] + rest).drop_first() =~= rest);
    let t = seq![PERCENT, next] + rest;
    assert(t[1] == next);
}

/// Concatenated escapes decode back to their bytes.
pub proof fn lemma_decode_escapes(bytes: Seq<u8>, rest: Seq<u8>)
    ensures
        percent_decode(escape_bytes(bytes) + rest) == prepend(bytes, percent_decode(rest)),
    decreases bytes.len(),
{
    if bytes.len() == 0 {
        assert(escape_bytes(bytes) + rest =~= rest);
        assert(percent_decode(rest) matches Some(r) ==> bytes + r =~= r);
    } else {
        let front = bytes.drop_last();
        let last = bytes.last();
        lemma_decode_escape(last, rest);
        lemma_decode_escapes(front, escape_byte(last) + rest);
        assert(escape_bytes(bytes) + rest =~= escape_bytes(front) + (escape_byte(last) + rest));
        assert(percent_decode(rest) matches Some(r) ==> front + (seq![last] + r) =~= bytes + r);
    }
}

/// Bytes other than `%` decode to themselves.
pub proof fn lemma_decode_plain(bytes: Seq<u8>, rest: Seq<u8>)
    requires
        !bytes.contains(PERCENT),
    ensures
        percent_decode(bytes + rest) == prepend(bytes, percent_decode(rest)),
    decreases bytes.len(),
{
    if bytes.len() == 0 {
        assert(bytes + rest =~= rest);
        assert(percent_decode(rest) matches Some(r) ==> bytes + r =~= r);
    } else {
        let tail = bytes.drop_first();
        assert(bytes[0] != PERCENT) by {
            if bytes[0] == PERCENT {
                assert(bytes.contains(PERCENT));
            }
        }
        assert(!tail.contains(PERCENT)) by {
            if tail.contains(PERCENT) {
                let i = choose|i: int| 0 <= i < tail.len() && tail[i] == PERCENT;
                assert(bytes[i + 1] == PERCENT);
            }
        }
        lemma_decode_plain(tail, rest);
        assert((bytes + rest).drop_first() =~= tail + rest);
        assert((bytes + rest)[0] == bytes[0]);
        assert(percent_decode(rest) matches Some(r) ==> seq![bytes[0]] + (tail + r) =~= bytes + r);
    }
}

/// Canonical text decodes back to the native bytes it was made from: no
/// byte is lost or changed by canonicalization.
pub proof fn lemma_canonicalize_preserves_bytes(bytes: Seq<u8>)
    ensures
        percent_decode(canonicalize(bytes)) == Some(bytes),
    decreases bytes.len(),
{
    if bytes.len() == 0 {
    } else if valid_first_scalar(bytes) {
        let n = length_of_first_scalar(bytes);
        let head = bytes.subrange(0, n);
        let tail = bytes.subrange(n, bytes.len() as int);
        lemma_canonicalize_preserves_bytes(tail);
        if scalar_needs_escape(decode_first_scalar(bytes)) {
            lemma_decode_escapes(head, canonicalize(tail));
        } else {
            assert(!head.contains(PERCENT)) by {
                if head.contains(PERCENT) {
                    let i = choose|i: int| 0 <= i < head.len() && head[i] == PERCENT;
                    assert(head[i] == bytes[i]);
                    if n == 1 {
                        let b = bytes[0];
                        assert(b <= 0x7f ==> (b & 0x7f) == b) by (bit_vector);
                    }
                }
            }
            lemma_decode_plain(head, canonicalize(tail));
        }
        assert(head + tail =~= bytes);
    } else {
        let tail = bytes.drop_first();
        lemma_canonicalize_preserves_bytes(tail);
        lemma_decode_escape(bytes[0], canonicalize(tail));
        assert(seq![bytes[0]] + tail =~= bytes);
    }
}

/// Respelling canonical text as a URI keeps the bytes it decodes to.
pub proof fn lemma_uri_encode_preserves_decoding(s: Seq<u8>)
    requires
        percent_decode(s) is Some,
    ensures
        percent_decode(uri_encode(s)) == percent_decode(s),
    decreases s.len(),
{
    if s.len() > 0 {
        if s[0] == PERCENT && s.len() >= 3 && spec_hex_value(s[1]) is Some && spec_hex_value(
            s[2],
        ) is Some {
            let rest = s.subrange(3, s.len() as int);
            lemma_uri_encode_preserves_decoding(rest);
            let e = s.subrange(0, 3) + uri_encode(rest);
            assert(e[0] == s[0] && e[1] == s[1] && e[2] == s[2]);
            assert(e.subrange(3, e.len() as int) =~= uri_encode(rest));
        } else {
            let rest = s.drop_first();
            assert(s[0] != PERCENT);
            lemma_uri_encode_preserves_decoding(rest);
            if s[0] == SLASH || is_uri_pchar_byte(s[0]) {
                let e = seq![s[0]] + uri_encode(rest);
                assert(e.drop_first() =~= uri_encode(rest));
            } else {
                lemma_decode_escape(s[0], uri_encode(rest));
            }
        }
    }
}

/// Escapes never hold a `/`.
pub proof fn lemma_escape_byte_no_slash(byte: u8)
    ensures
        !escape_byte(byte).contains(SLASH),
{
    assert(byte / 16 < 16 && byte % 16 < 16);
    let e = escape_byte(byte);
    assert(forall|i: int| 0 <= i < 3 ==> e[i] != SLASH);
}

/// The URI spelling of text without `/` holds no `/`, and a `/` that follows
/// such text is kept as a separator.
pub proof fn lemma_uri_encode_split(c: Seq<u8>, rest: Seq<u8>)
    requires
        !c.contains(SLASH),
    ensures
        !uri_encode(c).contains(SLASH),
        uri_encode(c + seq![SLASH] + rest) == uri_encode(c) + seq![SLASH] + uri_encode(rest),
    decreases c.len(),
{
    let whole = c + seq![SLASH] + rest;
    if c.len() == 0 {
        assert(whole =~= seq![SLASH] + rest);
        assert(whole.drop_first() =~= rest);
        assert(uri_encode(c) =~= Seq::<u8>::empty());
        assert(seq![SLASH] + uri_encode(rest) =~= uri_encode(c) + seq![SLASH] + uri_encode(rest));
    } else {
        assert(whole[0] == c[0]);
        assert(c[0] != SLASH) by {
            if c[0] == SLASH {
                assert(c.contains(SLASH));
            }
        }
        assert(spec_hex_value(SLASH) is None);
        if c[0] == PERCENT && c.len() >= 3 && spec_hex_value(c[1]) is Some && spec_hex_value(c[2]) is Some {
            let tail = c.subrange(3, c.len() as int);
            assert(!tail.contains(SLASH)) by {
                if tail.contains(SLASH) {
                    let i = choose|i: int| 0 <= i < tail.len() && tail[i] == SLASH;
                    assert(c[i + 3] == SLASH);
                }
            }
            lemma_uri_encode_split(tail, rest);
            assert(whole[1] == c[1] && whole[2] == c[2]);
            assert(whole.subrange(0, 3) =~= c.subrange(0, 3));
            assert(whole.subrange(3, whole.len() as int) =~= tail + seq![SLASH] + rest);
            let head = c.subrange(0, 3);
            assert(!head.contains(SLASH)) by {
                if head.contains(SLASH) {
                    let i = choose|i: int| 0 <= i < head.len() && head[i] == SLASH;
                    assert(c[i] == SLASH);
                }
            }
            assert(!(head + uri_encode(tail)).contains(SLASH)) by {
                if (head + uri_encode(tail)).contains(SLASH) {
                    let i = choose|i: int| 0 <= i < head.len() + uri_encode(tail).len() && (head
                        + uri_encode(tail))[i] == SLASH;
                    if i < 3 {
                        assert(head[i] == SLASH);
                    } else {
                        assert(uri_encode(tail)[i - 3] == SLASH);
                    }
                }
            }
            assert(head + (uri_encode(tail) + seq![SLASH] + uri_encode(rest)) =~= head
                + uri_encode(tail) + seq![SLASH] + uri_encode(rest));
        } else {
            let tail = c.drop_first();
            assert(!tail.contains(SLASH)) by {
                if tail.contains(SLASH) {
                    let i = choose|i: int| 0 <= i < tail.len() && tail[i] == SLASH;
                    assert(c[i + 1] == SLASH);
                }
            }
            lemma_uri_encode_split(tail, rest);
            assert(whole.len() >= 3 ==> whole[1] == (if c.len() > 1 { c[1] } else { SLASH }));
            assert(whole.len() >= 3 ==> whole[2] == (if c.len() > 2 { c[2] } else if c.len() == 2 {
                SLASH
            } else {
                rest[0]
            }));
            assert(whole.drop_first() =~= tail + seq![SLASH] + rest);
            let head = if c[0] == SLASH || is_uri_pchar_byte(c[0]) {
                seq![c[0]]
            } else {
                escape_byte(c[0])
            };
            lemma_escape_byte_no_slash(c[0]);
            assert(!head.contains(SLASH));
            assert(uri_encode(c) == head + uri_encode(tail));
            assert(!(head + uri_encode(tail)).contains(SLASH)) by {
                if (head + uri_encode(tail)).contains(SLASH) {
                    let i = choose|i: int| 0 <= i < head.len() + uri_encode(tail).len() && (head
                        + uri_encode(tail))[i] == SLASH;
                    if i < head.len() {
                        assert(head[i] == SLASH);
                    } else {
                        assert(uri_encode(tail)[i - head.len()] == SLASH);
                    }
                }
            }
            assert(head + (uri_encode(tail) + seq![SLASH] + uri_encode(rest)) =~= head
                + uri_encode(tail) + seq![SLASH] + uri_encode(rest));
        }
    }
}


/// In text without `/`, the first `/` of a following separator is found at
/// the end of that text.
pub proof fn lemma_slash_index_after(c: Seq<u8>, rest: Seq<u8>)
    requires
        !c.contains(SLASH),
    ensures
        slash_index(c) == c.len(),
        slash_index(c + seq![SLASH] + rest) == c.len(),
{
    assert forall|m: int| 0 <= m < c.len() implies c[m] != SLASH by {
        if c[m] == SLASH {
            assert(c.contains(SLASH));
        }
    }
    lemma_slash_index(c, c.len() as int);
    let whole = c + seq![SLASH] + rest;
    assert(forall|m: int| 0 <= m < c.len() ==> whole[m] == c[m]);
    assert(whole[c.len() as int] == SLASH);
    lemma_slash_index(whole, c.len() as int);
}

/// One decoded component, spelled as a URI component, decodes to itself.
pub proof fn lemma_component_round_trip(component: Seq<u8>)
    requires
        canonical_component(component) is Ok,
    ensures
        canonical_component(uri_encode(canonical_component(component)->Ok_0))
            == canonical_component(component),
{
    let decoded = component_bytes(component)->Ok_0;
    let c = canonicalize(decoded);
    lemma_canonicalize_preserves_bytes(decoded);
    lemma_uri_encode_preserves_decoding(c);
}

/// Decoding the canonical URI spelling of decoded path text gives back the
/// same text: on every path the decoder accepts, `decode ∘ encode` is the
/// identity, so the canonical URI of a decoded path names that path.
pub proof fn lemma_decode_canonical_uri_round_trip(raw: Seq<u8>)
    requires
        decode_text(raw) is Ok,
    ensures
        decode_text(uri_encode(decode_text(raw)->Ok_0)) == decode_text(raw),
    decreases raw.len(),
{
    let k = slash_index(raw);
    let component = raw.subrange(0, k as int);
    let c = canonical_component(component)->Ok_0;
    assert(!c.contains(SLASH));
    lemma_component_round_trip(component);
    if k == raw.len() {
        lemma_uri_encode_split(c, Seq::<u8>::empty());
        lemma_slash_index_after(uri_encode(c), Seq::<u8>::empty());
        assert(uri_encode(c).subrange(0, uri_encode(c).len() as int) =~= uri_encode(c));
    } else {
        let tail = raw.subrange(k as int + 1, raw.len() as int);
        lemma_decode_canonical_uri_round_trip(tail);
        let t = decode_text(tail)->Ok_0;
        lemma_uri_encode_split(c, t);
        let e = uri_encode(c) + seq![SLASH] + uri_encode(t);
        lemma_slash_index_after(uri_encode(c), uri_encode(t));
        assert(e.subrange(0, uri_encode(c).len() as int) =~= uri_encode(c));
        assert(e.subrange(uri_encode(c).len() as int + 1, e.len() as int) =~= uri_encode(t));
    }
}

/// The canonical URI spelling is stable: re-decoding and re-encoding a
/// canonical URI path reproduces it.
pub proof fn lemma_canonical_uri_is_stable(raw: Seq<u8>)
    requires
        decode_text(raw) is Ok,
    ensures
        decode_text(uri_encode(decode_text(raw)->Ok_0)) is Ok,
        uri_encode(decode_text(uri_encode(decode_text(raw)->Ok_0))->Ok_0) == uri_encode(
            decode_text(raw)->Ok_0,
        ),
{
    lemma_decode_canonical_uri_round_trip(raw);
}

} // verus!
