//! The canonical string codec: rendering an identifier as the hyphenated
//! `8-4-4-4-12` hex form and parsing that form (or its bare 32-digit form)
//! back into bytes. Contracts about parsing speak of the UTF-8 bytes of the
//! input; for the ASCII strings the canonical forms consist of, bytes and
//! characters coincide.

use vstd::prelude::*;
use vstd::string::StringSliceAdditionalSpecFns;

use crate::{Node, ParseError, UUID};

verus! {

broadcast use vstd::array::group_array_axioms;

/// ASCII whitespace, as `u8::is_ascii_whitespace` defines it.
pub open spec fn is_ascii_ws(b: u8) -> bool {
    b == 0x20 || b == 0x09 || b == 0x0a || b == 0x0c || b == 0x0d
}

/// The value of an ASCII hexadecimal digit, either case; 0xff where the
/// byte is no such digit.
pub open spec fn hex_val(b: u8) -> u8 {
    if 0x30 <= b <= 0x39 {
        (b - 0x30) as u8
    } else if 0x61 <= b <= 0x66 {
        (b - 0x57) as u8
    } else if 0x41 <= b <= 0x46 {
        (b - 0x37) as u8
    } else {
        0xff
    }
}

/// Whether `b` is an ASCII hexadecimal digit.
pub open spec fn is_hex_digit(b: u8) -> bool {
    hex_val(b) != 0xff
}

/// The ASCII digit of a nibble, lowercase or uppercase.
pub open spec fn hex_char(n: u8, upper: bool) -> u8
    recommends
        n < 16,
{
    if n < 10 {
        (0x30 + n) as u8
    } else if upper {
        (0x37 + n) as u8
    } else {
        (0x57 + n) as u8
    }
}

/// The ASCII byte at position `i` of the canonical rendering of the 16
/// bytes `b`: a hyphen at positions 8, 13, 18 and 23, hex digits at every
/// other position, two per byte, high nibble first.
pub open spec fn spec_canonical_at(b: Seq<u8>, upper: bool, i: int) -> u8
    recommends
        b.len() == 16,
        0 <= i < 36,
{
    if i == 8 || i == 13 || i == 18 || i == 23 {
        0x2d
    } else {
        let j = if i < 8 {
            i
        } else if i < 13 {
            i - 1
        } else if i < 18 {
            i - 2
        } else if i < 23 {
            i - 3
        } else {
            i - 4
        };
        if j % 2 == 0 {
            hex_char(b[j / 2] >> 4u8, upper)
        } else {
            hex_char(b[j / 2] & 0x0f, upper)
        }
    }
}

/// The canonical rendering of the 16 bytes `b`: 36 ASCII bytes in the
/// `8-4-4-4-12` hyphenated hex form.
pub open spec fn spec_canonical(b: Seq<u8>, upper: bool) -> Seq<u8> {
    Seq::new(36, |i: int| spec_canonical_at(b, upper, i))
}

/// The canonical rendering as characters, for contracts over string views.
pub open spec fn spec_canonical_chars(b: Seq<u8>, upper: bool) -> Seq<char> {
    spec_canonical(b, upper).map_values(|x: u8| x as char)
}

/// `s` with every ASCII whitespace byte removed.
pub open spec fn spec_strip_ws(s: Seq<u8>) -> Seq<u8>
    decreases s.len(),
{
    if s.len() == 0 {
        Seq::empty()
    } else {
        let rest = spec_strip_ws(s.drop_last());
        if is_ascii_ws(s.last()) {
            rest
        } else {
            rest.push(s.last())
        }
    }
}

/// Whether a 36-byte candidate has its hyphens exactly at positions 8, 13,
/// 18 and 23.
pub open spec fn hyphens_well_placed(t: Seq<u8>) -> bool
    recommends
        t.len() == 36,
{
    t[8] == 0x2d && t[13] == 0x2d && t[18] == 0x2d && t[23] == 0x2d
}

/// Where digit slot `j` of the hyphenated form sits in the 36-byte text.
pub open spec fn dehyphen_src(j: int) -> int
    recommends
        0 <= j < 32,
{
    if j < 8 {
        j
    } else if j < 12 {
        j + 1
    } else if j < 16 {
        j + 2
    } else if j < 20 {
        j + 3
    } else {
        j + 4
    }
}

/// The 32 digit slots of a 36-byte hyphenated candidate.
pub open spec fn spec_dehyphen(t: Seq<u8>) -> Seq<u8>
    recommends
        t.len() == 36,
{
    Seq::new(32, |j: int| t[dehyphen_src(j)])
}

/// Whether no byte of `h` is a hyphen.
pub open spec fn no_hyphen(h: Seq<u8>) -> bool {
    forall|i: int| 0 <= i < h.len() ==> h[i] != 0x2d
}

/// Whether every byte of `h` is a hexadecimal digit.
pub open spec fn all_hex(h: Seq<u8>) -> bool {
    forall|i: int| 0 <= i < h.len() ==> is_hex_digit(#[trigger] h[i])
}

/// The bytes encoded by an even-length run of hexadecimal digits, two
/// digits per byte, high nibble first.
pub open spec fn spec_hex_decode(h: Seq<u8>) -> Seq<u8> {
    Seq::new(h.len() / 2, |i: int| (hex_val(h[2 * i]) * 16 + hex_val(h[2 * i + 1])) as u8)
}

/// What decoding 32 digit slots yields: a stray hyphen is a structural
/// fault, any other non-digit a hex fault, and otherwise the 16 bytes.
pub open spec fn spec_decode32(h: Seq<u8>) -> Result<Seq<u8>, ParseError> {
    if !no_hyphen(h) {
        Err(ParseError::InvalidCharacter)
    } else if !all_hex(h) {
        Err(ParseError::InvalidHexDigit)
    } else {
        Ok(spec_hex_decode(h))
    }
}

/// What parsing the bytes `s` yields. Whitespace is stripped first; what
/// remains must be the 36-byte hyphenated form or the bare 32-digit form;
/// any other length is a length fault.
pub open spec fn spec_parse(s: Seq<u8>) -> Result<Seq<u8>, ParseError> {
    let t = spec_strip_ws(s);
    if t.len() == 36 {
        if !hyphens_well_placed(t) {
            Err(ParseError::InvalidCharacter)
        } else {
            spec_decode32(spec_dehyphen(t))
        }
    } else if t.len() == 32 {
        spec_decode32(t)
    } else {
        Err(ParseError::InvalidLength)
    }
}

/// Whether `b` is ASCII whitespace.
fn is_ws_byte(b: u8) -> (r: bool)
    ensures
        r == is_ascii_ws(b),
{
    b == 0x20 || b == 0x09 || b == 0x0a || b == 0x0c || b == 0x0d
}

/// The value of an ASCII hexadecimal digit; 0xff for any other byte.
fn hex_digit_val(b: u8) -> (r: u8)
    ensures
        r == hex_val(b),
{
    if 0x30 <= b && b <= 0x39 {
        b - 0x30
    } else if 0x61 <= b && b <= 0x66 {
        b - 0x57
    } else if 0x41 <= b && b <= 0x46 {
        b - 0x37
    } else {
        0xff
    }
}

/// The ASCII digit of a nibble.
fn hex_digit_char(n: u8, upper: bool) -> (r: u8)
    requires
        n < 16,
    ensures
        r == hex_char(n, upper),
{
    if n < 10 {
        0x30 + n
    } else if upper {
        0x37 + n
    } else {
        0x57 + n
    }
}

/// Relies on `String::from_utf8`: a vector of ASCII bytes becomes the
/// string of exactly those characters. The precondition keeps the bytes
/// valid UTF-8, so the conversion cannot fail.
#[verifier::external_body]
fn ascii_to_string(v: Vec<u8>) -> (r: String)
    requires
        forall|i: int| 0 <= i < v@.len() ==> v@[i] < 0x80,
    ensures
        r@ == v@.map_values(|x: u8| x as char),
{
    String::from_utf8(v).unwrap()
}

/// Decodes 32 digit slots into 16 bytes, or reports the first structural
/// or hex fault, hyphens taking precedence.
fn decode_hex32(h: &Vec<u8>) -> (r: Result<[u8; 16], ParseError>)
    requires
        h@.len() == 32,
    ensures
        (match r {
            Ok(out) => spec_decode32(h@) == Ok::<Seq<u8>, ParseError>(out@),
            Err(e) => spec_decode32(h@) == Err::<Seq<u8>, ParseError>(e),
        }),
{
    let mut k: usize = 0;
    while k < 32
        invariant
            k <= 32,
            h@.len() == 32,
            forall|m: int| 0 <= m < k ==> h@[m] != 0x2d,
        decreases 32 - k,
    {
        if h[k] == 0x2d {
            return Err(ParseError::InvalidCharacter);
        }
        k += 1;
    }
    let mut out: [u8; 16] = [0u8; 16];
    let mut i: usize = 0;
    while i < 16
        invariant
            i <= 16,
            h@.len() == 32,
            no_hyphen(h@),
            forall|m: int| 0 <= m < 2 * i ==> is_hex_digit(#[trigger] h@[m]),
            forall|m: int| 0 <= m < i ==> out@[m] == spec_hex_decode(h@)[m],
        decreases 16 - i,
    {
        let hi = hex_digit_val(h[2 * i]);
        if hi == 0xff {
            return Err(ParseError::InvalidHexDigit);
        }
        let lo = hex_digit_val(h[2 * i + 1]);
        if lo == 0xff {
            return Err(ParseError::InvalidHexDigit);
        }
        out[i] = hi * 16 + lo;
        i += 1;
    }
    proof {
        assert(spec_hex_decode(h@) =~= out@);
    }
    Ok(out)
}

impl UUID {
    /// Renders this identifier in the canonical `8-4-4-4-12` hyphenated
    /// hex form, 36 characters, lowercase unless `upper` asks otherwise.
    pub fn to_canonical_string(&self, upper: bool) -> (r: String)
        ensures
            r@ == spec_canonical_chars(self@, upper),
    {
        let mut out: Vec<u8> = Vec::new();
        let mut i: usize = 0;
        while i < 36
            invariant
                i <= 36,
                out@.len() == i,
                forall|k: int| 0 <= k < i ==> out@[k] == spec_canonical_at(self@, upper, k),
                forall|k: int| 0 <= k < i ==> out@[k] < 0x80,
            decreases 36 - i,
        {
            if i == 8 || i == 13 || i == 18 || i == 23 {
                out.push(0x2d);
            } else {
                let j = if i < 8 {
                    i
                } else if i < 13 {
                    i - 1
                } else if i < 18 {
                    i - 2
                } else if i < 23 {
                    i - 3
                } else {
                    i - 4
                };
                let byte = self.0[j / 2];
                let nib = if j % 2 == 0 {
                    byte >> 4u8
                } else {
                    byte & 0x0f
                };
                proof {
                    assert(byte >> 4u8 < 16 && (byte & 0x0f) < 16) by (bit_vector);
                }
                out.push(hex_digit_char(nib, upper));
            }
            i += 1;
        }
        proof {
            assert(out@ =~= spec_canonical(self@, upper));
            assert(out@.map_values(|x: u8| x as char) =~= spec_canonical_chars(self@, upper));
        }
        ascii_to_string(out)
    }

    /// Parses an identifier from text: the canonical 36-character
    /// hyphenated form or the bare 32-digit form, hex digits of either
    /// case, ASCII whitespace ignored. The result says exactly which
    /// structural check failed on any other input.
    pub fn parse(us: &str) -> (r: Result<UUID, ParseError>)
        ensures
            (match r {
                Ok(u) => spec_parse(us.spec_bytes()) == Ok::<Seq<u8>, ParseError>(u@),
                Err(e) => spec_parse(us.spec_bytes()) == Err::<Seq<u8>, ParseError>(e),
            }),
    {
        let bytes: &[u8] = us.as_bytes();
        let n = bytes.len();
        let mut t: Vec<u8> = Vec::new();
        let mut i: usize = 0;
        while i < n
            invariant
                i <= n,
                n == bytes@.len(),
                t@ == spec_strip_ws(bytes@.subrange(0, i as int)),
            decreases n - i,
        {
            let b = bytes[i];
            proof {
                assert(bytes@.subrange(0, i + 1).drop_last() =~= bytes@.subrange(0, i as int));
                assert(bytes@.subrange(0, i + 1).last() == bytes@[i as int]);
            }
            if !is_ws_byte(b) {
                t.push(b);
            }
            i += 1;
        }
        proof {
            assert(bytes@.subrange(0, n as int) =~= bytes@);
        }
        if t.len() == 36 {
            if !(t[8] == 0x2d && t[13] == 0x2d && t[18] == 0x2d && t[23] == 0x2d) {
                return Err(ParseError::InvalidCharacter);
            }
            let mut h: Vec<u8> = Vec::new();
            let mut j: usize = 0;
            while j < 32
                invariant
                    j <= 32,
                    t@.len() == 36,
                    h@.len() == j,
                    forall|k: int| 0 <= k < j ==> h@[k] == t@[dehyphen_src(k)],
                decreases 32 - j,
            {
                let src = if j < 8 {
                    j
                } else if j < 12 {
                    j + 1
                } else if j < 16 {
                    j + 2
                } else if j < 20 {
                    j + 3
                } else {
                    j + 4
                };
                h.push(t[src]);
                j += 1;
            }
            proof {
                assert(h@ =~= spec_dehyphen(t@));
            }
            match decode_hex32(&h) {
                Ok(out) => Ok(UUID(out)),
                Err(e) => Err(e),
            }
        } else if t.len() == 32 {
            match decode_hex32(&t) {
                Ok(out) => Ok(UUID(out)),
                Err(e) => Err(e),
            }
        } else {
            Err(ParseError::InvalidLength)
        }
    }
}

/// The ASCII byte at position `i` of the rendering of a six-byte node
/// address: two lowercase hex digits per byte, bytes separated by hyphens.
pub open spec fn spec_node_str_at(n: Seq<u8>, i: int) -> u8
    recommends
        n.len() == 6,
        0 <= i < 17,
{
    if i % 3 == 2 {
        0x2d
    } else if i % 3 == 0 {
        hex_char(n[i / 3] >> 4u8, false)
    } else {
        hex_char(n[i / 3] & 0x0f, false)
    }
}

/// The 17-byte ASCII rendering of a six-byte node address.
pub open spec fn spec_node_str(n: Seq<u8>) -> Seq<u8> {
    Seq::new(17, |i: int| spec_node_str_at(n, i))
}

impl Node {
    /// Renders the address as six lowercase hex pairs separated by
    /// hyphens.
    pub fn to_canonical_string(&self) -> (r: String)
        ensures
            r@ == spec_node_str(self.0@).map_values(|x: u8| x as char),
    {
        let mut out: Vec<u8> = Vec::new();
        let mut i: usize = 0;
        while i < 17
            invariant
                i <= 17,
                out@.len() == i,
                forall|k: int| 0 <= k < i ==> out@[k] == spec_node_str_at(self.0@, k),
                forall|k: int| 0 <= k < i ==> out@[k] < 0x80,
            decreases 17 - i,
        {
            if i % 3 == 2 {
                out.push(0x2d);
            } else {
                let byte = self.0[i / 3];
                let nib = if i % 3 == 0 {
                    byte >> 4u8
                } else {
                    byte & 0x0f
                };
                proof {
                    assert(byte >> 4u8 < 16 && (byte & 0x0f) < 16) by (bit_vector);
                }
                out.push(hex_digit_char(nib, false));
            }
            i += 1;
        }
        proof {
            assert(out@ =~= spec_node_str(self.0@));
            assert(out@.map_values(|x: u8| x as char) =~= spec_node_str(self.0@).map_values(
                |x: u8| x as char,
            ));
        }
        ascii_to_string(out)
    }
}

/// Hex-digit law: encoding a nibble and reading it back is the identity,
/// in either case, and the digit is never a hyphen, whitespace, or outside
/// ASCII.
pub proof fn lemma_hex_char_val(n: u8, upper: bool)
    requires
        n < 16,
    ensures
        hex_val(hex_char(n, upper)) == n,
        is_hex_digit(hex_char(n, upper)),
        hex_char(n, upper) != 0x2d,
        !is_ascii_ws(hex_char(n, upper)),
        hex_char(n, upper) < 0x80,
{
}

/// Stripping whitespace from a text that holds none returns it unchanged.
pub proof fn lemma_strip_ws_id(s: Seq<u8>)
    requires
        forall|i: int| 0 <= i < s.len() ==> !is_ascii_ws(#[trigger] s[i]),
    ensures
        spec_strip_ws(s) == s,
    decreases s.len(),
{
    if s.len() == 0 {
        assert(spec_strip_ws(s) =~= s);
    } else {
        lemma_strip_ws_id(s.drop_last());
        assert(spec_strip_ws(s) =~= s);
    }
}

/// Round-trip law: parsing the canonical rendering of any 16 bytes, in
/// either case, returns exactly those bytes.
pub proof fn lemma_parse_canonical(b: Seq<u8>, upper: bool)
    requires
        b.len() == 16,
    ensures
        spec_parse(spec_canonical(b, upper)) == Ok::<Seq<u8>, ParseError>(b),
{
    let c = spec_canonical(b, upper);
    assert forall|i: int| 0 <= i < 36 implies !is_ascii_ws(#[trigger] c[i]) by {
        if i != 8 && i != 13 && i != 18 && i != 23 {
            let j = if i < 8 {
                i
            } else if i < 13 {
                i - 1
            } else if i < 18 {
                i - 2
            } else if i < 23 {
                i - 3
            } else {
                i - 4
            };
            let x = b[j / 2];
            assert(x >> 4u8 < 16 && (x & 0x0f) < 16) by (bit_vector);
            if j % 2 == 0 {
                lemma_hex_char_val(x >> 4u8, upper);
            } else {
                lemma_hex_char_val(x & 0x0f, upper);
            }
        }
    }
    lemma_strip_ws_id(c);
    let h = spec_dehyphen(c);
    assert forall|j: int| 0 <= j < 32 implies #[trigger] h[j] == (if j % 2 == 0 {
        hex_char(b[j / 2] >> 4u8, upper)
    } else {
        hex_char(b[j / 2] & 0x0f, upper)
    }) by {
        assert(c[dehyphen_src(j)] == spec_canonical_at(b, upper, dehyphen_src(j)));
    }
    assert forall|j: int| 0 <= j < 32 implies #[trigger] h[j] != 0x2d && is_hex_digit(h[j]) by {
        let x = b[j / 2];
        assert(x >> 4u8 < 16 && (x & 0x0f) < 16) by (bit_vector);
        if j % 2 == 0 {
            lemma_hex_char_val(x >> 4u8, upper);
        } else {
            lemma_hex_char_val(x & 0x0f, upper);
        }
    }
    assert(no_hyphen(h));
    assert(all_hex(h));
    assert forall|i: int| 0 <= i < 16 implies #[trigger] spec_hex_decode(h)[i] == b[i] by {
        let x = b[i];
        assert(x >> 4u8 < 16 && (x & 0x0f) < 16) by (bit_vector);
        lemma_hex_char_val(x >> 4u8, upper);
        lemma_hex_char_val(x & 0x0f, upper);
        assert(h[2 * i] == hex_char(x >> 4u8, upper));
        assert(h[2 * i + 1] == hex_char(x & 0x0f, upper));
        assert((x >> 4u8) * 16 + (x & 0x0f) == x) by (bit_vector);
    }
    assert(spec_hex_decode(h) =~= b);
}

/// The canonical rendering is pure ASCII, so its characters and its UTF-8
/// bytes correspond one to one.
pub proof fn lemma_canonical_chars_bytes(b: Seq<u8>, upper: bool)
    requires
        b.len() == 16,
    ensures
        vstd::utf8::is_ascii_chars(spec_canonical_chars(b, upper)),
        vstd::utf8::encode_utf8(spec_canonical_chars(b, upper)) == spec_canonical(b, upper),
{
    let cb = spec_canonical(b, upper);
    let cc = spec_canonical_chars(b, upper);
    assert forall|i: int| 0 <= i < 36 implies #[trigger] cb[i] < 0x80 by {
        if i != 8 && i != 13 && i != 18 && i != 23 {
            let j = if i < 8 {
                i
            } else if i < 13 {
                i - 1
            } else if i < 18 {
                i - 2
            } else if i < 23 {
                i - 3
            } else {
                i - 4
            };
            let x = b[j / 2];
            assert(x >> 4u8 < 16 && (x & 0x0f) < 16) by (bit_vector);
            if j % 2 == 0 {
                lemma_hex_char_val(x >> 4u8, upper);
            } else {
                lemma_hex_char_val(x & 0x0f, upper);
            }
        }
    }
    assert(vstd::utf8::is_ascii_chars(cc));
    vstd::utf8::is_ascii_chars_encode_utf8(cc);
    assert(vstd::utf8::encode_utf8(cc) =~= cb);
}

/// Round-trip law at the string level: a string holding the canonical
/// rendering of an identifier parses back to exactly that identifier's
/// bytes.
pub proof fn lemma_canonical_round_trip(u: UUID, s: &str, upper: bool)
    requires
        s@ == spec_canonical_chars(u@, upper),
    ensures
        spec_parse(s.spec_bytes()) == Ok::<Seq<u8>, ParseError>(u@),
{
    lemma_canonical_chars_bytes(u@, upper);
    lemma_parse_canonical(u@, upper);
}

} // verus!
