//! The bot's palette as RGB triples, and reading `#rrggbb` strictly.
use vstd::prelude::*;
use vstd::string::StringSliceAdditionalSpecFns;
use crate::hex::{u8_from_hex_str, u8_from_hex_chars, hex_digit_value, pad2, lemma_pad2_parses, lemma_two_digits_parse};
use vstd::string::{is_ascii, is_ascii_spec_bytes};

verus! {

pub const PRIMARY: (u8, u8, u8) = (43, 45, 49);
pub const WARN: (u8, u8, u8) = (178, 146, 3);
pub const ERROR: (u8, u8, u8) = (191, 36, 59);

/// Why `hex_to_rgb` refused its input.
#[derive(Debug, Clone, Copy, PartialEq, Eq, Structural)]
pub enum HexError {
    /// Without its leading `#`s the text is not six bytes long.
    InvalidLength,
    /// One of the three pairs is not a hexadecimal byte.
    InvalidDigit,
}

impl HexError {
    pub open spec fn spec_message(&self) -> Seq<char> {
        match self {
            HexError::InvalidLength => "Invalid hex color"@,
            HexError::InvalidDigit => "invalid digit found in string"@,
        }
    }

    /// The text that the error displays.
    pub fn message(&self) -> (res: String)
        ensures
            res@ == self.spec_message(),
    {
        match self {
            HexError::InvalidLength => "Invalid hex color".to_owned(),
            HexError::InvalidDigit => "invalid digit found in string".to_owned(),
        }
    }
}

/// `bs` without the `#` bytes it starts with.
pub open spec fn trim_leading_bytes(bs: Seq<u8>, b: u8) -> Seq<u8>
    decreases bs.len(),
{
    if bs.len() > 0 && bs[0] == b {
        trim_leading_bytes(bs.drop_first(), b)
    } else {
        bs
    }
}

/// A byte inside a multi-byte UTF-8 character: a string cannot be cut there.
pub open spec fn is_continuation_byte(b: u8) -> bool {
    0x80 <= b && b < 0xc0
}

/// `u8::from_str_radix(text, 16)` on the bytes of `text`; a byte outside
/// ASCII is never a digit or a sign.
pub open spec fn u8_from_hex_bytes(bs: Seq<u8>) -> Option<u8> {
    if forall|i: int| 0 <= i < bs.len() ==> #[trigger] bs[i] < 128 {
        u8_from_hex_str(bs.map_values(|b: u8| b as char))
    } else {
        None
    }
}

/// The text after its leading `#`s, as bytes.
pub open spec fn hex_body(hex: &str) -> Seq<u8> {
    trim_leading_bytes(hex.spec_bytes(), 35u8)
}

/// `hex_to_rgb` cuts the six bytes at offsets 2 and 4, which stops the
/// program when either falls inside a character.
pub open spec fn hex_to_rgb_defined(hex: &str) -> bool {
    let t = hex_body(hex);
    t.len() == 6 ==> !is_continuation_byte(t[2]) && !is_continuation_byte(t[4])
}

pub open spec fn spec_hex_to_rgb(hex: &str) -> Result<(u8, u8, u8), HexError> {
    let t = hex_body(hex);
    if t.len() != 6 {
        Err(HexError::InvalidLength)
    } else {
        match (
            u8_from_hex_bytes(t.subrange(0, 2)),
            u8_from_hex_bytes(t.subrange(2, 4)),
            u8_from_hex_bytes(t.subrange(4, 6)),
        ) {
            (Some(r), Some(g), Some(b)) => Ok((r, g, b)),
            _ => Err(HexError::InvalidDigit),
        }
    }
}

/// Reads one pair of bytes as a hexadecimal byte.
fn hex_pair(bs: &[u8], i: usize) -> (res: Option<u8>)
    requires
        i + 2 <= bs@.len(),
    ensures
        res == u8_from_hex_bytes(bs@.subrange(i as int, i + 2)),
{
    let ghost p = bs@.subrange(i as int, i + 2);
    let b0 = bs[i];
    let b1 = bs[i + 1];
    if b0 >= 128 || b1 >= 128 {
        assert(!(forall|j: int| 0 <= j < p.len() ==> #[trigger] p[j] < 128)) by {
            if b0 >= 128 {
                assert(p[0] >= 128);
            } else {
                assert(p[1] >= 128);
            }
        }
        return None;
    }
    let mut cs: Vec<char> = Vec::new();
    cs.push(b0 as char);
    cs.push(b1 as char);
    assert(cs@.subrange(0, 2) =~= p.map_values(|b: u8| b as char));
    u8_from_hex_chars(&cs, 0, 2)
}

/// Reads `#rrggbb` strictly: after its leading `#`s the text must be six
/// bytes, read as three hexadecimal bytes.
pub fn hex_to_rgb(hex: &str) -> (res: Result<(u8, u8, u8), HexError>)
    requires
        hex_to_rgb_defined(hex),
    ensures
        res == spec_hex_to_rgb(hex),
{
    let bs = hex.as_bytes();
    let n = bs.len();
    let mut k: usize = 0;
    assert(bs@.subrange(0, n as int) =~= bs@);
    while k < n && bs[k] == 35u8
        invariant
            n == bs@.len(),
            bs@ == hex.spec_bytes(),
            k <= n,
            hex_body(hex) == trim_leading_bytes(bs@.subrange(k as int, n as int), 35u8),
        decreases n - k,
    {
        assert(bs@.subrange(k as int, n as int).drop_first() =~= bs@.subrange((k + 1) as int, n as int));
        k = k + 1;
    }
    let ghost t = bs@.subrange(k as int, n as int);
    assert(hex_body(hex) == t);
    if n - k != 6 {
        return Err(HexError::InvalidLength);
    }
    assert(t.subrange(0, 2) =~= bs@.subrange(k as int, k + 2));
    assert(t.subrange(2, 4) =~= bs@.subrange(k + 2, k + 4));
    assert(t.subrange(4, 6) =~= bs@.subrange(k + 4, k + 6));
    let r = hex_pair(bs, k);
    let g = hex_pair(bs, k + 2);
    let b = hex_pair(bs, k + 4);
    match (r, g, b) {
        (Some(r), Some(g), Some(b)) => Ok((r, g, b)),
        _ => Err(HexError::InvalidDigit),
    }
}

/// The number that Discord stores for a color: `0xRRGGBB`.
pub open spec fn rgb_value(r: u8, g: u8, b: u8) -> u32 {
    ((r as u32) * 65536 + (g as u32) * 256 + (b as u32)) as u32
}

/// `Colour::from_rgb(r, g, b)`: the red, green and blue bytes packed into one
/// number.
pub fn colour_from_rgb(r: u8, g: u8, b: u8) -> (res: u32)
    ensures
        res == rgb_value(r, g, b),
{
    let v: u32 = ((r as u32) << 16u32) | ((g as u32) << 8u32) | (b as u32);
    assert(v == (r as u32) * 65536 + (g as u32) * 256 + (b as u32)) by (bit_vector)
        requires
            v == ((r as u32) << 16u32) | ((g as u32) << 8u32) | (b as u32),
    ;
    v
}

/// Reads `#rrggbb` strictly into the number of a Discord color.
pub fn hex_to_color(hex: &str) -> (res: Result<u32, HexError>)
    requires
        hex_to_rgb_defined(hex),
    ensures
        match spec_hex_to_rgb(hex) {
            Ok((r, g, b)) => res == Ok::<u32, HexError>(rgb_value(r, g, b)),
            Err(e) => res == Err::<u32, HexError>(e),
        },
{
    let (r, g, b) = hex_to_rgb(hex)?;
    Ok(colour_from_rgb(r, g, b))
}

/// The bytes of a text whose characters are all ASCII are those characters.
proof fn lemma_ascii_bytes(hex: &str)
    requires
        forall|i: int| 0 <= i < hex@.len() ==> '\0' <= #[trigger] hex@[i] <= '\u{7f}',
    ensures
        hex.spec_bytes() == Seq::new(hex@.len(), |i: int| hex@[i] as u8),
{
    assert(is_ascii(hex));
    is_ascii_spec_bytes(hex);
}

/// Dropping a run of leading `b` bytes that stops at index `k`.
proof fn lemma_trim_bytes_prefix(bs: Seq<u8>, b: u8, k: int)
    requires
        0 <= k <= bs.len(),
        forall|i: int| 0 <= i < k ==> bs[i] == b,
        k == bs.len() || bs[k] != b,
    ensures
        trim_leading_bytes(bs, b) == bs.subrange(k, bs.len() as int),
    decreases k,
{
    if k == 0 {
        assert(bs.subrange(0, bs.len() as int) =~= bs);
    } else {
        let rest = bs.drop_first();
        assert forall|i: int| 0 <= i < k - 1 implies rest[i] == b by {
            assert(rest[i] == bs[i + 1]);
        }
        lemma_trim_bytes_prefix(rest, b, k - 1);
        assert(rest.subrange(k - 1, rest.len() as int) =~= bs.subrange(k, bs.len() as int));
    }
}

/// Hexadecimal digits are ASCII and not `#`.
proof fn lemma_hex_digit_ascii(c: char)
    requires
        hex_digit_value(c) is Some,
    ensures
        (c as u32) < 128,
        48 <= (c as u32),
        '\0' <= c <= '\u{7f}',
{
}

/// Two ASCII bytes read as the two characters they encode.
proof fn lemma_pair_reads(p: Seq<u8>, q: Seq<char>)
    requires
        p.len() == 2,
        q.len() == 2,
        p[0] == q[0] as u8,
        p[1] == q[1] as u8,
        hex_digit_value(q[0]) is Some,
        hex_digit_value(q[1]) is Some,
    ensures
        u8_from_hex_bytes(p) == u8_from_hex_str(q),
        u8_from_hex_str(q) is Some,
{
    lemma_hex_digit_ascii(q[0]);
    lemma_hex_digit_ascii(q[1]);
    assert forall|i: int| 0 <= i < p.len() implies #[trigger] p[i] < 128 by {}
    assert(p.map_values(|b: u8| b as char) =~= q);
    lemma_two_digits_parse(q);
}

/// A text of `#`s then six hexadecimal digits: `hex_to_rgb` reads the three
/// pairs of digits.
pub proof fn lemma_hex_to_rgb_of_digits(hex: &str, k: int)
    requires
        0 <= k,
        hex@.len() == k + 6,
        forall|i: int| 0 <= i < k ==> hex@[i] == '#',
        forall|i: int| k <= i < k + 6 ==> hex_digit_value(#[trigger] hex@[i]) is Some,
    ensures
        hex_to_rgb_defined(hex),
        u8_from_hex_str(hex@.subrange(k, k + 2)) is Some,
        u8_from_hex_str(hex@.subrange(k + 2, k + 4)) is Some,
        u8_from_hex_str(hex@.subrange(k + 4, k + 6)) is Some,
        spec_hex_to_rgb(hex) == Ok::<(u8, u8, u8), HexError>(
            (
                u8_from_hex_str(hex@.subrange(k, k + 2))->0,
                u8_from_hex_str(hex@.subrange(k + 2, k + 4))->0,
                u8_from_hex_str(hex@.subrange(k + 4, k + 6))->0,
            ),
        ),
{
    let cs = hex@;
    assert forall|i: int| 0 <= i < cs.len() implies '\0' <= #[trigger] cs[i] <= '\u{7f}' by {
        if i >= k {
            lemma_hex_digit_ascii(cs[i]);
        }
    }
    lemma_ascii_bytes(hex);
    let bs = hex.spec_bytes();
    assert(bs.len() == k + 6);
    assert forall|i: int| 0 <= i < bs.len() implies #[trigger] bs[i] == cs[i] as u8 by {}
    assert forall|i: int| 0 <= i < k implies bs[i] == 35u8 by {
        assert(cs[i] == '#');
        assert(bs[i] == cs[i] as u8);
    }
    lemma_hex_digit_ascii(cs[k]);
    assert(bs[k] == cs[k] as u8);
    lemma_trim_bytes_prefix(bs, 35u8, k);
    let t = hex_body(hex);
    assert(t == bs.subrange(k, k + 6));
    lemma_tail_pairs(bs, cs, k);
}

/// The three pairs of bytes after the `#`s read as the pairs of characters.
#[verifier::rlimit(30)]
proof fn lemma_tail_pairs(bs: Seq<u8>, cs: Seq<char>, k: int)
    requires
        0 <= k,
        cs.len() == k + 6,
        bs.len() == k + 6,
        forall|i: int| 0 <= i < bs.len() ==> #[trigger] bs[i] == cs[i] as u8,
        forall|i: int| k <= i < k + 6 ==> hex_digit_value(#[trigger] cs[i]) is Some,
    ensures
        ({
            let t = bs.subrange(k, k + 6);
            &&& t.len() == 6
            &&& !is_continuation_byte(t[2])
            &&& !is_continuation_byte(t[4])
            &&& u8_from_hex_bytes(t.subrange(0, 2)) == u8_from_hex_str(cs.subrange(k, k + 2))
            &&& u8_from_hex_bytes(t.subrange(2, 4)) == u8_from_hex_str(cs.subrange(k + 2, k + 4))
            &&& u8_from_hex_bytes(t.subrange(4, 6)) == u8_from_hex_str(cs.subrange(k + 4, k + 6))
            &&& u8_from_hex_str(cs.subrange(k, k + 2)) is Some
            &&& u8_from_hex_str(cs.subrange(k + 2, k + 4)) is Some
            &&& u8_from_hex_str(cs.subrange(k + 4, k + 6)) is Some
        }),
{
    let t = bs.subrange(k, k + 6);
    assert(hex_digit_value(cs[k + 2]) is Some);
    assert(hex_digit_value(cs[k + 4]) is Some);
    lemma_hex_digit_ascii(cs[k + 2]);
    lemma_hex_digit_ascii(cs[k + 4]);
    assert(t[2] == bs[k + 2]);
    assert(t[4] == bs[k + 4]);
    pair_at(bs, cs, k, 0);
    pair_at(bs, cs, k, 2);
    pair_at(bs, cs, k, 4);
}

proof fn pair_at(bs: Seq<u8>, cs: Seq<char>, k: int, j: int)
    requires
        0 <= k,
        0 <= j <= 4,
        cs.len() == k + 6,
        bs.len() == k + 6,
        forall|i: int| 0 <= i < bs.len() ==> #[trigger] bs[i] == cs[i] as u8,
        forall|i: int| k <= i < k + 6 ==> hex_digit_value(#[trigger] cs[i]) is Some,
    ensures
        u8_from_hex_bytes(bs.subrange(k, k + 6).subrange(j, j + 2)) == u8_from_hex_str(cs.subrange(k + j, k + j + 2)),
        u8_from_hex_str(cs.subrange(k + j, k + j + 2)) is Some,
{
    let p = bs.subrange(k, k + 6).subrange(j, j + 2);
    let q = cs.subrange(k + j, k + j + 2);
    assert(p[0] == bs[k + j]);
    assert(p[1] == bs[k + j + 1]);
    assert(q[0] == cs[k + j]);
    assert(q[1] == cs[k + j + 1]);
    assert(hex_digit_value(cs[k + j]) is Some);
    assert(hex_digit_value(cs[k + j + 1]) is Some);
    lemma_pair_reads(p, q);
}

/// `hex_to_rgb` reads back a color written as `#{:02x}{:02x}{:02x}` or
/// `{:02X}{:02X}{:02X}`: the `#` is optional and the digits may be in
/// either case.
pub proof fn hex_to_rgb_reads_formatted(hex: &str, r: u8, g: u8, b: u8, hash: bool, upper: bool)
    requires
        hex@ == (if hash {
            seq!['#']
        } else {
            Seq::<char>::empty()
        }) + pad2(r, upper) + pad2(g, upper) + pad2(b, upper),
    ensures
        hex_to_rgb_defined(hex),
        spec_hex_to_rgb(hex) == Ok::<(u8, u8, u8), HexError>((r, g, b)),
{
    let k: int = if hash {
        1
    } else {
        0
    };
    lemma_pad2_parses(r, upper);
    lemma_pad2_parses(g, upper);
    lemma_pad2_parses(b, upper);
    let cs = hex@;
    assert(cs.subrange(k, k + 2) =~= pad2(r, upper));
    assert(cs.subrange(k + 2, k + 4) =~= pad2(g, upper));
    assert(cs.subrange(k + 4, k + 6) =~= pad2(b, upper));
    assert forall|i: int| k <= i < k + 6 implies hex_digit_value(#[trigger] cs[i]) is Some by {
        if i < k + 2 {
            assert(cs[i] == pad2(r, upper)[i - k]);
        } else if i < k + 4 {
            assert(cs[i] == pad2(g, upper)[i - k - 2]);
        } else {
            assert(cs[i] == pad2(b, upper)[i - k - 4]);
        }
    }
    lemma_hex_to_rgb_of_digits(hex, k);
}

} // verus!
