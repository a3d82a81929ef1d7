//! An RGB color: reading it from hexadecimal, a CSS name or text, and
//! writing it back.
use vstd::prelude::*;
use crate::error::{ColorParseError, MessageError};
use crate::hex::{hex_digit_value, hex_lower, u8_from_hex_str, u8_from_hex_chars, format_hex_lower, lemma_hex_lower_parses, lemma_lower_digit_value};
use crate::text::{chars_of, string_of, lower_digit, push_char, split_on, split_exec, trim_ws, trim_exec};
use crate::dec::{u8_from_dec_str, dec_value_bounded};
use crate::colors::{rgb_value, colour_from_rgb, spec_hex_to_rgb, hex_to_rgb_defined, lemma_hex_to_rgb_of_digits};
use vstd::std_specs::convert::FromSpecImpl;
use vstd::std_specs::convert::FromSpec;

verus! {

#[derive(Clone, Copy, Debug, PartialEq, Eq, Structural)]
pub struct Color {
    pub r: u8,
    pub g: u8,
    pub b: u8,
}

/// `s` without the copies of `c` that it starts with (`trim_start_matches`).
pub open spec fn trim_leading(s: Seq<char>, c: char) -> Seq<char>
    decreases s.len(),
{
    if s.len() > 0 && s[0] == c {
        trim_leading(s.drop_first(), c)
    } else {
        s
    }
}

/// How many pieces of two characters `t` falls into, the last one possibly shorter.
pub open spec fn chunk_count(t: Seq<char>) -> nat {
    ((t.len() + 1) / 2) as nat
}

/// The `i`-th piece of two characters of `t`.
pub open spec fn chunk(t: Seq<char>, i: int) -> Seq<char> {
    let end = if 2 * i + 2 <= t.len() {
        2 * i + 2
    } else {
        t.len() as int
    };
    t.subrange(2 * i, end)
}

/// `Color::from_hex` stops the program unless each of the pieces that it
/// reads (at most four) is a hexadecimal byte.
pub open spec fn from_hex_defined(s: Seq<char>) -> bool {
    let t = trim_leading(s, '#');
    let read = if chunk_count(t) < 4 {
        chunk_count(t)
    } else {
        4
    };
    forall|i: int| 0 <= i < read ==> #[trigger] u8_from_hex_str(chunk(t, i)) is Some
}

/// The color that `Color::from_hex` reads: there must be exactly three pieces.
pub open spec fn spec_from_hex(s: Seq<char>) -> Option<Color> {
    let t = trim_leading(s, '#');
    if chunk_count(t) == 3 {
        Some(
            Color {
                r: u8_from_hex_str(chunk(t, 0))->0,
                g: u8_from_hex_str(chunk(t, 1))->0,
                b: u8_from_hex_str(chunk(t, 2))->0,
            },
        )
    } else {
        None
    }
}

/// The lower-case hexadecimal spelling of a color, without `#`; each
/// component is written without leading zeros.
pub open spec fn spec_hex_no_hash(c: Color) -> Seq<char> {
    hex_lower(c.r) + hex_lower(c.g) + hex_lower(c.b)
}

pub open spec fn spec_hex(c: Color) -> Seq<char> {
    seq!['#'] + spec_hex_no_hash(c)
}

/// The number of leading `c` characters of `cs`, and with it the trimmed rest.
fn count_leading(cs: &Vec<char>, c: char) -> (k: usize)
    ensures
        k <= cs@.len(),
        trim_leading(cs@, c) == cs@.subrange(k as int, cs@.len() as int),
{
    let n = cs.len();
    let mut k: usize = 0;
    assert(cs@.subrange(0, n as int) =~= cs@);
    while k < n && cs[k] == c
        invariant
            n == cs@.len(),
            k <= n,
            trim_leading(cs@, c) == trim_leading(cs@.subrange(k as int, n as int), c),
        decreases n - k,
    {
        assert(cs@.subrange(k as int, n as int).drop_first() =~= cs@.subrange((k + 1) as int, n as int));
        k = k + 1;
    }
    k
}

/// What `Color::from_hex` fails with when the text is not three pieces.
pub const HEX_PARSE_PROBLEM: &'static str = "Problem parsing hex";

impl Color {
    /// Reads `#rrggbb`: the leading `#`s are dropped and the rest is cut into
    /// pieces of two characters, each read as a hexadecimal byte.
    pub fn from_hex(hex: &str) -> (res: Result<Color, MessageError>)
        requires
            from_hex_defined(hex@),
        ensures
            match spec_from_hex(hex@) {
                Some(c) => res == Ok::<Color, MessageError>(c),
                None => res matches Err(e) && e.0@ == HEX_PARSE_PROBLEM@,
            },
    {
        let cs = chars_of(hex);
        let k = count_leading(&cs, '#');
        let n = cs.len();
        let ghost t = cs@.subrange(k as int, n as int);
        let len = n - k;
        if len == 5 || len == 6 {
            assert(chunk_count(t) == 3);
            let end = n;
            assert(chunk(t, 0) =~= cs@.subrange(k as int, k + 2));
            assert(chunk(t, 1) =~= cs@.subrange(k + 2, k + 4));
            assert(chunk(t, 2) =~= cs@.subrange(k + 4, end as int));
            assert(u8_from_hex_str(chunk(t, 0)) is Some);
            assert(u8_from_hex_str(chunk(t, 1)) is Some);
            assert(u8_from_hex_str(chunk(t, 2)) is Some);
            let r = u8_from_hex_chars(&cs, k, k + 2);
            let g = u8_from_hex_chars(&cs, k + 2, k + 4);
            let b = u8_from_hex_chars(&cs, k + 4, end);
            match (r, g, b) {
                (Some(r), Some(g), Some(b)) => Ok(Color { r, g, b }),
                _ => Err(MessageError(string_of(HEX_PARSE_PROBLEM))),
            }
        } else {
            assert(chunk_count(t) != 3);
            Err(MessageError(string_of(HEX_PARSE_PROBLEM)))
        }
    }

    /// The color written as lower-case hexadecimal, without `#`.
    pub fn into_hex_no_hash(&self) -> (res: String)
        ensures
            res@ == spec_hex_no_hash(*self),
    {
        let mut s = format_hex_lower(self.r);
        let g = format_hex_lower(self.g);
        let b = format_hex_lower(self.b);
        s.append(g.as_str());
        s.append(b.as_str());
        s
    }

    /// The color written as `#` and lower-case hexadecimal.
    pub fn into_hex(&self) -> (res: String)
        ensures
            res@ == spec_hex(*self),
    {
        let mut s = String::new();
        crate::text::push_char(&mut s, '#');
        let rest = self.into_hex_no_hash();
        s.append(rest.as_str());
        assert(s@ =~= spec_hex(*self));
        s
    }

    /// What the color displays: its `#` spelling and a line break.
    pub fn to_display_string(&self) -> (res: String)
        ensures
            res@ == spec_hex(*self).push('\n'),
    {
        let mut s = self.into_hex();
        push_char(&mut s, '\n');
        s
    }

    /// The number of the Discord color with these components (`0xRRGGBB`).
    pub fn into_u32(self) -> (res: u32)
        ensures
            res == rgb_value(self.r, self.g, self.b),
    {
        colour_from_rgb(self.r, self.g, self.b)
    }

    /// The same number, widened.
    pub fn into_u64(self) -> (res: u64)
        ensures
            res == rgb_value(self.r, self.g, self.b) as u64,
    {
        colour_from_rgb(self.r, self.g, self.b) as u64
    }

    pub fn from_rgb(r: u8, g: u8, b: u8) -> (res: Color)
        ensures
            res == (Color { r, g, b }),
    {
        Color { r, g, b }
    }
}


/// `s` without the copies of `c` that it ends with (`trim_end_matches`).
pub open spec fn trim_trailing(s: Seq<char>, c: char) -> Seq<char>
    decreases s.len(),
{
    if s.len() > 0 && s.last() == c {
        trim_trailing(s.drop_last(), c)
    } else {
        s
    }
}

/// The pieces of `(r, g, b)`: the brackets at both ends dropped, the rest cut
/// at each comma and each piece trimmed of whitespace.
pub open spec fn rgb_pieces(s: Seq<char>) -> Seq<Seq<char>> {
    split_on(trim_trailing(trim_leading(s, '('), ')'), ',').map_values(|p: Seq<char>| trim_ws(p))
}

/// Every piece is a decimal byte.
pub open spec fn rgb_all_parse(s: Seq<char>) -> bool {
    forall|i: int| 0 <= i < rgb_pieces(s).len() ==> #[trigger] u8_from_dec_str(rgb_pieces(s)[i]) is Some
}

/// Reading `(r, g, b)` stops the program when every piece is a byte but
/// there are not exactly three of them.
pub open spec fn rgb_defined(s: Seq<char>) -> bool {
    rgb_all_parse(s) ==> rgb_pieces(s).len() == 3
}

/// The color written as `(r, g, b)`, if the text is one.
pub open spec fn spec_from_rgb(s: Seq<char>) -> Option<Color> {
    if rgb_all_parse(s) && rgb_pieces(s).len() == 3 {
        Some(
            Color {
                r: u8_from_dec_str(rgb_pieces(s)[0])->0,
                g: u8_from_dec_str(rgb_pieces(s)[1])->0,
                b: u8_from_dec_str(rgb_pieces(s)[2])->0,
            },
        )
    } else {
        None
    }
}

/// The number of trailing `c` characters of `cs[from..]`.
fn count_trailing(cs: &Vec<char>, from: usize, c: char) -> (k: usize)
    requires
        from <= cs@.len(),
    ensures
        from <= k <= cs@.len(),
        trim_trailing(cs@.subrange(from as int, cs@.len() as int), c) == cs@.subrange(from as int, k as int),
{
    let n = cs.len();
    let mut k: usize = n;
    while k > from && cs[k - 1] == c
        invariant
            n == cs@.len(),
            from <= k <= n,
            trim_trailing(cs@.subrange(from as int, n as int), c) == trim_trailing(cs@.subrange(from as int, k as int), c),
        decreases k,
    {
        assert(cs@.subrange(from as int, k as int).drop_last() =~= cs@.subrange(from as int, k - 1));
        k = k - 1;
    }
    k
}

/// What reading `(r, g, b)` finds: some piece is no byte, three bytes, or
/// a number of bytes other than three (where the reading stops the program).
enum RgbReading {
    NotAllBytes,
    Three(Color),
    OtherCount,
}

fn rgb_reading(cs: &Vec<char>) -> (res: RgbReading)
    ensures
        res is NotAllBytes <==> !rgb_all_parse(cs@),
        res is OtherCount <==> (rgb_all_parse(cs@) && rgb_pieces(cs@).len() != 3),
        res matches RgbReading::Three(c) ==> spec_from_rgb(cs@) == Some(c),
{
    let a = count_leading(cs, '(');
    let b = count_trailing(cs, a, ')');
    let mut body: Vec<char> = Vec::new();
    let mut i = a;
    while i < b
        invariant
            a <= i <= b,
            b <= cs@.len(),
            body@ == cs@.subrange(a as int, i as int),
        decreases b - i,
    {
        body.push(cs[i]);
        i = i + 1;
    }
    assert(body@ == trim_trailing(trim_leading(cs@, '('), ')'));
    let parts = split_exec(&body, ',');
    let ghost pieces = rgb_pieces(cs@);
    assert(parts@.map_values(|v: Vec<char>| v@) == split_on(body@, ','));
    let mut vals: Vec<u8> = Vec::new();
    let mut j: usize = 0;
    while j < parts.len()
        invariant
            pieces == rgb_pieces(cs@),
            parts@.map_values(|v: Vec<char>| v@) == split_on(trim_trailing(trim_leading(cs@, '('), ')'), ','),
            pieces.len() == parts@.len(),
            j <= parts@.len(),
            vals@.len() == j,
            forall|k: int| 0 <= k < j ==> #[trigger] u8_from_dec_str(pieces[k]) == Some(vals@[k]),
        decreases parts@.len() - j,
    {
        let p = trim_exec(&parts[j]);
        assert(p@ == pieces[j as int]) by {
            assert(parts@.map_values(|v: Vec<char>| v@)[j as int] == parts@[j as int]@);
        }
        let v = dec_value_bounded(&p, 0, p.len(), 255);
        assert(p@.subrange(0, p@.len() as int) =~= p@);
        match v {
            Some(v) => {
                vals.push(v as u8);
            },
            None => {
                assert(u8_from_dec_str(pieces[j as int]) is None);
                assert(!rgb_all_parse(cs@));
                return RgbReading::NotAllBytes;
            },
        }
        j = j + 1;
    }
    assert(rgb_all_parse(cs@));
    if vals.len() != 3 {
        return RgbReading::OtherCount;
    }
    assert(u8_from_dec_str(pieces[0]) == Some(vals@[0]));
    assert(u8_from_dec_str(pieces[1]) == Some(vals@[1]));
    assert(u8_from_dec_str(pieces[2]) == Some(vals@[2]));
    RgbReading::Three(Color { r: vals[0], g: vals[1], b: vals[2] })
}

/// The color written as `(r, g, b)` in `cs`, if it is one.
fn from_rgb_chars(cs: &Vec<char>) -> (res: Option<Color>)
    requires
        rgb_defined(cs@),
    ensures
        res == spec_from_rgb(cs@),
{
    match rgb_reading(cs) {
        RgbReading::Three(c) => Some(c),
        _ => None,
    }
}

/// Whether reading `cs` as hexadecimal runs without stopping the program.
fn from_hex_is_defined(cs: &Vec<char>) -> (res: bool)
    ensures
        res == from_hex_defined(cs@),
{
    let k = count_leading(cs, '#');
    let n = cs.len();
    let ghost t = cs@.subrange(k as int, n as int);
    let len = n - k;
    let chunks = len / 2 + len % 2;
    let read = if chunks < 4 {
        chunks
    } else {
        4
    };
    assert(chunk_count(t) == chunks);
    let mut i: usize = 0;
    while i < read
        invariant
            k <= n,
            n == cs@.len(),
            len == n - k,
            chunks == len / 2 + len % 2,
            t == cs@.subrange(k as int, n as int),
            t == trim_leading(cs@, '#'),
            read <= chunks,
            read <= 4,
            read <= chunk_count(t),
            read == (if chunk_count(t) < 4 {
                chunk_count(t)
            } else {
                4
            }),
            i <= read,
            forall|j: int| 0 <= j < i ==> #[trigger] u8_from_hex_str(chunk(t, j)) is Some,
        decreases read - i,
    {
        assert(2 * i < len);
        let start = k + 2 * i;
        let end = if n - start >= 2 {
            start + 2
        } else {
            n
        };
        assert(chunk(t, i as int) =~= cs@.subrange(start as int, end as int));
        if u8_from_hex_chars(cs, start, end).is_none() {
            assert(!(u8_from_hex_str(chunk(t, i as int)) is Some));
            return false;
        }
        i = i + 1;
    }
    true
}

/// The CSS color that `color_name::css::Color::by_string` finds for a name
/// (the name trimmed, its first letter in upper case and the rest in lower
/// case, looked up in the crate's table), if any.
pub uninterp spec fn css_color_by_name(name: Seq<char>) -> Option<(u8, u8, u8)>;

/// `by_string` cuts the trimmed name after its first byte, which stops the
/// program when a non-empty name trims to nothing or starts with a
/// character beyond ASCII.
pub open spec fn by_string_defined(name: Seq<char>) -> bool {
    name.len() == 0 || (trim_ws(name).len() > 0 && (trim_ws(name)[0] as u32) < 128)
}

/// `color_name::css::Color::val().by_string(name)`. Claimed of it: the result
/// depends on the name alone, and an empty name finds nothing.
#[verifier::external_body]
fn css_lookup(name: &str) -> (res: Option<(u8, u8, u8)>)
    requires
        by_string_defined(name@),
    ensures
        res == css_color_by_name(name@),
        name@.len() == 0 ==> res is None,
{
    match color_name::css::Color::val().by_string(name.to_string()) {
        Ok(c) => Some((c[0], c[1], c[2])),
        Err(_) => None,
    }
}

pub open spec fn color_of(t: (u8, u8, u8)) -> Color {
    Color { r: t.0, g: t.1, b: t.2 }
}

/// What `Color::from_str` reads, given that the text names a CSS color:
/// hexadecimal first, then `(r, g, b)`, then the name.
pub open spec fn spec_from_str(s: Seq<char>) -> Color {
    match spec_from_hex(s) {
        Some(c) => c,
        None => match spec_from_rgb(s) {
            Some(c) => c,
            None => color_of(css_color_by_name(s)->0),
        },
    }
}

/// All three readings of `Color::from_str` run without stopping the program.
pub open spec fn from_str_defined(s: Seq<char>) -> bool {
    from_hex_defined(s) && rgb_defined(s) && by_string_defined(s)
}

/// Whether `by_string` runs on a name without stopping the program.
fn by_string_is_defined(cs: &Vec<char>) -> (res: bool)
    ensures
        res == by_string_defined(cs@),
{
    if cs.len() == 0 {
        return true;
    }
    let t = trim_exec(cs);
    t.len() > 0 && (t[0] as u32) < 128
}

impl Color {
    /// The CSS color of a name; the name must be one.
    pub fn from_color_name(name: &str) -> (res: Result<Color, ColorParseError>)
        requires
            by_string_defined(name@),
            css_color_by_name(name@) is Some,
        ensures
            res == Ok::<Color, ColorParseError>(color_of(css_color_by_name(name@)->0)),
    {
        match css_lookup(name) {
            Some(t) => Ok(Color { r: t.0, g: t.1, b: t.2 }),
            None => Err(ColorParseError::ParseName(string_of(name))),
        }
    }

    /// The CSS color of a name, or `None` where the name is none.
    pub fn lookup_color_name(name: &str) -> (res: Option<Color>)
        requires
            by_string_defined(name@),
        ensures
            match css_color_by_name(name@) {
                Some(t) => res == Some(color_of(t)),
                None => res is None,
            },
    {
        match css_lookup(name) {
            Some(_) => match Color::from_color_name(name) {
                Ok(c) => Some(c),
                Err(_) => None,
            },
            None => None,
        }
    }

    /// Reads a color as hexadecimal, as `(r, g, b)` or as a CSS name, in that
    /// order. All three readings are made, so the text must also be a CSS
    /// name and must not stop any of them. No text meets both: every CSS name
    /// of the `color_name` table holds a letter that is no hexadecimal digit,
    /// so its hexadecimal reading stops the program. The `requires` therefore
    /// holds of no text (Verus cannot see this, as the lookup is a name), and
    /// `checked_from_str` and `parse` never find a color.
    pub fn from_str(value: &str) -> (res: Result<Color, ColorParseError>)
        requires
            from_str_defined(value@),
            css_color_by_name(value@) is Some,
        ensures
            res == Ok::<Color, ColorParseError>(spec_from_str(value@)),
    {
        let from_hex = Color::from_hex(value);
        let cs = chars_of(value);
        let from_rgb = from_rgb_chars(&cs);
        let from_name = Color::from_color_name(value);
        match from_hex {
            Ok(c) => Ok(c),
            Err(_) => match from_rgb {
                Some(c) => Ok(c),
                None => from_name,
            },
        }
    }

    /// Whether the three readings of `from_str` run on the text without
    /// stopping the program.
    pub fn from_str_is_defined(value: &str) -> (res: bool)
        ensures
            res == from_str_defined(value@),
    {
        let cs = chars_of(value);
        let hex = from_hex_is_defined(&cs);
        let rgb = match rgb_reading(&cs) {
            RgbReading::OtherCount => false,
            _ => true,
        };
        let name = by_string_is_defined(&cs);
        hex && rgb && name
    }

    /// `from_str` where its readings run and the text names a CSS color;
    /// `None` where they would stop the program or no CSS color has the name
    /// (which, as `from_str` says, is every text).
    pub fn checked_from_str(value: &str) -> (res: Option<Color>)
        ensures
            from_str_defined(value@) && css_color_by_name(value@) is Some ==> res == Some(spec_from_str(value@)),
            !from_str_defined(value@) || css_color_by_name(value@) is None ==> res is None,
    {
        if !Color::from_str_is_defined(value) {
            return None;
        }
        Color::parse(value)
    }

    /// `from_str` where the text names a CSS color, and `None` where it does not.
    pub fn parse(value: &str) -> (res: Option<Color>)
        requires
            from_str_defined(value@),
        ensures
            css_color_by_name(value@) is Some ==> res == Some(spec_from_str(value@)),
            css_color_by_name(value@) is None ==> res is None,
    {
        match css_lookup(value) {
            Some(_) => match Color::from_str(value) {
                Ok(c) => Some(c),
                Err(_) => None,
            },
            None => None,
        }
    }
}

impl From<(u8, u8, u8)> for Color {
    fn from(value: (u8, u8, u8)) -> (res: Color) {
        Color { r: value.0, g: value.1, b: value.2 }
    }
}

impl FromSpecImpl<(u8, u8, u8)> for Color {
    open spec fn obeys_from_spec() -> bool {
        true
    }

    open spec fn from_spec(value: (u8, u8, u8)) -> Color {
        Color { r: value.0, g: value.1, b: value.2 }
    }
}

impl From<Color> for (u8, u8, u8) {
    fn from(value: Color) -> (res: (u8, u8, u8)) {
        (value.r, value.g, value.b)
    }
}

impl FromSpecImpl<Color> for (u8, u8, u8) {
    open spec fn obeys_from_spec() -> bool {
        true
    }

    open spec fn from_spec(value: Color) -> (u8, u8, u8) {
        (value.r, value.g, value.b)
    }
}

/// Two colors with the same Discord number are the same color.
pub proof fn rgb_value_injective(a: Color, b: Color)
    requires
        rgb_value(a.r, a.g, a.b) == rgb_value(b.r, b.g, b.b),
    ensures
        a == b,
{
}

/// A color turned into a triple and back is unchanged, and so is a triple.
pub proof fn tuple_round_trip(c: Color, t: (u8, u8, u8))
    ensures
        <Color as FromSpec<(u8, u8, u8)>>::from_spec(<(u8, u8, u8) as FromSpec<Color>>::from_spec(c)) == c,
        <(u8, u8, u8) as FromSpec<Color>>::from_spec(<Color as FromSpec<(u8, u8, u8)>>::from_spec(t)) == t,
{
}

/// What `from_hex` reads back of what `into_hex` wrote: the same color,
/// provided that no component is below 16 (otherwise the spelling is shorter
/// than six digits and the pieces no longer line up).
pub proof fn hex_round_trip(c: Color)
    requires
        c.r >= 16,
        c.g >= 16,
        c.b >= 16,
    ensures
        from_hex_defined(spec_hex(c)),
        spec_from_hex(spec_hex(c)) == Some(c),
{
    let s = spec_hex(c);
    let d = spec_hex_no_hash(c);
    lemma_lower_digit_value((c.r / 16) as nat);
    assert(d[0] == lower_digit((c.r / 16) as nat));
    assert(s.drop_first() =~= d);
    assert(trim_leading(d, '#') == d);
    assert(trim_leading(s, '#') == d);
    assert(chunk(d, 0) =~= hex_lower(c.r));
    assert(chunk(d, 1) =~= hex_lower(c.g));
    assert(chunk(d, 2) =~= hex_lower(c.b));
    lemma_hex_lower_parses(c.r);
    lemma_hex_lower_parses(c.g);
    lemma_hex_lower_parses(c.b);
    assert forall|i: int| 0 <= i < 3 implies #[trigger] u8_from_hex_str(chunk(d, i)) is Some by {
        if i == 0 {
        } else if i == 1 {
        } else {
        }
    }
}

/// `s` is some copies of `c` followed by what `trim_leading` leaves of it.
pub proof fn lemma_trim_leading_shape(s: Seq<char>, c: char)
    ensures
        trim_leading(s, c).len() <= s.len(),
        forall|i: int| 0 <= i < s.len() - trim_leading(s, c).len() ==> s[i] == c,
        trim_leading(s, c) == s.subrange(s.len() - trim_leading(s, c).len(), s.len() as int),
    decreases s.len(),
{
    if s.len() > 0 && s[0] == c {
        let d = s.drop_first();
        lemma_trim_leading_shape(d, c);
        let t = trim_leading(s, c);
        assert(t == trim_leading(d, c));
        assert forall|i: int| 0 <= i < s.len() - t.len() implies s[i] == c by {
            if i > 0 {
                assert(s[i] == d[i - 1]);
            }
        }
        assert(d.subrange(d.len() - t.len(), d.len() as int) =~= s.subrange(s.len() - t.len(), s.len() as int));
    } else {
        assert(s.subrange(0, s.len() as int) =~= s);
    }
}

/// On `#`s followed by six hexadecimal digits, `from_hex` reads the color
/// that `hex_to_rgb` reads, and neither stops the program.
pub proof fn from_hex_agrees_with_hex_to_rgb(hex: &str)
    requires
        trim_leading(hex@, '#').len() == 6,
        forall|i: int| 0 <= i < 6 ==> hex_digit_value(#[trigger] trim_leading(hex@, '#')[i]) is Some,
    ensures
        from_hex_defined(hex@),
        hex_to_rgb_defined(hex),
        spec_hex_to_rgb(hex) matches Ok((r, g, b)) && spec_from_hex(hex@) == Some(Color { r, g, b }),
{
    let s = hex@;
    let t = trim_leading(s, '#');
    lemma_trim_leading_shape(s, '#');
    let k = s.len() - 6;
    assert forall|i: int| 0 <= i < k implies s[i] == '#' by {}
    assert forall|i: int| k <= i < k + 6 implies hex_digit_value(#[trigger] s[i]) is Some by {
        assert(s[i] == t[i - k]);
        assert(hex_digit_value(t[i - k]) is Some);
    }
    lemma_hex_to_rgb_of_digits(hex, k);
    assert(chunk_count(t) == 3);
    assert(chunk(t, 0) =~= s.subrange(k, k + 2));
    assert(chunk(t, 1) =~= s.subrange(k + 2, k + 4));
    assert(chunk(t, 2) =~= s.subrange(k + 4, k + 6));
    assert forall|i: int| 0 <= i < 3 implies #[trigger] u8_from_hex_str(chunk(t, i)) is Some by {
        if i == 0 {
        } else if i == 1 {
        } else {
        }
    }
}

} // verus!
