//! What `u8::from_str_radix(text, 16)` accepts and returns, and how a byte
//! is written in hexadecimal.
use vstd::prelude::*;
use crate::text::{lower_digit, upper_digit, lower_digit_char, push_char};

verus! {

/// The value of one hexadecimal digit, in either case.
pub open spec fn hex_digit_value(c: char) -> Option<nat> {
    if '0' <= c && c <= '9' {
        Some((c as int - 48) as nat)
    } else if 'a' <= c && c <= 'f' {
        Some((c as int - 87) as nat)
    } else if 'A' <= c && c <= 'F' {
        Some((c as int - 55) as nat)
    } else {
        None
    }
}

/// The value of a run of hexadecimal digits, most significant first.
pub open spec fn radix16_value(ds: Seq<char>) -> Option<nat>
    decreases ds.len(),
{
    if ds.len() == 0 {
        Some(0)
    } else {
        match (radix16_value(ds.drop_last()), hex_digit_value(ds.last())) {
            (Some(v), Some(d)) => Some(v * 16 + d),
            _ => None,
        }
    }
}

/// `u8::from_str_radix(text, 16)`: an optional `+`, then hexadecimal digits
/// whose value fits in a byte. A lone sign, an empty text, a `-` or any other
/// character is refused.
pub open spec fn u8_from_hex_str(cs: Seq<char>) -> Option<u8> {
    if cs.len() == 0 {
        None
    } else if cs.len() == 1 && (cs[0] == '+' || cs[0] == '-') {
        None
    } else {
        let ds = if cs[0] == '+' {
            cs.drop_first()
        } else {
            cs
        };
        match radix16_value(ds) {
            Some(v) => if v <= 255 {
                Some(v as u8)
            } else {
                None
            },
            None => None,
        }
    }
}

/// A byte written in lower-case hexadecimal without leading zeros (`{:x}`).
pub open spec fn hex_lower(n: u8) -> Seq<char> {
    if n < 16 {
        seq![lower_digit(n as nat)]
    } else {
        seq![lower_digit((n / 16) as nat), lower_digit((n % 16) as nat)]
    }
}

pub fn hex_digit(c: char) -> (res: Option<u8>)
    ensures
        match hex_digit_value(c) {
            Some(v) => res == Some(v as u8),
            None => res is None,
        },
{
    if '0' <= c && c <= '9' {
        Some((c as u32 - 48) as u8)
    } else if 'a' <= c && c <= 'f' {
        Some((c as u32 - 87) as u8)
    } else if 'A' <= c && c <= 'F' {
        Some((c as u32 - 55) as u8)
    } else {
        None
    }
}

/// `u8::from_str_radix` in base 16 on the characters `cs[start..end]`,
/// which are at most two.
pub fn u8_from_hex_chars(cs: &Vec<char>, start: usize, end: usize) -> (res: Option<u8>)
    requires
        start <= end <= cs@.len(),
        end - start <= 2,
    ensures
        res == u8_from_hex_str(cs@.subrange(start as int, end as int)),
{
    let ghost t = cs@.subrange(start as int, end as int);
    if start == end {
        return None;
    }
    let first = cs[start];
    if end - start == 1 && (first == '+' || first == '-') {
        return None;
    }
    let from = if first == '+' {
        start + 1
    } else {
        start
    };
    let ghost ds = cs@.subrange(from as int, end as int);
    assert(ds == (if t[0] == '+' { t.drop_first() } else { t }));
    if from == end {
        assert(ds.len() == 0);
        return Some(0);
    }
    if end - from == 1 {
        let d = hex_digit(cs[from]);
        assert(ds.drop_last() =~= Seq::<char>::empty());
        assert(ds.last() == cs@[from as int]);
        proof {
            reveal_with_fuel(radix16_value, 2);
        }
        match d {
            Some(v) => {
                return Some(v);
            },
            None => {
                return None;
            },
        }
    }
    let hi = hex_digit(cs[from]);
    let lo = hex_digit(cs[from + 1]);
    assert(ds.drop_last().drop_last() =~= Seq::<char>::empty());
    assert(ds.drop_last().last() == cs@[from as int]);
    assert(ds.last() == cs@[from + 1]);
    proof {
        reveal_with_fuel(radix16_value, 3);
    }
    match (hi, lo) {
        (Some(h), Some(l)) => Some(h * 16 + l),
        _ => None,
    }
}

/// A digit below 16 reads back from its lower-case character.
pub proof fn lemma_lower_digit_value(d: nat)
    requires
        d < 16,
    ensures
        hex_digit_value(lower_digit(d)) == Some(d),
        lower_digit(d) != '+',
        lower_digit(d) != '-',
{
    let c = lower_digit(d);
    if d < 10 {
        assert(c as int == d + 48);
    } else {
        assert(c as int == d + 87);
    }
}

/// A digit below 16 reads back from its upper-case character.
pub proof fn lemma_upper_digit_value(d: nat)
    requires
        d < 16,
    ensures
        hex_digit_value(upper_digit(d)) == Some(d),
        upper_digit(d) != '+',
        upper_digit(d) != '-',
{
    let c = upper_digit(d);
    if d < 10 {
        assert(c as int == d + 48);
    } else {
        assert(c as int == d + 55);
    }
}

/// A byte as two hexadecimal digits, upper or lower case (`{:02X}`, `{:02x}`).
pub open spec fn pad2(n: u8, upper: bool) -> Seq<char> {
    if upper {
        seq![upper_digit((n / 16) as nat), upper_digit((n % 16) as nat)]
    } else {
        seq![lower_digit((n / 16) as nat), lower_digit((n % 16) as nat)]
    }
}

/// Two hexadecimal digits read back as the byte they spell.
pub proof fn lemma_pad2_parses(n: u8, upper: bool)
    ensures
        u8_from_hex_str(pad2(n, upper)) == Some(n),
        forall|i: int| 0 <= i < 2 ==> hex_digit_value(#[trigger] pad2(n, upper)[i]) is Some,
{
    let s = pad2(n, upper);
    reveal_with_fuel(radix16_value, 3);
    if upper {
        lemma_upper_digit_value((n / 16) as nat);
        lemma_upper_digit_value((n % 16) as nat);
    } else {
        lemma_lower_digit_value((n / 16) as nat);
        lemma_lower_digit_value((n % 16) as nat);
    }
    assert(s.drop_last().drop_last() =~= Seq::<char>::empty());
    assert(s.drop_last() =~= seq![s[0]]);
    assert((n / 16) * 16 + n % 16 == n);
}

/// Two hexadecimal digits always spell a byte.
pub proof fn lemma_two_digits_parse(cs: Seq<char>)
    requires
        cs.len() == 2,
        hex_digit_value(cs[0]) is Some,
        hex_digit_value(cs[1]) is Some,
    ensures
        u8_from_hex_str(cs) == Some((hex_digit_value(cs[0])->0 * 16 + hex_digit_value(cs[1])->0) as u8),
        hex_digit_value(cs[0])->0 * 16 + hex_digit_value(cs[1])->0 <= 255,
{
    reveal_with_fuel(radix16_value, 3);
    assert(cs.drop_last().drop_last() =~= Seq::<char>::empty());
    assert(cs.drop_last() =~= seq![cs[0]]);
    assert(cs[0] != '+');
}

/// Every byte reads back from its own hexadecimal spelling.
pub proof fn lemma_hex_lower_parses(n: u8)
    ensures
        u8_from_hex_str(hex_lower(n)) == Some(n),
{
    let s = hex_lower(n);
    reveal_with_fuel(radix16_value, 3);
    if n < 16 {
        lemma_lower_digit_value(n as nat);
        assert(s.drop_last() =~= Seq::<char>::empty());
    } else {
        lemma_lower_digit_value((n / 16) as nat);
        lemma_lower_digit_value((n % 16) as nat);
        assert(s.drop_last().drop_last() =~= Seq::<char>::empty());
        assert(s.drop_last() =~= seq![lower_digit((n / 16) as nat)]);
        assert((n / 16) * 16 + n % 16 == n);
    }
}

/// `format!("{:x}", n)`.
pub fn format_hex_lower(n: u8) -> (res: String)
    ensures
        res@ == hex_lower(n),
{
    let mut s = String::new();
    if n < 16 {
        push_char(&mut s, lower_digit_char(n));
    } else {
        push_char(&mut s, lower_digit_char(n / 16));
        push_char(&mut s, lower_digit_char(n % 16));
    }
    assert(s@ =~= hex_lower(n));
    s
}

} // verus!

verus! {

/// A number in upper-case hexadecimal without leading zeros.
pub open spec fn hex_upper(n: nat) -> Seq<char>
    decreases n,
{
    if n < 16 {
        seq![upper_digit(n)]
    } else {
        hex_upper(n / 16).push(upper_digit(n % 16))
    }
}

/// `s` preceded by zeros up to `width` characters.
pub open spec fn zero_pad(s: Seq<char>, width: nat) -> Seq<char> {
    if s.len() < width {
        Seq::new((width - s.len()) as nat, |i: int| '0') + s
    } else {
        s
    }
}

/// `format!("{:06X}", n)`, which is how Discord colors are written.
pub open spec fn hex6(n: u32) -> Seq<char> {
    zero_pad(hex_upper(n as nat), 6)
}

fn upper_digit_char(d: u32) -> (c: char)
    requires
        d < 16,
    ensures
        c == upper_digit(d as nat),
{
    if d < 10 {
        ((d as u8) + 48) as char
    } else {
        ((d as u8) + 55) as char
    }
}

pub fn format_hex6(n: u32) -> (res: String)
    ensures
        res@ == hex6(n),
{
    let mut low: Vec<char> = Vec::new();
    let mut m: u32 = n;
    while m >= 16
        invariant
            hex_upper(n as nat) == hex_upper(m as nat) + low@.reverse(),
        decreases m,
    {
        let c = upper_digit_char(m % 16);
        let ghost before = low@;
        low.push(c);
        assert(low@.reverse() =~= seq![c] + before.reverse());
        assert(hex_upper((m / 16) as nat).push(c) + before.reverse() =~= hex_upper((m / 16) as nat)
            + (seq![c] + before.reverse()));
        m = m / 16;
    }
    let ghost digits = hex_upper(n as nat);
    assert(digits.len() == 1 + low@.len());
    let mut s = String::new();
    let mut pad: usize = 0;
    let padding: usize = if low.len() < 5 { 5 - low.len() } else { 0 };
    while pad < padding
        invariant
            pad <= padding,
            s@ == Seq::new(pad as nat, |i: int| '0'),
        decreases padding - pad,
    {
        push_char(&mut s, '0');
        pad = pad + 1;
        assert(s@ =~= Seq::new(pad as nat, |i: int| '0'));
    }
    push_char(&mut s, upper_digit_char(m));
    let mut i: usize = low.len();
    while i > 0
        invariant
            i <= low@.len(),
            m < 16,
            hex_upper(n as nat) == hex_upper(m as nat) + low@.reverse(),
            s@ == Seq::new(padding as nat, |k: int| '0') + hex_upper(m as nat) + low@.subrange(
                i as int,
                low@.len() as int,
            ).reverse(),
        decreases i,
    {
        i = i - 1;
        push_char(&mut s, low[i]);
        assert(low@.subrange(i as int, low@.len() as int).reverse() =~= low@.subrange(
            (i + 1) as int,
            low@.len() as int,
        ).reverse().push(low@[i as int]));
    }
    assert(low@.subrange(0, low@.len() as int) =~= low@);
    assert(s@ =~= hex6(n));
    s
}

} // verus!
