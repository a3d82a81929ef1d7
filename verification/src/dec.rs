//! What `u8::from_str` and `u64::from_str` accept and return: an optional
//! `+`, then at least one decimal digit, with a value that fits the type.
use vstd::prelude::*;

verus! {

/// The value of one decimal digit.
pub open spec fn dec_digit_value(c: char) -> Option<nat> {
    if '0' <= c && c <= '9' {
        Some((c as int - 48) as nat)
    } else {
        None
    }
}

/// The value of a run of decimal digits, most significant first.
pub open spec fn radix10_value(ds: Seq<char>) -> Option<nat>
    decreases ds.len(),
{
    if ds.len() == 0 {
        Some(0)
    } else {
        match (radix10_value(ds.drop_last()), dec_digit_value(ds.last())) {
            (Some(v), Some(d)) => Some(v * 10 + d),
            _ => None,
        }
    }
}

/// The number that an unsigned `from_str` reads, before the check that it
/// fits: an empty text, a lone `+`, a `-` or any other character gives none.
pub open spec fn dec_value(cs: Seq<char>) -> Option<nat> {
    if cs.len() == 0 {
        None
    } else if cs.len() == 1 && cs[0] == '+' {
        None
    } else {
        radix10_value(
            if cs[0] == '+' {
                cs.drop_first()
            } else {
                cs
            },
        )
    }
}

/// `u8::from_str`.
pub open spec fn u8_from_dec_str(cs: Seq<char>) -> Option<u8> {
    match dec_value(cs) {
        Some(v) => if v <= 255 {
            Some(v as u8)
        } else {
            None
        },
        None => None,
    }
}

/// `u64::from_str`.
pub open spec fn u64_from_dec_str(cs: Seq<char>) -> Option<u64> {
    match dec_value(cs) {
        Some(v) => if v <= u64::MAX {
            Some(v as u64)
        } else {
            None
        },
        None => None,
    }
}

fn dec_digit(c: char) -> (res: Option<u64>)
    ensures
        match dec_digit_value(c) {
            Some(v) => res == Some(v as u64),
            None => res is None,
        },
{
    if '0' <= c && c <= '9' {
        Some((c as u32 - 48) as u64)
    } else {
        None
    }
}

/// The number written in `cs[start..end]`, if there is one and it is at
/// most `bound`.
pub fn dec_value_bounded(cs: &Vec<char>, start: usize, end: usize, bound: u64) -> (res: Option<u64>)
    requires
        start <= end <= cs@.len(),
    ensures
        match dec_value(cs@.subrange(start as int, end as int)) {
            Some(v) => if v <= bound {
                res == Some(v as u64)
            } else {
                res is None
            },
            None => res is None,
        },
{
    let ghost t = cs@.subrange(start as int, end as int);
    if start == end {
        return None;
    }
    if end - start == 1 && cs[start] == '+' {
        return None;
    }
    let from = if cs[start] == '+' {
        start + 1
    } else {
        start
    };
    assert(cs@.subrange(from as int, end as int) == (if t[0] == '+' {
        t.drop_first()
    } else {
        t
    }));
    let mut acc: u64 = 0;
    let mut over = false;
    let mut i = from;
    assert(cs@.subrange(from as int, from as int) =~= Seq::<char>::empty());
    while i < end
        invariant
            from <= i <= end,
            end <= cs@.len(),
            !over ==> radix10_value(cs@.subrange(from as int, i as int)) == Some(acc as nat)
                && acc <= bound,
            over ==> (radix10_value(cs@.subrange(from as int, i as int)) is None
                || radix10_value(cs@.subrange(from as int, i as int))->0 > bound),
        decreases end - i,
    {
        let ghost prefix = cs@.subrange(from as int, i as int);
        assert(cs@.subrange(from as int, i + 1).drop_last() =~= prefix);
        assert(cs@.subrange(from as int, i + 1).last() == cs@[i as int]);
        let d = dec_digit(cs[i]);
        match d {
            Some(d) => {
                if !over {
                    let next: u128 = (acc as u128) * 10 + (d as u128);
                    if next > bound as u128 {
                        over = true;
                    } else {
                        acc = next as u64;
                    }
                }
            },
            None => {
                over = true;
            },
        }
        i = i + 1;
    }
    if over {
        None
    } else {
        Some(acc)
    }
}

} // verus!

verus! {

/// `u64::from_str`.
pub fn parse_u64(text: &str) -> (res: Option<u64>)
    ensures
        res == u64_from_dec_str(text@),
{
    let cs = crate::text::chars_of(text);
    assert(cs@.subrange(0, cs@.len() as int) =~= cs@);
    dec_value_bounded(&cs, 0, cs.len(), u64::MAX)
}

} // verus!
