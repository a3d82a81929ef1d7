//! Capitalising text for display.
use vstd::prelude::*;
use crate::text::{chars_of, split_on, split_exec, join, join_exec, push_char, index_of, lemma_index_of};

verus! {

/// The characters of `char::to_uppercase` for a character.
pub uninterp spec fn uppercase_of(c: char) -> Seq<char>;

/// The ASCII upper-case form of a character (other characters unchanged).
pub open spec fn ascii_upper(c: char) -> char {
    if 'a' <= c && c <= 'z' {
        ((c as u32) - 32) as char
    } else {
        c
    }
}

/// The ASCII lower-case form of a character (other characters unchanged).
pub open spec fn ascii_lower(c: char) -> char {
    if 'A' <= c && c <= 'Z' {
        ((c as u32) + 32) as char
    } else {
        c
    }
}

/// Every character of the text is ASCII.
pub open spec fn ascii_text(s: Seq<char>) -> bool {
    forall|i: int| 0 <= i < s.len() ==> (#[trigger] s[i] as u32) < 128
}

/// `char::to_uppercase`, collected. Claimed of it: the result depends on the
/// character alone, and an ASCII character maps to its ASCII upper case.
#[verifier::external_body]
fn to_uppercase(c: char) -> (res: String)
    ensures
        res@ == uppercase_of(c),
        (c as u32) < 128 ==> res@ == seq![ascii_upper(c)],
{
    c.to_uppercase().collect::<String>()
}

/// The characters of `str::to_lowercase` for a text.
pub uninterp spec fn lowercase_of(s: Seq<char>) -> Seq<char>;

/// `str::to_lowercase`. Claimed of it: the result depends on the text alone,
/// and an ASCII text maps each letter to its ASCII lower case.
#[verifier::external_body]
pub(crate) fn to_lowercase(s: &str) -> (res: String)
    ensures
        res@ == lowercase_of(s@),
        ascii_text(s@) ==> res@ == s@.map_values(|c: char| ascii_lower(c)),
{
    s.to_lowercase()
}

/// The text with its first character in upper case.
pub open spec fn capitalized(s: Seq<char>) -> Seq<char> {
    if s.len() == 0 {
        Seq::empty()
    } else {
        uppercase_of(s[0]) + s.drop_first()
    }
}

/// The text with its first character in ASCII upper case.
pub open spec fn ascii_capitalized(s: Seq<char>) -> Seq<char> {
    if s.len() == 0 {
        Seq::empty()
    } else {
        seq![ascii_upper(s[0])] + s.drop_first()
    }
}

/// `display_cased` on ASCII text: each piece with its first letter in ASCII
/// upper case.
pub open spec fn ascii_display_cased(s: Seq<char>) -> Seq<char> {
    join(split_on(s, '_').map_values(|p: Seq<char>| ascii_capitalized(p)), seq![' '])
}

/// The pieces of an ASCII text cut at a character are ASCII.
pub proof fn lemma_split_pieces_ascii(s: Seq<char>, c: char)
    requires
        ascii_text(s),
    ensures
        forall|i: int| 0 <= i < split_on(s, c).len() ==> ascii_text(#[trigger] split_on(s, c)[i]),
    decreases s.len(),
{
    match index_of(s, c) {
        Some(i) => if 0 <= i < s.len() {
            let rest = s.subrange(i + 1, s.len() as int);
            assert(ascii_text(rest)) by {
                assert forall|k: int| 0 <= k < rest.len() implies (#[trigger] rest[k] as u32) < 128 by {
                    assert(rest[k] == s[i + 1 + k]);
                }
            }
            lemma_split_pieces_ascii(rest, c);
            let head = s.subrange(0, i);
            assert(ascii_text(head)) by {
                assert forall|k: int| 0 <= k < head.len() implies (#[trigger] head[k] as u32) < 128 by {
                    assert(head[k] == s[k]);
                }
            }
            let parts = split_on(s, c);
            assert(parts == seq![head] + split_on(rest, c));
            assert forall|j: int| 0 <= j < parts.len() implies ascii_text(#[trigger] parts[j]) by {
                if j > 0 {
                    assert(parts[j] == split_on(rest, c)[j - 1]);
                }
            }
        } else {
        },
        None => {},
    }
}

/// The text cut at each `_`, each piece capitalised, joined with spaces.
pub open spec fn display_cased(s: Seq<char>) -> Seq<char> {
    join(split_on(s, '_').map_values(|p: Seq<char>| capitalized(p)), seq![' '])
}

fn capitalize_chars(cs: &Vec<char>) -> (res: String)
    ensures
        res@ == capitalized(cs@),
        ascii_text(cs@) ==> res@ == ascii_capitalized(cs@),
{
    if cs.len() == 0 {
        return String::new();
    }
    let mut s = to_uppercase(cs[0]);
    let ghost head = s@;
    assert((cs@[0] as u32) < 128 ==> head == seq![ascii_upper(cs@[0])]);
    let mut i: usize = 1;
    while i < cs.len()
        invariant
            1 <= i <= cs@.len(),
            head == uppercase_of(cs@[0]),
            s@ == head + cs@.subrange(1, i as int),
        decreases cs@.len() - i,
    {
        push_char(&mut s, cs[i]);
        assert(s@ =~= head + cs@.subrange(1, i + 1));
        i = i + 1;
    }
    assert(cs@.subrange(1, cs@.len() as int) =~= cs@.drop_first());
    s
}

fn display_case_chars(cs: &Vec<char>) -> (res: String)
    ensures
        res@ == display_cased(cs@),
        ascii_text(cs@) ==> res@ == ascii_display_cased(cs@),
{
    let parts = split_exec(cs, '_');
    let ghost ps = parts@.map_values(|v: Vec<char>| v@);
    proof {
        if ascii_text(cs@) {
            lemma_split_pieces_ascii(cs@, '_');
        }
    }
    let mut caps: Vec<String> = Vec::new();
    let mut i: usize = 0;
    while i < parts.len()
        invariant
            ps == parts@.map_values(|v: Vec<char>| v@),
            i <= parts@.len(),
            caps@.len() == i,
            forall|k: int| 0 <= k < i ==> #[trigger] caps@[k]@ == capitalized(ps[k]),
            ps == split_on(cs@, '_'),
            ascii_text(cs@) ==> forall|k: int| 0 <= k < ps.len() ==> ascii_text(#[trigger] ps[k]),
            ascii_text(cs@) ==> forall|k: int| 0 <= k < i ==> #[trigger] caps@[k]@ == ascii_capitalized(ps[k]),
        decreases parts@.len() - i,
    {
        assert(ps[i as int] == parts@[i as int]@);
        let c = capitalize_chars(&parts[i]);
        caps.push(c);
        i = i + 1;
    }
    let sep = " ";
    proof {
        reveal_strlit(" ");
    }
    let res = join_exec(&caps, sep);
    assert(ps == split_on(cs@, '_'));
    assert(sep@ =~= seq![' ']);
    assert(caps@.map_values(|p: String| p@) =~= ps.map_values(|p: Seq<char>| capitalized(p)));
    proof {
        if ascii_text(cs@) {
            assert(caps@.map_values(|p: String| p@) =~= ps.map_values(|p: Seq<char>| ascii_capitalized(p)));
        }
    }
    res
}

/// A text without `_` is shown in display case as its capitalisation.
pub proof fn display_case_of_one_word(s: Seq<char>)
    requires
        !s.contains('_'),
    ensures
        display_cased(s) == capitalized(s),
{
    lemma_index_of(s, '_');
    if index_of(s, '_') is Some {
        let i = index_of(s, '_')->0;
        assert(s[i] == '_');
    }
    assert(split_on(s, '_') == seq![s]);
    let parts = split_on(s, '_').map_values(|p: Seq<char>| capitalized(p));
    assert(parts =~= seq![capitalized(s)]);
}

/// Capitalising helpers on any text.
pub trait StringUtil {
    /// The characters of the text.
    spec fn text(&self) -> Seq<char>;

    /// The text with its first character in upper case.
    fn capitalize_first_letter(&self) -> (res: String)
        ensures
            res@ == capitalized(self.text()),
            ascii_text(self.text()) ==> res@ == ascii_capitalized(self.text()),
    ;

    /// `snake_case` written as `Snake Case`.
    fn display_case(&self) -> (res: String)
        ensures
            res@ == display_cased(self.text()),
            ascii_text(self.text()) ==> res@ == ascii_display_cased(self.text()),
    ;
}

impl StringUtil for str {
    open spec fn text(&self) -> Seq<char> {
        self@
    }

    fn capitalize_first_letter(&self) -> (res: String) {
        let cs = chars_of(self);
        capitalize_chars(&cs)
    }

    fn display_case(&self) -> (res: String) {
        let cs = chars_of(self);
        display_case_chars(&cs)
    }
}

impl StringUtil for String {
    open spec fn text(&self) -> Seq<char> {
        self@
    }

    fn capitalize_first_letter(&self) -> (res: String) {
        let cs = chars_of(self.as_str());
        capitalize_chars(&cs)
    }

    fn display_case(&self) -> (res: String) {
        let cs = chars_of(self.as_str());
        display_case_chars(&cs)
    }
}

} // verus!

