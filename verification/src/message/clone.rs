//! What goes into a message that the bot clones through a webhook, and what
//! it keeps of it when the original is edited.
use vstd::prelude::*;
use crate::ids::{ChannelId, GuildId, MessageId, UserId, WebhookId};
use crate::embed::{Button, ButtonStyle, row_view};
use crate::message::emoji;
use crate::message::mention::{self, MentionType};
use crate::text::{
    chars_of, contains, dec_digits, find, find_from, lemma_find_from, occurs_at,
    push_char, starts_with, starts_with_exec, string_of, u64_to_string, lower_digit,
};

verus! {

/// The number of bytes that UTF-8 spends on a character.
pub open spec fn char_width(c: char) -> nat {
    if (c as u32) < 0x80 {
        1
    } else if (c as u32) < 0x800 {
        2
    } else if (c as u32) < 0x10000 {
        3
    } else {
        4
    }
}

/// The number of bytes of a text in UTF-8.
pub open spec fn utf8_len(s: Seq<char>) -> nat
    decreases s.len(),
{
    if s.len() == 0 {
        0
    } else {
        char_width(s[0]) + utf8_len(s.drop_first())
    }
}

/// The longest start of `s` that fits in `n` bytes.
pub open spec fn truncate_bytes(s: Seq<char>, n: nat) -> Seq<char>
    decreases s.len(),
{
    if s.len() == 0 {
        s
    } else if char_width(s[0]) > n {
        Seq::empty()
    } else {
        seq![s[0]] + truncate_bytes(s.drop_first(), (n - char_width(s[0])) as nat)
    }
}

/// `String::truncate(n)` stops the program when byte `n` falls inside a character.
pub open spec fn truncate_defined(s: Seq<char>, n: nat) -> bool {
    utf8_len(s) <= n || utf8_len(truncate_bytes(s, n)) == n
}

fn char_width_exec(c: char) -> (w: usize)
    ensures
        w == char_width(c),
{
    let u = c as u32;
    if u < 0x80 {
        1
    } else if u < 0x800 {
        2
    } else if u < 0x10000 {
        3
    } else {
        4
    }
}

/// Whether `String::truncate(n)` runs on the text without stopping the program.
pub fn truncate_is_defined(s: &str, n: usize) -> (res: bool)
    ensures
        res == truncate_defined(s@, n as nat),
{
    let cs = chars_of(s);
    let len = cs.len();
    let mut i: usize = 0;
    let mut used: usize = 0;
    assert(cs@.subrange(0, len as int) =~= cs@);
    while i < len
        invariant
            len == cs@.len(),
            cs@ == s@,
            i <= len,
            used <= n,
            utf8_len(cs@) == used + utf8_len(cs@.subrange(i as int, len as int)),
            utf8_len(truncate_bytes(cs@, n as nat)) == used + utf8_len(
                truncate_bytes(cs@.subrange(i as int, len as int), (n - used) as nat),
            ),
        decreases len - i,
    {
        let rest = Ghost(cs@.subrange(i as int, len as int));
        assert(rest@.drop_first() =~= cs@.subrange(i + 1, len as int));
        assert(rest@[0] == cs@[i as int]);
        let w = char_width_exec(cs[i]);
        if w > n - used {
            assert(truncate_bytes(rest@, (n - used) as nat) =~= Seq::<char>::empty());
            assert(utf8_len(rest@) >= w);
            return used == n;
        }
        let ghost tail = truncate_bytes(cs@.subrange(i + 1, len as int), (n - used - w) as nat);
        assert(truncate_bytes(rest@, (n - used) as nat) == seq![cs@[i as int]] + tail);
        assert((seq![cs@[i as int]] + tail).drop_first() =~= tail);
        used = used + w;
        i = i + 1;
    }
    assert(cs@.subrange(len as int, len as int) =~= Seq::<char>::empty());
    true
}

/// `String::truncate(n)`: keeps the characters that fit in `n` bytes.
pub fn truncate(s: &str, n: usize) -> (res: String)
    requires
        truncate_defined(s@, n as nat),
    ensures
        res@ == truncate_bytes(s@, n as nat),
{
    let cs = chars_of(s);
    let len = cs.len();
    let mut out = String::new();
    let mut i: usize = 0;
    let mut left: usize = n;
    assert(cs@.skip(0) =~= cs@);
    assert(out@ + truncate_bytes(cs@.skip(0), n as nat) =~= truncate_bytes(s@, n as nat));
    while i < len
        invariant
            len == cs@.len(),
            cs@ == s@,
            i <= len,
            truncate_bytes(s@, n as nat) == out@ + truncate_bytes(cs@.skip(i as int), left as nat),
        decreases len - i,
    {
        let c = cs[i];
        let w = char_width_exec(c);
        assert(cs@.skip(i as int)[0] == c);
        assert(cs@.skip(i as int).drop_first() =~= cs@.skip(i + 1));
        if w > left {
            assert(out@ + Seq::<char>::empty() =~= out@);
            return out;
        }
        let ghost before = out@;
        push_char(&mut out, c);
        assert(before + (seq![c] + truncate_bytes(cs@.skip(i + 1), (left - w) as nat)) =~= out@
            + truncate_bytes(cs@.skip(i + 1), (left - w) as nat));
        left = left - w;
        i = i + 1;
    }
    assert(cs@.skip(len as int) =~= Seq::<char>::empty());
    assert(out@ + Seq::<char>::empty() =~= out@);
    out
}

/// The text of the curved emoji that opens a reply quote.
pub open spec fn curved() -> Seq<char> {
    emoji::spec_create("1034653422416302151"@, "curved"@)
}

/// The text of the straight emoji that closes a reply quote.
pub open spec fn straight() -> Seq<char> {
    emoji::spec_create("1034653871613681714"@, "straight"@)
}

/// The replied-to text as the quote shows it: its first 50 bytes and `...`.
pub open spec fn spec_preview(content: Seq<char>) -> Seq<char> {
    truncate_bytes(content, 50) + "..."@
}

/// The quote put in front of a cloned reply:
/// `{curved}\t<@author> {preview}\n{straight}\n`.
pub open spec fn spec_reply_header(content: Seq<char>, author: u64) -> Seq<char> {
    curved() + "\t"@ + mention::spec_create(dec_digits(author as nat), MentionType::User) + " "@
        + spec_preview(content) + "\n"@ + straight() + "\n"@
}

/// The message that a cloned message answers.
pub struct ReplySource {
    pub content: String,
    pub author: UserId,
}

pub fn reply_header(content: &str, author: UserId) -> (res: String)
    requires
        truncate_defined(content@, 50),
    ensures
        res@ == spec_reply_header(content@, author.0),
{
    let curved = emoji::create(emoji::CURVED, "curved");
    let straight = emoji::create(emoji::STRAIGHT, "straight");
    let id = u64_to_string(author.0);
    let who = mention::create(id.as_str(), MentionType::User);
    let mut preview = truncate(content, 50);
    preview.append("...");
    let mut s = curved;
    s.append("\t");
    s.append(who.as_str());
    s.append(" ");
    s.append(preview.as_str());
    s.append("\n");
    s.append(straight.as_str());
    s.append("\n");
    s
}

/// The text of a cloned message: the reply quote when replies are cloned and
/// the message answers another, then the message's own content.
pub open spec fn spec_clone_text(clone_reply: bool, reply: Option<ReplySource>, content: Seq<char>) -> Seq<char> {
    if clone_reply && reply is Some {
        spec_reply_header(reply->0.content@, reply->0.author.0) + content
    } else {
        content
    }
}

pub fn clone_text(clone_reply: bool, reply: &Option<ReplySource>, content: &str) -> (res: String)
    requires
        clone_reply && reply is Some ==> truncate_defined(reply->0.content@, 50),
    ensures
        res@ == spec_clone_text(clone_reply, *reply, content@),
{
    if clone_reply {
        if let Some(r) = reply {
            let mut s = reply_header(r.content.as_str(), r.author);
            s.append(content);
            return s;
        }
    }
    string_of(content)
}

/// What an edit keeps of a clone's old text: everything before the first
/// straight emoji, when that part starts with the curved emoji, closed again
/// by the straight emoji and an empty line.
pub open spec fn spec_reply_prefix(old: Seq<char>) -> Option<Seq<char>> {
    let first = match find_from(old, straight(), 0) {
        Some(i) => old.subrange(0, i),
        None => old,
    };
    if starts_with(first, curved()) {
        Some(first + straight() + "\n\n"@)
    } else {
        None
    }
}

pub fn reply_prefix(old: &str) -> (res: Option<String>)
    ensures
        match spec_reply_prefix(old@) {
            Some(p) => res matches Some(s) && s@ == p,
            None => res is None,
        },
{
    let cs = chars_of(old);
    let st_text = emoji::create(emoji::STRAIGHT, "straight");
    let cv_text = emoji::create(emoji::CURVED, "curved");
    let st = chars_of(st_text.as_str());
    let cv = chars_of(cv_text.as_str());
    proof {
        lemma_find_from(cs@, st@, 0);
    }
    assert(st@ == straight());
    assert(cv@ == curved());
    let found = find(&cs, &st);
    let end = match found {
        Some(i) => i,
        None => cs.len(),
    };
    proof {
        if let Some(j) = find_from(cs@, st@, 0) {
            assert(occurs_at(cs@, st@, j));
        }
    }
    let mut first: Vec<char> = Vec::new();
    let mut text = String::new();
    let mut i: usize = 0;
    while i < end
        invariant
            end <= cs@.len(),
            end == (match find_from(cs@, st@, 0) {
                Some(j) => j,
                None => cs@.len() as int,
            }),
            i <= end,
            first@ == cs@.subrange(0, i as int),
            text@ == first@,
        decreases end - i,
    {
        first.push(cs[i]);
        push_char(&mut text, cs[i]);
        i = i + 1;
    }
    proof {
        if find_from(cs@, st@, 0) is None {
            assert(cs@.subrange(0, cs@.len() as int) =~= cs@);
        }
    }
    assert(st@ == straight());
    assert(cv@ == curved());
    proof {
        match find_from(old@, straight(), 0) {
            Some(j) => {
                assert(first@ =~= old@.subrange(0, j));
            },
            None => {
                assert(first@ =~= old@);
            },
        }
    }
    assert(first@ == (match find_from(old@, straight(), 0) {
        Some(i) => old@.subrange(0, i),
        None => old@,
    }));
    if starts_with_exec(&first, &cv) {
        text.append(st_text.as_str());
        text.append("\n\n");
        Some(text)
    } else {
        None
    }
}

/// The new text of a clone whose original was edited: the kept reply quote,
/// if any, then the new content.
pub open spec fn spec_edited_text(old: Seq<char>, new: Seq<char>) -> Seq<char> {
    match spec_reply_prefix(old) {
        Some(p) => p + new,
        None => new,
    }
}

pub fn edited_text(old: &str, new: &str) -> (res: String)
    ensures
        res@ == spec_edited_text(old@, new@),
{
    match reply_prefix(old) {
        Some(mut p) => {
            p.append(new);
            p
        },
        None => string_of(new),
    }
}

/// The name of the webhook through which the bot clones messages.
pub const INTERNAL_WEBHOOK: &'static str = "Oreo's Internals";

pub open spec fn spec_is_internal_webhook(name: Option<String>) -> bool {
    name matches Some(n) && n@ == "Oreo's Internals"@
}

/// Whether a webhook, by its name, is the bot's own.
pub fn is_internal_webhook(name: &Option<String>) -> (res: bool)
    ensures
        res == spec_is_internal_webhook(*name),
{
    match name {
        Some(n) => {
            let own = string_of(INTERNAL_WEBHOOK);
            *n == own
        },
        None => false,
    }
}

/// The first of the webhooks, by their names, that is the bot's own.
pub fn find_internal_webhook(names: &Vec<Option<String>>) -> (res: Option<usize>)
    ensures
        match res {
            Some(i) => i < names@.len() && spec_is_internal_webhook(names@[i as int])
                && forall|j: int| 0 <= j < i ==> !spec_is_internal_webhook(#[trigger] names@[j]),
            None => forall|j: int| 0 <= j < names@.len() ==> !spec_is_internal_webhook(#[trigger] names@[j]),
        },
{
    let mut i: usize = 0;
    while i < names.len()
        invariant
            i <= names@.len(),
            forall|j: int| 0 <= j < i ==> !spec_is_internal_webhook(#[trigger] names@[j]),
        decreases names@.len() - i,
    {
        if is_internal_webhook(&names[i]) {
            return Some(i);
        }
        i = i + 1;
    }
    None
}

} // verus!

verus! {

/// No tab, space or line break stands in the straight emoji, and it is
/// longer than the curved one.
proof fn lemma_emoji_shapes()
    ensures
        straight().len() == 31,
        curved().len() == 29,
        straight()[1] == ':',
        forall|k: int|
            0 <= k < straight().len() ==> straight()[k] != '\t' && straight()[k] != ' '
                && straight()[k] != '\n',
{
    reveal_strlit("<:");
    reveal_strlit(":");
    reveal_strlit(">");
    reveal_strlit("straight");
    reveal_strlit("curved");
    reveal_strlit("1034653871613681714");
    reveal_strlit("1034653422416302151");
}

/// The characters of a decimal number are digits.
proof fn lemma_dec_digits_are_digits(n: nat)
    ensures
        forall|k: int| 0 <= k < dec_digits(n).len() ==> '0' <= #[trigger] dec_digits(n)[k] <= '9',
    decreases n,
{
    if n >= 10 {
        lemma_dec_digits_are_digits(n / 10);
        let d = n % 10;
        assert(lower_digit(d) as int == d + 48);
        let t = dec_digits(n / 10);
        assert(dec_digits(n) == t.push(lower_digit(d)));
        assert forall|k: int| 0 <= k < dec_digits(n).len() implies '0' <= #[trigger] dec_digits(n)[k]
            <= '9' by {
            if k < t.len() {
                assert(dec_digits(n)[k] == t[k]);
            } else {
                assert(dec_digits(n)[k] == lower_digit(d));
            }
        }
    } else {
        assert(lower_digit(n) as int == n + 48);
    }
}

/// Finding `p` behind a separator that `p` does not hold, after a part that
/// does not hold `p`, is finding it in what follows the separator.
proof fn lemma_find_after_separator(a: Seq<char>, x: char, rest: Seq<char>, p: Seq<char>)
    requires
        !contains(a, p),
        forall|k: int| 0 <= k < p.len() ==> p[k] != x,
    ensures
        find_from(a + seq![x] + rest, p, 0) == (match find_from(rest, p, 0) {
            Some(j) => Some(j + a.len() + 1),
            None => None::<int>,
        }),
{
    let s = a + seq![x] + rest;
    let off = a.len() + 1;
    lemma_find_from(s, p, 0);
    lemma_find_from(rest, p, 0);
    assert forall|i: int| 0 <= i < off implies !occurs_at(s, p, i) by {
        if occurs_at(s, p, i) {
            if i + p.len() <= a.len() {
                assert(a.subrange(i, i + p.len()) =~= s.subrange(i, i + p.len()));
                assert(occurs_at(a, p, i));
            } else {
                assert(s.subrange(i, i + p.len())[a.len() - i] == s[a.len() as int]);
                assert(p[a.len() - i] == x);
            }
        }
    }
    assert forall|j: int| 0 <= j implies occurs_at(s, p, j + off) == occurs_at(rest, p, j) by {
        if j + off + p.len() <= s.len() {
            assert(s.subrange(j + off, j + off + p.len()) =~= rest.subrange(j, j + p.len()));
        }
    }
    match find_from(rest, p, 0) {
        Some(j) => {
            assert(occurs_at(s, p, j + off));
            match find_from(s, p, 0) {
                Some(m) => {
                    if m < j + off {
                        if m >= off {
                            assert(occurs_at(rest, p, m - off));
                        }
                    }
                },
                None => {
                },
            }
        },
        None => {
            match find_from(s, p, 0) {
                Some(m) => {
                    if m >= off {
                        assert(occurs_at(rest, p, m - off));
                    }
                },
                None => {
                },
            }
        },
    }
}

/// When the original of a cloned reply is edited, the clone keeps its reply
/// quote: the new text is the quote, one more line break, and the new content.
/// This needs the quoted preview not to hold the straight emoji itself.
pub proof fn reply_quote_survives_edit(content: Seq<char>, author: u64, original: Seq<char>, new: Seq<char>)
    requires
        !contains(spec_preview(content), straight()),
    ensures
        spec_edited_text(spec_reply_header(content, author) + original, new) == spec_reply_header(
            content,
            author,
        ) + "\n"@ + new,
{
    reveal_strlit("\t");
    reveal_strlit(" ");
    reveal_strlit("\n");
    reveal_strlit("\n\n");
    reveal_strlit("<@");
    reveal_strlit(">");
    lemma_emoji_shapes();
    let c = curved();
    let st = straight();
    let d = dec_digits(author as nat);
    let m = mention::spec_create(d, MentionType::User);
    let p = spec_preview(content);
    let h = spec_reply_header(content, author);
    let s = h + original;
    let r3 = st + seq!['\n'] + original;
    let r2 = p + seq!['\n'] + r3;
    let r1 = m + seq![' '] + r2;
    assert(s =~= c + seq!['\t'] + r1);
    assert(r3.subrange(0, st.len() as int) =~= st);
    assert(occurs_at(r3, st, 0));
    assert(find_from(r3, st, 0) == Some(0int));
    lemma_find_after_separator(p, '\n', r3, st);
    lemma_dec_digits_are_digits(author as nat);
    assert(!contains(m, st)) by {
        if contains(m, st) {
            let i = choose|i: int| occurs_at(m, st, i);
            assert(m.subrange(i, i + st.len())[1] == st[1]);
            assert(m[i + 1] == ':');
            if i + 1 >= 2 && i + 1 < 2 + d.len() {
                assert(d[i + 1 - 2] == m[i + 1]);
            }
        }
    }
    lemma_find_after_separator(m, ' ', r2, st);
    crate::text::lemma_not_contains_short(c, st);
    lemma_find_after_separator(c, '\t', r1, st);
    let pos: int = (c.len() + 1 + m.len() + 1 + p.len() + 1) as int;
    assert(find_from(s, st, 0) == Some(pos));
    let first = s.subrange(0, pos);
    assert(first =~= c + seq!['\t'] + m + seq![' '] + p + seq!['\n']);
    assert(first.subrange(0, c.len() as int) =~= c);
    assert(starts_with(first, c));
    assert(h =~= first + st + seq!['\n']);
    assert(spec_reply_prefix(s) == Some(first + st + "\n\n"@));
    assert(first + st + "\n\n"@ + new =~= h + "\n"@ + new);
}

/// Where a message is: its server (none in direct messages), channel and id.
#[derive(Debug, Clone, Copy, PartialEq, Eq, Structural)]
pub struct MessageRef {
    pub guild: Option<GuildId>,
    pub channel: ChannelId,
    pub id: MessageId,
}

/// The address of a message, as serenity's `Message::link` writes it.
pub open spec fn spec_message_link(m: MessageRef) -> Seq<char> {
    match m.guild {
        Some(g) => "https://discord.com/channels/"@ + dec_digits(g.0 as nat) + "/"@ + dec_digits(
            m.channel.0 as nat,
        ) + "/"@ + dec_digits(m.id.0 as nat),
        None => "https://discord.com/channels/@me/"@ + dec_digits(m.channel.0 as nat) + "/"@ + dec_digits(
            m.id.0 as nat,
        ),
    }
}

/// The address of a message.
pub fn message_link(m: MessageRef) -> (res: String)
    ensures
        res@ == spec_message_link(m),
{
    let mut s = match m.guild {
        Some(g) => {
            let mut t = string_of("https://discord.com/channels/");
            t.append(u64_to_string(g.0).as_str());
            t
        },
        None => string_of("https://discord.com/channels/@me"),
    };
    s.append("/");
    s.append(u64_to_string(m.channel.0).as_str());
    s.append("/");
    s.append(u64_to_string(m.id.0).as_str());
    proof {
        reveal_strlit("https://discord.com/channels/@me");
        reveal_strlit("https://discord.com/channels/@me/");
        reveal_strlit("/");
    }
    assert(s@ =~= spec_message_link(m));
    s
}

/// The view of a button that opens a link.
pub open spec fn link_button_view(label: Seq<char>, url: Seq<char>) -> <Button as View>::V {
    (None, Some(url), label, ButtonStyle::Link, false)
}

fn link_button(label: &str, url: String) -> (res: Button)
    ensures
        res@ == link_button_view(label@, url@),
{
    Button { custom_id: None, url: Some(url), label: string_of(label), style: ButtonStyle::Link, disabled: false }
}

/// The row of link buttons under a clone: "Jump to original" when asked
/// for, then "Jump to reply" when replies are cloned and the message
/// answers another.
pub open spec fn spec_clone_link_row(
    link_to_prev: bool,
    original: MessageRef,
    clone_reply: bool,
    reply: Option<MessageRef>,
) -> Seq<<Button as View>::V> {
    (if link_to_prev {
        seq![link_button_view("Jump to original"@, spec_message_link(original))]
    } else {
        Seq::empty()
    }) + (if clone_reply && reply is Some {
        seq![link_button_view("Jump to reply"@, spec_message_link(reply->0))]
    } else {
        Seq::empty()
    })
}

pub fn clone_link_row(link_to_prev: bool, original: MessageRef, clone_reply: bool, reply: Option<MessageRef>) -> (res: Vec<Button>)
    ensures
        row_view(res@) == spec_clone_link_row(link_to_prev, original, clone_reply, reply),
        link_to_prev ==> res@.len() >= 1 && res@[0]@ == (
            None::<Seq<char>>,
            Some(spec_message_link(original)),
            "Jump to original"@,
            ButtonStyle::Link,
            false,
        ),
{
    let mut row: Vec<Button> = Vec::new();
    if link_to_prev {
        row.push(link_button("Jump to original", message_link(original)));
    }
    let ghost first = row_view(row@);
    if clone_reply {
        if let Some(r) = reply {
            row.push(link_button("Jump to reply", message_link(r)));
        }
    }
    assert(row_view(row@) =~= spec_clone_link_row(link_to_prev, original, clone_reply, reply));
    row
}

/// The link row under a clone: with `link_to_prev` its first button opens
/// the original message and reads "Jump to original", whatever the reply;
/// without it no button reads so. A "Jump to reply" button to the answered
/// message comes last exactly when replies are cloned and the message is a
/// reply, and nothing else is in the row.
pub proof fn clone_link_row_laws(
    link_to_prev: bool,
    original: MessageRef,
    clone_reply: bool,
    reply: Option<MessageRef>,
)
    ensures
        ({
            let row = spec_clone_link_row(link_to_prev, original, clone_reply, reply);
            &&& row.len() == (if link_to_prev { 1int } else { 0int }) + (if clone_reply && reply is Some {
                1int
            } else {
                0int
            })
            &&& link_to_prev ==> row[0] == (
                None::<Seq<char>>,
                Some(spec_message_link(original)),
                "Jump to original"@,
                ButtonStyle::Link,
                false,
            )
            &&& !link_to_prev ==> forall|i: int| 0 <= i < row.len() ==> row[i].2 != "Jump to original"@
            &&& (clone_reply && reply is Some) ==> row[row.len() - 1] == (
                None::<Seq<char>>,
                Some(spec_message_link(reply->0)),
                "Jump to reply"@,
                ButtonStyle::Link,
                false,
            )
        }),
{
    reveal_strlit("Jump to original");
    reveal_strlit("Jump to reply");
    let row = spec_clone_link_row(link_to_prev, original, clone_reply, reply);
    if !link_to_prev {
        assert forall|i: int| 0 <= i < row.len() implies row[i].2 != "Jump to original"@ by {
            assert(row[i].2 == "Jump to reply"@);
            assert("Jump to reply"@[8] != "Jump to original"@[8]);
        }
    }
}

/// A clone kept in step with its original, through the webhook that sent it.
#[derive(Debug, Clone, Copy, PartialEq, Eq, Structural)]
pub struct CloneLink {
    pub clone_id: MessageId,
    pub original_id: MessageId,
    pub webhook_id: WebhookId,
}

impl CloneLink {
    /// An edit or a deletion of this message is passed on to the clone.
    pub fn follows(&self, message: MessageId) -> (res: bool)
        ensures
            res == (message == self.original_id),
    {
        message.0 == self.original_id.0
    }
}

/// The new text of a clone after its original was edited: the kept reply
/// quote and the new content, or no change when the edit carries none.
pub fn synced_content(old: &str, new: &Option<String>) -> (res: Option<String>)
    ensures
        match new {
            Some(n) => res matches Some(t) && t@ == spec_edited_text(old@, n@),
            None => res is None,
        },
{
    match new {
        Some(n) => Some(edited_text(old, n.as_str())),
        None => None,
    }
}

} // verus!
