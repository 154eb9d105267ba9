//! Text primitives shared by the readers, the renderers and the file-name rules.
//!
//! Text is modelled as `Seq<char>`, the view of `str` and `String`.

use vstd::prelude::*;

verus! {

/// The lowercase form of a text, as `str::to_lowercase` computes it.
pub uninterp spec fn lowercase(s: Seq<char>) -> Seq<char>;

/// Whether a character is whitespace: it has the property `White_Space` of
/// Unicode.
pub open spec fn is_white_space(c: char) -> bool {
    let n = c as u32;
    ||| 0x09 <= n <= 0x0D
    ||| n == 0x20
    ||| n == 0x85
    ||| n == 0xA0
    ||| n == 0x1680
    ||| 0x2000 <= n <= 0x200A
    ||| n == 0x2028
    ||| n == 0x2029
    ||| n == 0x202F
    ||| n == 0x205F
    ||| n == 0x3000
}

/// A text without its leading whitespace.
pub open spec fn trimmed_start(s: Seq<char>) -> Seq<char>
    decreases s.len(),
{
    if s.len() > 0 && is_white_space(s.first()) {
        trimmed_start(s.drop_first())
    } else {
        s
    }
}

/// A text without its trailing whitespace.
pub open spec fn trimmed_end(s: Seq<char>) -> Seq<char>
    decreases s.len(),
{
    if s.len() > 0 && is_white_space(s.last()) {
        trimmed_end(s.drop_last())
    } else {
        s
    }
}

/// A text without its leading and trailing whitespace.
pub open spec fn trimmed(s: Seq<char>) -> Seq<char> {
    trimmed_end(trimmed_start(s))
}

/// A text is blank when nothing but whitespace is in it.
pub open spec fn is_blank(s: Seq<char>) -> bool {
    forall|i: int| 0 <= i < s.len() ==> is_white_space(#[trigger] s[i])
}

/// The text `s` with a backslash put before every pipe character.
pub open spec fn escaped(s: Seq<char>) -> Seq<char>
    decreases s.len(),
{
    if s.len() == 0 {
        Seq::empty()
    } else if s.last() == '|' {
        escaped(s.drop_last()).push('\\').push('|')
    } else {
        escaped(s.drop_last()).push(s.last())
    }
}

/// Appends one character to a string.
///
/// Wraps `String::push`, which puts the given character at the end of the string
/// and leaves the rest as it was.
#[verifier::external_body]
pub(crate) fn push_char(s: &mut String, c: char)
    ensures
        final(s)@ == old(s)@.push(c),
{
    s.push(c)
}

/// The lowercase form of `s`.
///
/// Wraps `str::to_lowercase`. Its result follows the Unicode case mappings and depends
/// on the text alone; the contract gives it the name `lowercase`.
#[verifier::external_body]
pub(crate) fn to_lowercase(s: &str) -> (out: String)
    ensures
        out@ == lowercase(s@),
{
    s.to_lowercase()
}

/// `s` without leading and trailing whitespace.
///
/// Wraps `str::trim`, which takes away the whitespace at both ends of the
/// text; whitespace is what has Unicode's property `White_Space`.
#[verifier::external_body]
pub(crate) fn trim(s: &str) -> (out: &str)
    ensures
        out@ == trimmed(s@),
{
    s.trim()
}

/// Without its leading whitespace, a text is empty or starts with a character
/// that is no whitespace; what was taken away is whitespace.
proof fn lemma_trimmed_start(s: Seq<char>)
    ensures
        trimmed_start(s).len() <= s.len(),
        trimmed_start(s) == s.skip(s.len() - trimmed_start(s).len()),
        forall|i: int| 0 <= i < s.len() - trimmed_start(s).len() ==> is_white_space(#[trigger] s[i]),
        trimmed_start(s).len() > 0 ==> !is_white_space(trimmed_start(s).first()),
    decreases s.len(),
{
    if s.len() > 0 && is_white_space(s.first()) {
        let rest = s.drop_first();
        lemma_trimmed_start(rest);
        let cut = rest.len() - trimmed_start(rest).len();
        assert(rest.skip(cut) == s.skip(cut + 1));
        assert forall|i: int| 0 <= i < cut + 1 implies is_white_space(#[trigger] s[i]) by {
            if i > 0 {
                assert(s[i] == rest[i - 1]);
            }
        }
    } else {
        assert(s.skip(0) == s);
    }
}

/// Without its trailing whitespace, a text is empty exactly where it is blank.
proof fn lemma_trimmed_end(s: Seq<char>)
    ensures
        trimmed_end(s).len() == 0 <==> is_blank(s),
    decreases s.len(),
{
    if s.len() > 0 && is_white_space(s.last()) {
        let front = s.drop_last();
        lemma_trimmed_end(front);
        if is_blank(front) {
            assert forall|i: int| 0 <= i < s.len() implies is_white_space(#[trigger] s[i]) by {
                if i < front.len() {
                    assert(s[i] == front[i]);
                }
            }
        }
        if is_blank(s) {
            assert forall|i: int| 0 <= i < front.len() implies is_white_space(
                #[trigger] front[i],
            ) by {
                assert(front[i] == s[i]);
            }
        }
    } else if s.len() > 0 {
        assert(!is_white_space(s[s.len() - 1]));
    }
}

/// A text is blank exactly where nothing is left of it without its leading
/// and trailing whitespace.
pub proof fn blank_text_trims_to_nothing(s: Seq<char>)
    ensures
        is_blank(s) <==> trimmed(s).len() == 0,
{
    let t = trimmed_start(s);
    let cut = s.len() - t.len();
    lemma_trimmed_start(s);
    lemma_trimmed_end(t);
    if is_blank(s) {
        if t.len() > 0 {
            assert(t.first() == s[cut]);
        }
    }
    if is_blank(t) {
        assert forall|i: int| 0 <= i < s.len() implies is_white_space(#[trigger] s[i]) by {
            if i >= cut {
                assert(s[i] == t[i - cut]);
            }
        }
    }
}

/// Tells whether a text holds nothing but whitespace.
pub fn blank(s: &str) -> (b: bool)
    ensures
        b == is_blank(s@),
{
    proof {
        blank_text_trims_to_nothing(s@);
    }
    trim(s).is_empty()
}

/// Escapes the pipe characters of a table cell, so that none of them ends the cell.
pub fn escape_pipes(cell: &str) -> (out: String)
    ensures
        out@ == escaped(cell@),
{
    let mut out = String::new();
    for c in it: cell.chars()
        invariant
            it.seq() == cell@,
            out@ == escaped(cell@.take(it.index() as int)),
    {
        proof {
            let n = it.index() as int;
            assert(cell@.take(n + 1).drop_last() == cell@.take(n));
            assert(cell@.take(n + 1).last() == c);
        }
        if c == '|' {
            push_char(&mut out, '\\');
        }
        push_char(&mut out, c);
    }
    proof {
        assert(cell@.take(cell@.len() as int) == cell@);
    }
    out
}

/// Tells whether two texts are the same.
pub fn same_text(a: &str, b: &str) -> (same: bool)
    ensures
        same == (a@ == b@),
{
    a.to_owned() == b.to_owned()
}

/// In an escaped text every pipe stands directly behind a backslash.
pub proof fn escaped_pipes_follow_backslashes(s: Seq<char>, i: int)
    requires
        0 <= i < escaped(s).len(),
        escaped(s)[i] == '|',
    ensures
        i > 0 && escaped(s)[i - 1] == '\\',
    decreases s.len(),
{
    if s.len() > 0 {
        let head = escaped(s.drop_last());
        if i < head.len() {
            escaped_pipes_follow_backslashes(s.drop_last(), i);
        }
    }
}

/// A text without pipes is its own escaped form.
pub proof fn text_without_pipes_is_unchanged(s: Seq<char>)
    requires
        forall|i: int| 0 <= i < s.len() ==> s[i] != '|',
    ensures
        escaped(s) == s,
    decreases s.len(),
{
    if s.len() > 0 {
        text_without_pipes_is_unchanged(s.drop_last());
        assert(s.drop_last().push(s.last()) == s);
    }
}

} // verus!
