use crate::text::{trim, trim_end, trim_start};
use vstd::prelude::*;

verus! {

/// ASCII whitespace: space, tab, line feed, form feed, carriage return.
pub open spec fn is_blank(c: char) -> bool {
    c == ' ' || c == '\t' || c == '\n' || c == '\x0C' || c == '\r'
}

/// The punctuation that the display font can show.
pub open spec fn is_shown_punctuation(c: char) -> bool {
    c == '!' || c == '.' || c == ',' || c == '-' || c == '#' || c == '+' || c == '?' || c == ';'
        || c == ':' || c == '_' || c == '\'' || c == '*' || c == '/' || c == '"' || c == '('
        || c == ')'
}

/// A character that passes into a message unchanged.
pub open spec fn is_shown(c: char) -> bool {
    ('a' <= c <= 'z') || ('A' <= c <= 'Z') || ('0' <= c <= '9') || is_blank(c)
        || is_shown_punctuation(c)
}

/// `c` itself where the font can show it, `?` otherwise.
pub open spec fn shown_char(c: char) -> char {
    if is_shown(c) {
        c
    } else {
        '?'
    }
}

/// A received message as it is kept: every character that the font cannot
/// show replaced by `?`, then surrounding whitespace removed.
pub open spec fn sanitized(s: Seq<char>) -> Seq<char> {
    trim_end(trim_start(s.map_values(|c: char| shown_char(c))))
}

fn is_blank_char(c: char) -> (r: bool)
    ensures
        r == is_blank(c),
{
    c == ' ' || c == '\t' || c == '\n' || c == '\x0C' || c == '\r'
}

fn is_shown_char(c: char) -> (r: bool)
    ensures
        r == is_shown(c),
{
    ('a' <= c && c <= 'z') || ('A' <= c && c <= 'Z') || ('0' <= c && c <= '9') || is_blank_char(c)
        || c == '!' || c == '.' || c == ',' || c == '-' || c == '#' || c == '+' || c == '?' || c
        == ';' || c == ':' || c == '_' || c == '\'' || c == '*' || c == '/' || c == '"' || c
        == '(' || c == ')'
}

/// Prepares a received message for display.
pub fn sanitize(text: &str) -> (r: String)
    ensures
        r@ == sanitized(text@),
{
    let n = text.unicode_len();
    let mut cleaned = String::new();
    let mut i: usize = 0;
    while i < n
        invariant
            n == text@.len(),
            i <= n,
            cleaned@ =~= text@.subrange(0, i as int).map_values(|c: char| shown_char(c)),
        decreases n - i,
    {
        let c = text.get_char(i);
        if is_shown_char(c) {
            cleaned.append(text.substring_char(i, i + 1));
        } else {
            proof {
                reveal_strlit("?");
            }
            cleaned.append("?");
        }
        assert(text@.subrange(0, i + 1) =~= text@.subrange(0, i as int).push(c));
        i = i + 1;
    }
    assert(text@.subrange(0, n as int) =~= text@);
    trim(cleaned.as_str())
}

} // verus!
