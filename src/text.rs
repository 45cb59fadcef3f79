use vstd::prelude::*;

verus! {

/// White space as Unicode defines it (the `White_Space` property), which is
/// what `char::is_whitespace` tests.
pub open spec fn is_space(c: char) -> bool {
    ('\t' <= c <= '\r') || c == ' ' || c == '\u{85}' || c == '\u{A0}' || c == '\u{1680}' || (
    '\u{2000}' <= c <= '\u{200A}') || c == '\u{2028}' || c == '\u{2029}' || c == '\u{202F}' || c
        == '\u{205F}' || c == '\u{3000}'
}

/// `s` without its leading white space.
pub open spec fn trim_start(s: Seq<char>) -> Seq<char>
    decreases s.len(),
{
    if s.len() > 0 && is_space(s[0]) {
        trim_start(s.drop_first())
    } else {
        s
    }
}

/// `s` without its trailing white space.
pub open spec fn trim_end(s: Seq<char>) -> Seq<char>
    decreases s.len(),
{
    if s.len() > 0 && is_space(s.last()) {
        trim_end(s.drop_last())
    } else {
        s
    }
}

pub fn is_space_char(c: char) -> (r: bool)
    ensures
        r == is_space(c),
{
    ('\t' <= c && c <= '\r') || c == ' ' || c == '\u{85}' || c == '\u{A0}' || c == '\u{1680}' || (
    '\u{2000}' <= c && c <= '\u{200A}') || c == '\u{2028}' || c == '\u{2029}' || c == '\u{202F}'
        || c == '\u{205F}' || c == '\u{3000}'
}

/// `text` without leading and trailing white space.
pub fn trim(text: &str) -> (r: String)
    ensures
        r@ == trim_end(trim_start(text@)),
{
    let n = text.unicode_len();
    let ghost all = text@;
    assert(all.subrange(0, n as int) =~= all);
    let mut start: usize = 0;
    while start < n && is_space_char(text.get_char(start))
        invariant
            all == text@,
            all.len() == n,
            start <= n,
            trim_start(all) == trim_start(all.subrange(start as int, n as int)),
        decreases n - start,
    {
        assert(all.subrange(start as int, n as int).drop_first() =~= all.subrange(
            start + 1,
            n as int,
        ));
        start = start + 1;
    }
    let ghost front = all.subrange(start as int, n as int);
    assert(trim_start(all) == front) by {
        if start < n {
            assert(front[0] == all[start as int]);
        } else {
            assert(front.len() == 0);
        }
    }
    let mut end: usize = n;
    while end > start && is_space_char(text.get_char(end - 1))
        invariant
            all == text@,
            all.len() == n,
            start <= end <= n,
            trim_end(front) == trim_end(all.subrange(start as int, end as int)),
        decreases end - start,
    {
        assert(all.subrange(start as int, end as int).drop_last() =~= all.subrange(
            start as int,
            end - 1,
        ));
        end = end - 1;
    }
    assert(trim_end(front) == all.subrange(start as int, end as int)) by {
        let kept = all.subrange(start as int, end as int);
        if end > start {
            assert(kept.last() == all[end - 1]);
        } else {
            assert(kept.len() == 0);
        }
    }
    String::from_str(text.substring_char(start, end))
}

} // verus!
