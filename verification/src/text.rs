//! Text helpers: white space and trimming, and what the verifier is told of
//! `String::push`.

use vstd::prelude::*;

verus! {

/// `String::push` appends the one character to the end of the string.
pub assume_specification[ String::push ](s: &mut String, c: char)
    ensures
        final(s)@ == old(s)@.push(c),
;

/// The text of an optional owned string.
pub open spec fn owned_text(s: Option<String>) -> Option<Seq<char>> {
    match s {
        Some(s) => Some(s@),
        None => None,
    }
}

/// Whether `c` is white space as Unicode defines it.
pub open spec fn white_space(c: char) -> bool {
    ||| '\u{9}' <= c <= '\u{d}'
    ||| c == ' '
    ||| c == '\u{85}'
    ||| c == '\u{a0}'
    ||| c == '\u{1680}'
    ||| '\u{2000}' <= c <= '\u{200a}'
    ||| c == '\u{2028}'
    ||| c == '\u{2029}'
    ||| c == '\u{202f}'
    ||| c == '\u{205f}'
    ||| c == '\u{3000}'
}

/// The text without the white space at its start.
pub open spec fn skip_leading(s: Seq<char>) -> Seq<char>
    decreases s.len(),
{
    if s.len() > 0 && white_space(s.first()) {
        skip_leading(s.drop_first())
    } else {
        s
    }
}

/// The text without the white space at its end.
pub open spec fn skip_trailing(s: Seq<char>) -> Seq<char>
    decreases s.len(),
{
    if s.len() > 0 && white_space(s.last()) {
        skip_trailing(s.drop_last())
    } else {
        s
    }
}

/// The text without the white space at either end.
pub open spec fn trimmed(s: Seq<char>) -> Seq<char> {
    skip_trailing(skip_leading(s))
}

/// Whether `c` is white space as Unicode defines it.
pub fn is_white_space(c: char) -> (b: bool)
    ensures
        b == white_space(c),
{
    ('\u{9}' <= c && c <= '\u{d}') || c == ' ' || c == '\u{85}' || c == '\u{a0}' || c
        == '\u{1680}' || ('\u{2000}' <= c && c <= '\u{200a}') || c == '\u{2028}' || c
        == '\u{2029}' || c == '\u{202f}' || c == '\u{205f}' || c == '\u{3000}'
}

/// The part of `text` that is left when the white space at both ends is
/// taken away.
pub fn trim(text: &str) -> (out: &str)
    ensures
        out@ == trimmed(text@),
{
    let n = text.unicode_len();
    let mut start: usize = 0;
    assert(text@.subrange(0, n as int) == text@);
    while start < n && is_white_space(text.get_char(start))
        invariant
            start <= n,
            n == text@.len(),
            skip_leading(text@) == skip_leading(text@.subrange(start as int, n as int)),
        decreases n - start,
    {
        proof {
            let rest = text@.subrange(start as int, n as int);
            assert(rest.drop_first() == text@.subrange(start as int + 1, n as int));
        }
        start += 1;
    }
    let ghost body = text@.subrange(start as int, n as int);
    assert(skip_leading(text@) == body);
    let mut end: usize = n;
    while end > start && is_white_space(text.get_char(end - 1))
        invariant
            start <= end <= n,
            n == text@.len(),
            body == text@.subrange(start as int, n as int),
            skip_trailing(body) == skip_trailing(text@.subrange(start as int, end as int)),
        decreases end - start,
    {
        proof {
            let rest = text@.subrange(start as int, end as int);
            assert(rest.drop_last() == text@.subrange(start as int, end as int - 1));
        }
        end -= 1;
    }
    text.substring_char(start, end)
}

} // verus!
