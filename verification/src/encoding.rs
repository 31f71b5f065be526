//! Lowercase hexadecimal text: single digits, byte strings, and the two
//! punctuated forms built from them.

use vstd::prelude::*;

verus! {

/// The sixteen lowercase hexadecimal digits, in order of value.
pub open spec fn hex_digits() -> Seq<char> {
    "0123456789abcdef"@
}

/// The digit that stands for `n`, for `n` below sixteen.
pub open spec fn hex_char(n: int) -> char
    recommends
        0 <= n < 16,
{
    hex_digits()[n]
}

/// Whether `c` is a decimal digit or one of the letters `a` to `f`.
pub open spec fn is_lower_hex_char(c: char) -> bool {
    ('0' <= c && c <= '9') || ('a' <= c && c <= 'f')
}

/// Whether every character of `s` is a lowercase hexadecimal digit.
pub open spec fn is_lower_hex(s: Seq<char>) -> bool {
    forall|i: int| 0 <= i < s.len() ==> is_lower_hex_char(#[trigger] s[i])
}

/// The two digits of one byte, high half first.
pub open spec fn octet_text(b: u8) -> Seq<char> {
    seq![hex_char(b as int / 16), hex_char(b as int % 16)]
}

/// The digits of a byte string, two per byte, in order.
pub open spec fn hex_lower(bytes: Seq<u8>) -> Seq<char> {
    Seq::new(
        2 * bytes.len(),
        |i: int|
            if i % 2 == 0 {
                hex_char(bytes[i / 2] as int / 16)
            } else {
                hex_char(bytes[i / 2] as int % 16)
            },
    )
}

/// The bytes as two-digit groups with a colon between neighbours:
/// `xx:xx:...:xx`.
pub open spec fn colon_hex(bytes: Seq<u8>) -> Seq<char>
    decreases bytes.len(),
{
    if bytes.len() == 0 {
        Seq::empty()
    } else if bytes.len() == 1 {
        octet_text(bytes[0])
    } else {
        colon_hex(bytes.drop_last()) + seq![':'] + octet_text(bytes.last())
    }
}

/// Sixteen bytes in the hyphenated form of 8, 4, 4, 4 and 12 digits.
pub open spec fn hyphenated_hex(bytes: Seq<u8>) -> Seq<char>
    recommends
        bytes.len() == 16,
{
    hex_lower(bytes.subrange(0, 4)) + seq!['-'] + hex_lower(bytes.subrange(4, 6)) + seq!['-']
        + hex_lower(bytes.subrange(6, 8)) + seq!['-'] + hex_lower(bytes.subrange(8, 10))
        + seq!['-'] + hex_lower(bytes.subrange(10, 16))
}

/// The table holds the digits `0` to `9` and then the letters `a` to `f`.
pub proof fn lemma_hex_digits()
    ensures
        hex_digits() == seq![
            '0', '1', '2', '3', '4', '5', '6', '7', '8', '9', 'a', 'b', 'c', 'd', 'e', 'f',
        ],
{
    reveal_strlit("0123456789abcdef");
    assert(hex_digits() =~= seq![
        '0', '1', '2', '3', '4', '5', '6', '7', '8', '9', 'a', 'b', 'c', 'd', 'e', 'f',
    ]);
}

/// Every digit of the table is a lowercase hexadecimal character.
pub proof fn lemma_hex_char(n: int)
    requires
        0 <= n < 16,
    ensures
        is_lower_hex_char(hex_char(n)),
{
    lemma_hex_digits();
}

/// A byte string's digits are twice as many as its bytes and all lowercase
/// hexadecimal.
pub proof fn lemma_hex_lower(bytes: Seq<u8>)
    ensures
        hex_lower(bytes).len() == 2 * bytes.len(),
        is_lower_hex(hex_lower(bytes)),
{
    assert forall|i: int| 0 <= i < hex_lower(bytes).len() implies is_lower_hex_char(
        #[trigger] hex_lower(bytes)[i],
    ) by {
        let b = bytes[i / 2] as int;
        lemma_hex_char(b / 16);
        lemma_hex_char(b % 16);
    }
}

/// The lowercase hexadecimal digit for a value below sixteen.
pub fn hex_digit(n: u8) -> (c: char)
    requires
        n < 16,
    ensures
        c == hex_char(n as int),
{
    proof {
        reveal_strlit("0123456789abcdef");
    }
    "0123456789abcdef".get_char(n as usize)
}

/// Writes the bytes as two-digit groups joined by colons.
pub fn colon_separated(bytes: &[u8]) -> (out: String)
    ensures
        out@ == colon_hex(bytes@),
{
    let mut out = String::new();
    let mut i: usize = 0;
    while i < bytes.len()
        invariant
            i <= bytes.len(),
            out@ == colon_hex(bytes@.take(i as int)),
        decreases bytes.len() - i,
    {
        let b = bytes[i];
        proof {
            let next = bytes@.take(i as int + 1);
            assert(next.drop_last() == bytes@.take(i as int));
            assert(next.last() == b);
        }
        if i > 0 {
            out.push(':');
        }
        out.push(hex_digit(b / 16));
        out.push(hex_digit(b % 16));
        i += 1;
    }
    proof {
        assert(bytes@.take(bytes@.len() as int) == bytes@);
    }
    out
}

} // verus!
