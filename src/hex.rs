//! Lowercase hexadecimal rendering of bytes.
use vstd::prelude::*;

verus! {

/// The lowercase hexadecimal digit of n, for n < 16.
pub open spec fn hex_digit(n: u8) -> char {
    if n == 0 { '0' } else if n == 1 { '1' } else if n == 2 { '2' } else if n == 3 { '3' }
    else if n == 4 { '4' } else if n == 5 { '5' } else if n == 6 { '6' } else if n == 7 { '7' }
    else if n == 8 { '8' } else if n == 9 { '9' } else if n == 10 { 'a' } else if n == 11 { 'b' }
    else if n == 12 { 'c' } else if n == 13 { 'd' } else if n == 14 { 'e' } else { 'f' }
}

/// Whether c is one of `0-9` or `a-f`.
pub open spec fn is_lower_hex(c: char) -> bool {
    ('0' <= c && c <= '9') || ('a' <= c && c <= 'f')
}

/// Two digits per byte, high half first.
pub open spec fn hex_of(s: Seq<u8>) -> Seq<char> {
    Seq::new(
        2 * s.len(),
        |i: int| if i % 2 == 0 { hex_digit(s[i / 2] >> 4) } else { hex_digit(s[i / 2] & 0x0f) },
    )
}

/// Relies on `String::push`: the character is appended.
#[verifier::external_body]
fn push_char(s: &mut String, c: char)
    ensures
        final(s)@ == old(s)@.push(c),
{
    s.push(c)
}

fn digit(n: u8) -> (c: char)
    requires
        n < 16,
    ensures
        c == hex_digit(n),
        is_lower_hex(c),
{
    if n == 0 { '0' } else if n == 1 { '1' } else if n == 2 { '2' } else if n == 3 { '3' }
    else if n == 4 { '4' } else if n == 5 { '5' } else if n == 6 { '6' } else if n == 7 { '7' }
    else if n == 8 { '8' } else if n == 9 { '9' } else if n == 10 { 'a' } else if n == 11 { 'b' }
    else if n == 12 { 'c' } else if n == 13 { 'd' } else if n == 14 { 'e' } else { 'f' }
}

/// Renders bytes as lowercase hexadecimal, two digits per byte.
pub fn to_hex_string(src: &Vec<u8>) -> (r: String)
    ensures
        r@ == hex_of(src@),
{
    let mut r = String::new();
    let mut i: usize = 0;
    while i < src.len()
        invariant
            i <= src@.len(),
            r@ == hex_of(src@.take(i as int)),
        decreases src@.len() - i,
    {
        let x = src[i];
        assert(x >> 4 < 16 && x & 0x0f < 16) by (bit_vector);
        push_char(&mut r, digit(x >> 4));
        push_char(&mut r, digit(x & 0x0f));
        i += 1;
        assert(r@ =~= hex_of(src@.take(i as int)));
    }
    assert(src@.take(i as int) =~= src@);
    r
}

/// Every character of a rendering is a lowercase hexadecimal digit.
pub proof fn lemma_hex_digits(s: Seq<u8>)
    ensures
        hex_of(s).len() == 2 * s.len(),
        forall|i: int| 0 <= i < hex_of(s).len() ==> is_lower_hex(#[trigger] hex_of(s)[i]),
{
    assert forall|i: int| 0 <= i < hex_of(s).len() implies is_lower_hex(#[trigger] hex_of(s)[i]) by {
        let x = s[i / 2];
        assert(x >> 4 < 16 && x & 0x0f < 16) by (bit_vector);
    }
}

} // verus!
