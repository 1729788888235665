//! Percent-decoding of URL paths.
//!
//! A `%XX` escape stands for the byte with hexadecimal value `XX`;
//! every other character passes through unchanged. Decoding fails
//! when a `%` is not followed by two hexadecimal digit characters.

use vstd::prelude::*;
use crate::text::push_char;

verus! {

/// True for the ASCII hexadecimal digit characters `0-9`, `a-f`, `A-F`.
pub open spec fn is_hex_digit(c: char) -> bool {
    (0x30 <= c as u32 && c as u32 <= 0x39) || (0x61 <= c as u32 && c as u32 <= 0x66) || (0x41
        <= c as u32 && c as u32 <= 0x46)
}

/// Numeric value of a hexadecimal digit character.
pub open spec fn hex_value(c: char) -> u8
    recommends
        is_hex_digit(c),
{
    if 0x30 <= c as u32 && c as u32 <= 0x39 {
        (c as u32 - 0x30) as u8
    } else if 0x61 <= c as u32 && c as u32 <= 0x66 {
        (c as u32 - 0x61 + 10) as u8
    } else {
        (c as u32 - 0x41 + 10) as u8
    }
}

/// The percent-decoding of `s`: `%XX` escapes become the character
/// with code `XX`, everything else is kept; `None` when a `%` is not
/// followed by two hexadecimal digits.
pub open spec fn spec_decode(s: Seq<char>) -> Option<Seq<char>>
    decreases s.len(),
{
    if s.len() == 0 {
        Some(Seq::empty())
    } else if s[0] == '%' {
        if s.len() >= 3 && is_hex_digit(s[1]) && is_hex_digit(s[2]) {
            let b = (hex_value(s[1]) * 16 + hex_value(s[2])) as u8;
            match spec_decode(s.skip(3)) {
                Some(rest) => Some(seq![b as char] + rest),
                None => None,
            }
        } else {
            None
        }
    } else {
        match spec_decode(s.skip(1)) {
            Some(rest) => Some(seq![s[0]] + rest),
            None => None,
        }
    }
}

/// The lower-case hexadecimal digit character for a value below 16.
pub open spec fn hex_digit_char(d: u8) -> char
    recommends
        d < 16,
{
    if d < 10 {
        (0x30 + d as u32) as char
    } else {
        (0x57 + d as u32) as char
    }
}

/// The escape `%XX` that stands for the byte `b`.
pub open spec fn spec_encode_byte(b: u8) -> Seq<char> {
    seq!['%', hex_digit_char(b / 16), hex_digit_char(b % 16)]
}

/// Percent-encoding of a byte sequence: every byte written as an
/// escape, whatever its value.
pub open spec fn spec_encode(bytes: Seq<u8>) -> Seq<char>
    decreases bytes.len(),
{
    if bytes.len() == 0 {
        Seq::empty()
    } else {
        spec_encode_byte(bytes[0]) + spec_encode(bytes.skip(1))
    }
}

/// The digit characters are hexadecimal digits and carry their value.
proof fn lemma_hex_digit_char_value(d: u8)
    requires
        d < 16,
    ensures
        is_hex_digit(hex_digit_char(d)),
        hex_value(hex_digit_char(d)) == d,
{
    if d < 10 {
        assert(hex_digit_char(d) as u32 == 0x30 + d as u32);
    } else {
        assert(hex_digit_char(d) as u32 == 0x57 + d as u32);
    }
}

/// Decoding inverts encoding: the all-escapes form of any byte
/// sequence decodes to exactly the characters with those byte values.
pub proof fn lemma_decode_encode_round_trip(bytes: Seq<u8>)
    ensures
        spec_decode(spec_encode(bytes)) == Some(bytes.map_values(|b: u8| b as char)),
    decreases bytes.len(),
{
    if bytes.len() == 0 {
        assert(spec_encode(bytes) =~= Seq::<char>::empty());
        assert(bytes.map_values(|b: u8| b as char) =~= Seq::<char>::empty());
    } else {
        let b = bytes[0];
        let s = spec_encode(bytes);
        lemma_hex_digit_char_value(b / 16);
        lemma_hex_digit_char_value(b % 16);
        lemma_decode_encode_round_trip(bytes.skip(1));
        assert(s.len() >= 3 && s[0] == '%' && s[1] == hex_digit_char(b / 16) && s[2]
            == hex_digit_char(b % 16));
        assert(hex_value(s[1]) * 16 + hex_value(s[2]) == b);
        assert(s.skip(3) =~= spec_encode(bytes.skip(1)));
        assert(seq![b as char] + bytes.skip(1).map_values(|b: u8| b as char) =~= bytes.map_values(
            |b: u8| b as char,
        ));
    }
}

/// Hexadecimal digit value of `c`, or `None` when `c` is not a
/// hexadecimal digit.
fn hex_digit_value(c: char) -> (r: Option<u8>)
    ensures
        r is Some <==> is_hex_digit(c),
        r is Some ==> r.unwrap() == hex_value(c) && r.unwrap() < 16,
{
    let u = c as u32;
    if 0x30 <= u && u <= 0x39 {
        Some((u - 0x30) as u8)
    } else if 0x61 <= u && u <= 0x66 {
        Some((u - 0x61 + 10) as u8)
    } else if 0x41 <= u && u <= 0x46 {
        Some((u - 0x41 + 10) as u8)
    } else {
        None
    }
}

/// Percent-decode `input`, or report a malformed escape with `None`.
pub fn safe_percent_decode(input: &str) -> (r: Option<String>)
    ensures
        r is Some <==> spec_decode(input@) is Some,
        r is Some ==> r.unwrap()@ == spec_decode(input@).unwrap(),
{
    let n = input.unicode_len();
    let mut out = String::new();
    let mut i: usize = 0;
    proof {
        assert(input@.skip(0) =~= input@);
        if spec_decode(input@) is Some {
            assert(out@ + spec_decode(input@).unwrap() =~= spec_decode(input@).unwrap());
        }
    }
    while i < n
        invariant
            n == input@.len(),
            0 <= i <= n,
            spec_decode(input@) == (match spec_decode(input@.skip(i as int)) {
                Some(rest) => Some(out@ + rest),
                None => None::<Seq<char>>,
            }),
        decreases n - i,
    {
        let ghost tail = input@.skip(i as int);
        let c = input.get_char(i);
        if c == '%' {
            if n - i < 3 {
                assert(tail.len() < 3);
                assert(spec_decode(tail) is None);
                return None;
            }
            let c1 = input.get_char(i + 1);
            let c2 = input.get_char(i + 2);
            assert(tail[1] == c1 && tail[2] == c2);
            let v1 = match hex_digit_value(c1) {
                Some(v) => v,
                None => {
                    assert(spec_decode(tail) is None);
                    return None;
                },
            };
            let v2 = match hex_digit_value(c2) {
                Some(v) => v,
                None => {
                    assert(spec_decode(tail) is None);
                    return None;
                },
            };
            let b: u8 = v1 * 16 + v2;
            let ghost out0 = out@;
            push_char(&mut out, b as char);
            proof {
                assert(tail.skip(3) =~= input@.skip(i + 3));
                if spec_decode(input@.skip(i + 3)) is Some {
                    let rest = spec_decode(input@.skip(i + 3)).unwrap();
                    assert(out@ + rest =~= out0 + (seq![b as char] + rest));
                }
            }
            i = i + 3;
        } else {
            let ghost out0 = out@;
            push_char(&mut out, c);
            proof {
                assert(tail.skip(1) =~= input@.skip(i + 1));
                if spec_decode(input@.skip(i + 1)) is Some {
                    let rest = spec_decode(input@.skip(i + 1)).unwrap();
                    assert(out@ + rest =~= out0 + (seq![c] + rest));
                }
            }
            i = i + 1;
        }
    }
    proof {
        assert(input@.skip(n as int) =~= Seq::<char>::empty());
        assert(out@ + Seq::<char>::empty() =~= out@);
    }
    Some(out)
}

} // verus!
