//! Parsing a transaction hash from its hexadecimal text: an optional `0x`
//! prefix followed by exactly 64 hex digits, two per byte. Anything else is
//! a parse error, reported, never defaulted.

use vstd::prelude::*;
use crate::report::DecodeError;

verus! {

/// Whether `b` is the code of a hexadecimal digit.
pub open spec fn is_hex_digit(b: u8) -> bool {
    (48 <= b <= 57) || (97 <= b <= 102) || (65 <= b <= 70)
}

/// The value of a hexadecimal digit code.
pub open spec fn hex_val(b: u8) -> nat {
    if 48 <= b <= 57 {
        (b - 48) as nat
    } else if 65 <= b <= 70 {
        (b - 55) as nat
    } else {
        (b - 87) as nat
    }
}

/// The text with a leading `0x` removed, when one is there.
pub open spec fn strip_hex_prefix(s: Seq<u8>) -> Seq<u8> {
    if s.len() >= 2 && s[0] == 48 && s[1] == 120 {
        s.skip(2)
    } else {
        s
    }
}

/// Whether the text spells a 32-byte hash: exactly 64 hex digits after the
/// optional prefix.
pub open spec fn valid_hash_text(s: Seq<u8>) -> bool {
    let d = strip_hex_prefix(s);
    d.len() == 64 && forall|i: int| 0 <= i < 64 ==> is_hex_digit(#[trigger] d[i])
}

/// The 32 bytes a valid hash text spells.
pub open spec fn decoded_hash(s: Seq<u8>) -> Seq<u8> {
    let d = strip_hex_prefix(s);
    Seq::new(32, |i: int| (hex_val(d[2 * i]) * 16 + hex_val(d[2 * i + 1])) as u8)
}

/// The value of one hex digit code, or `None` when it is no hex digit.
fn hex_digit_value(b: u8) -> (r: Option<u8>)
    ensures
        r is Some <==> is_hex_digit(b),
        r matches Some(v) ==> v == hex_val(b) && v < 16,
{
    if 48 <= b && b <= 57 {
        Some(b - 48)
    } else if 97 <= b && b <= 102 {
        Some(b - 87)
    } else if 65 <= b && b <= 70 {
        Some(b - 55)
    } else {
        None
    }
}

/// Parses the text of a 32-byte transaction hash: an optional `0x` prefix
/// and then 64 hex digits. Malformed text is a `ParseError`.
pub fn parse_hash(text: &Vec<u8>) -> (r: Result<Vec<u8>, DecodeError>)
    ensures
        r is Ok <==> valid_hash_text(text@),
        r matches Ok(h) ==> h@ == decoded_hash(text@),
        r matches Err(e) ==> e == DecodeError::ParseError,
{
    let start: usize = if text.len() >= 2 && text[0] == 48 && text[1] == 120 {
        2
    } else {
        0
    };
    let ghost d = strip_hex_prefix(text@);
    proof {
        assert(d =~= text@.skip(start as int));
    }
    if text.len() - start != 64 {
        return Err(DecodeError::ParseError);
    }
    let mut out: Vec<u8> = Vec::new();
    let mut i: usize = 0;
    while i < 32
        invariant
            0 <= i <= 32,
            start + 64 == text@.len(),
            start == 0 || start == 2,
            d =~= text@.skip(start as int),
            d.len() == 64,
            out@.len() == i,
            forall|j: int| 0 <= j < 2 * i ==> is_hex_digit(#[trigger] d[j]),
            forall|j: int| 0 <= j < i ==> out@[j] == (hex_val(d[2 * j]) * 16 + hex_val(
                d[2 * j + 1],
            )) as u8,
        decreases 32 - i,
    {
        let hi = match hex_digit_value(text[start + 2 * i]) {
            Some(v) => v,
            None => {
                proof {
                    assert(!is_hex_digit(d[2 * i]));
                }
                return Err(DecodeError::ParseError);
            },
        };
        let lo = match hex_digit_value(text[start + 2 * i + 1]) {
            Some(v) => v,
            None => {
                proof {
                    assert(!is_hex_digit(d[2 * i + 1]));
                }
                return Err(DecodeError::ParseError);
            },
        };
        out.push(hi * 16 + lo);
        i = i + 1;
    }
    proof {
        assert(valid_hash_text(text@));
        assert(out@ =~= decoded_hash(text@));
    }
    Ok(out)
}

} // verus!
