//! Decoding of hex text such as `0x1fa2` into bytes.
use vstd::prelude::*;

verus! {

/// The value of one ASCII hex digit, if `c` is one.
pub open spec fn hex_digit(c: u8) -> Option<u8> {
    if 48 <= c && c <= 57 {
        Some((c - 48) as u8)
    } else if 97 <= c && c <= 102 {
        Some((c - 87) as u8)
    } else if 65 <= c && c <= 70 {
        Some((c - 55) as u8)
    } else {
        None
    }
}

/// `s` without a leading `0x`, if it has one.
pub open spec fn strip_hex_prefix(s: Seq<u8>) -> Seq<u8> {
    if s.len() >= 2 && s[0] == 48 && s[1] == 120 {
        s.subrange(2, s.len() as int)
    } else {
        s
    }
}

/// An even number of hex digits.
pub open spec fn is_hex_digits(s: Seq<u8>) -> bool {
    &&& s.len() % 2 == 0
    &&& forall|i: int| 0 <= i < s.len() ==> (#[trigger] hex_digit(s[i])) is Some
}

/// The bytes that a run of hex digits spells, two digits per byte, high nibble first.
pub open spec fn hex_bytes(s: Seq<u8>) -> Seq<u8> {
    Seq::new(
        s.len() / 2,
        |i: int| (hex_digit(s[2 * i])->0 * 16 + hex_digit(s[2 * i + 1])->0) as u8,
    )
}

/// The bytes that hex text spells, where the text is valid.
pub open spec fn decoded_hex(s: Seq<u8>) -> Option<Seq<u8>> {
    if is_hex_digits(strip_hex_prefix(s)) {
        Some(hex_bytes(strip_hex_prefix(s)))
    } else {
        None
    }
}

fn digit_value(c: u8) -> (r: Option<u8>)
    ensures
        r == hex_digit(c),
{
    if 48 <= c && c <= 57 {
        Some(c - 48)
    } else if 97 <= c && c <= 102 {
        Some(c - 87)
    } else if 65 <= c && c <= 70 {
        Some(c - 55)
    } else {
        None
    }
}

/// Decodes hex text with an optional `0x` prefix; `None` where a character is
/// not a hex digit or the digits are odd in number.
pub fn decode_hex(text: &[u8]) -> (r: Option<Vec<u8>>)
    ensures
        match r {
            Some(v) => decoded_hex(text@) == Some(v@),
            None => decoded_hex(text@) is None,
        },
{
    let n = text.len();
    let start: usize = if n >= 2 && text[0] == 48 && text[1] == 120 {
        2
    } else {
        0
    };
    let ghost digits = strip_hex_prefix(text@);
    assert(digits =~= text@.subrange(start as int, n as int));
    if (n - start) % 2 != 0 {
        return None;
    }
    let mut out: Vec<u8> = Vec::new();
    let mut k: usize = 0;
    while k < (n - start) / 2
        invariant
            start <= n,
            n == text@.len(),
            (n - start) % 2 == 0,
            digits =~= text@.subrange(start as int, n as int),
            digits == strip_hex_prefix(text@),
            k <= (n - start) / 2,
            out@.len() == k,
            forall|j: int| 0 <= j < 2 * k ==> (#[trigger] hex_digit(digits[j])) is Some,
            forall|j: int| 0 <= j < k ==> out@[j] == #[trigger] hex_bytes(digits)[j],
        decreases (n - start) / 2 - k,
    {
        let hi = digit_value(text[start + 2 * k]);
        let lo = digit_value(text[start + 2 * k + 1]);
        match (hi, lo) {
            (Some(h), Some(l)) => {
                assert(hex_digit(digits[2 * k as int]) == Some(h));
                assert(hex_digit(digits[2 * k + 1]) == Some(l));
                out.push(h * 16 + l);
                k = k + 1;
            },
            _ => {
                assert(digits[2 * k as int] == text@[start + 2 * k]);
                assert(digits[2 * k + 1] == text@[start + 2 * k + 1]);
                assert(!is_hex_digits(digits));
                return None;
            },
        }
    }
    assert(out@ =~= hex_bytes(digits));
    Some(out)
}

} // verus!
