//! Order parameter vocabulary shared by order-entry front ends.

use vstd::prelude::*;
use vstd::string::StrSliceExecFns;

verus! {

/// Order side.
#[derive(Clone, Copy, Debug, PartialEq, Eq, Structural)]
pub enum Side {
    Buy,
    Sell,
}

impl Side {
    /// True exactly for the buy side.
    pub fn is_buy(&self) -> (r: bool)
        ensures
            r == (self is Buy),
    {
        match self {
            Side::Buy => true,
            Side::Sell => false,
        }
    }
}

/// Time-in-force option for limit orders.
#[derive(Clone, Copy, Debug, PartialEq, Eq, Structural)]
pub enum Tif {
    /// Good Till Cancel: remains until filled or canceled.
    Gtc,
    /// Add Liquidity Only: maker-only, rejected if it would take.
    Alo,
    /// Immediate or Cancel: fill immediately, cancel the rest.
    Ioc,
}

impl Default for Tif {
    /// The default time-in-force is Good Till Cancel.
    fn default() -> (r: Tif)
        ensures
            r is Gtc,
    {
        Tif::Gtc
    }
}

/// Whether `c` is a hexadecimal digit.
pub open spec fn is_hex_digit(c: char) -> bool {
    ||| (48 <= c as u32 && c as u32 <= 57)
    ||| (97 <= c as u32 && c as u32 <= 102)
    ||| (65 <= c as u32 && c as u32 <= 70)
}

/// The value of the hexadecimal digit `c`.
pub open spec fn hex_value(c: char) -> u8 {
    if 48 <= c as u32 && c as u32 <= 57 {
        (c as u32 - 48) as u8
    } else if 97 <= c as u32 && c as u32 <= 102 {
        (c as u32 - 87) as u8
    } else {
        (c as u32 - 55) as u8
    }
}

/// A client order ID with its optional `0x` prefix removed.
pub open spec fn strip_hex_prefix(s: Seq<char>) -> Seq<char> {
    if s.len() >= 2 && s[0] == '0' && s[1] == 'x' {
        s.skip(2)
    } else {
        s
    }
}

/// The bytes named by a sequence of hex digit pairs.
pub open spec fn hex_bytes(s: Seq<char>) -> Seq<u8> {
    Seq::new(s.len() / 2, |k: int| (16 * hex_value(s[2 * k]) + hex_value(s[2 * k + 1])) as u8)
}

/// Parses a client order ID: exactly 16 bytes as 32 hex characters,
/// with or without a `0x` prefix. Returns the bytes exactly when the
/// stripped text is 32 hex digits, and `None` on any other input.
pub fn parse_cloid_required(cloid: &str) -> (r: Option<Vec<u8>>)
    ensures
        ({
            let digits = strip_hex_prefix(cloid@);
            match r {
                Some(bytes) => {
                    &&& digits.len() == 32
                    &&& forall|k: int| 0 <= k < 32 ==> is_hex_digit(#[trigger] digits[k])
                    &&& bytes@ == hex_bytes(digits)
                },
                None => !(digits.len() == 32 && (forall|k: int|
                    0 <= k < 32 ==> is_hex_digit(#[trigger] digits[k]))),
            }
        }),
{
    let n = cloid.unicode_len();
    let prefixed = n >= 2 && cloid.get_char(0) == '0' && cloid.get_char(1) == 'x';
    let start: usize = if prefixed {
        2
    } else {
        0
    };
    proof {
        assert(strip_hex_prefix(cloid@) =~= cloid@.skip(start as int));
    }
    if n - start != 32 {
        return None;
    }
    let ghost digits = strip_hex_prefix(cloid@);
    let mut bytes: Vec<u8> = Vec::new();
    let mut k: usize = 0;
    while k < 16
        invariant
            k <= 16,
            n == cloid@.len(),
            start + 32 == n,
            digits == strip_hex_prefix(cloid@),
            digits == cloid@.skip(start as int),
            forall|j: int| 0 <= j < 2 * k ==> is_hex_digit(#[trigger] digits[j]),
            bytes@.len() == k,
            forall|j: int|
                0 <= j < k ==> bytes@[j] == (16 * hex_value(digits[2 * j]) + hex_value(
                    digits[2 * j + 1],
                )) as u8,
        decreases 16 - k,
    {
        let hi = match hex_digit_value(cloid.get_char(start + 2 * k)) {
            Some(v) => v,
            None => {
                proof {
                    assert(digits[2 * k as int] == cloid@[start + 2 * k]);
                }
                return None;
            },
        };
        let lo = match hex_digit_value(cloid.get_char(start + 2 * k + 1)) {
            Some(v) => v,
            None => {
                proof {
                    assert(digits[2 * k as int + 1] == cloid@[start + 2 * k + 1]);
                }
                return None;
            },
        };
        proof {
            assert(digits[2 * k as int] == cloid@[start + 2 * k]);
            assert(digits[2 * k as int + 1] == cloid@[start + 2 * k + 1]);
        }
        bytes.push(16 * hi + lo);
        k += 1;
    }
    proof {
        assert(digits.len() == 32);
        assert(bytes@ =~= hex_bytes(digits));
    }
    Some(bytes)
}

/// The value of one hex digit; `None` exactly when `c` is no hex digit.
fn hex_digit_value(c: char) -> (r: Option<u8>)
    ensures
        r is Some == is_hex_digit(c),
        r matches Some(v) ==> v == hex_value(c),
{
    let code = c as u32;
    if 48 <= code && code <= 57 {
        Some((code - 48) as u8)
    } else if 97 <= code && code <= 102 {
        Some((code - 87) as u8)
    } else if 65 <= code && code <= 70 {
        Some((code - 55) as u8)
    } else {
        None
    }
}

} // verus!
