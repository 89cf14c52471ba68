use vstd::prelude::*;
use vstd::string::StringSliceAdditionalSpecFns;

verus! {

/// Why a string failed to parse as an `i32`.
#[derive(Clone, Copy, Debug, PartialEq, Eq, Structural)]
pub enum ParseError {
    /// The input held no bytes at all.
    Empty,
    /// A byte other than an optional leading sign followed by decimal digits.
    InvalidDigit,
    /// The digits denote a value outside `i32`'s range.
    OutOfRange,
}

/// An ASCII decimal digit.
pub open spec fn is_digit(b: u8) -> bool {
    0x30 <= b <= 0x39
}

/// The numeric value of one ASCII digit.
pub open spec fn digit_value(b: u8) -> int {
    b - 0x30
}

/// Every byte of `s` is an ASCII decimal digit.
pub open spec fn all_digits(s: Seq<u8>) -> bool {
    forall|i: int| 0 <= i < s.len() ==> is_digit(#[trigger] s[i])
}

/// The value of a sequence of ASCII digits read in base ten.
pub open spec fn digits_value(s: Seq<u8>) -> int
    decreases s.len(),
{
    if s.len() == 0 {
        0
    } else {
        digits_value(s.drop_last()) * 10 + digit_value(s.last())
    }
}

/// `s` starts with an explicit `+` or `-`.
pub open spec fn has_sign(s: Seq<u8>) -> bool {
    s.len() > 0 && (s[0] == 0x2Bu8 || s[0] == 0x2Du8)
}

/// `s` starts with an explicit minus sign.
pub open spec fn is_negative(s: Seq<u8>) -> bool {
    s.len() > 0 && s[0] == 0x2Du8
}

/// The bytes of `s` after any leading sign.
pub open spec fn digits_part(s: Seq<u8>) -> Seq<u8> {
    if has_sign(s) {
        s.drop_first()
    } else {
        s
    }
}

/// The meaning of the bytes `s` as a decimal `i32`: an optional single `+`
/// or `-`, then one or more ASCII digits, denoting a value in `i32`'s
/// range. Anything else is the stated error.
pub open spec fn spec_parse_i32(s: Seq<u8>) -> Result<i32, ParseError> {
    if s.len() == 0 {
        Err(ParseError::Empty)
    } else if digits_part(s).len() == 0 || !all_digits(digits_part(s)) {
        Err(ParseError::InvalidDigit)
    } else if is_negative(s) {
        if digits_value(digits_part(s)) > 0x8000_0000 {
            Err(ParseError::OutOfRange)
        } else {
            Ok((-digits_value(digits_part(s))) as i32)
        }
    } else {
        if digits_value(digits_part(s)) > 0x7FFF_FFFF {
            Err(ParseError::OutOfRange)
        } else {
            Ok(digits_value(digits_part(s)) as i32)
        }
    }
}

/// Parse `input` as a decimal `i32`, reporting exactly why when it cannot
/// be: empty input, a stray byte, or a value outside `i32`'s range.
pub fn parse_number(input: &str) -> (r: Result<i32, ParseError>)
    ensures
        r == spec_parse_i32(input.spec_bytes()),
{
    let bytes: &[u8] = input.as_bytes();
    let n: usize = bytes.len();
    if n == 0 {
        return Err(ParseError::Empty);
    }
    let b0: u8 = bytes[0];
    let neg: bool = b0 == 0x2D;
    let start: usize = if b0 == 0x2D || b0 == 0x2B {
        1
    } else {
        0
    };
    let ghost ds: Seq<u8> = digits_part(bytes@);
    proof {
        assert(ds =~= bytes@.subrange(start as int, n as int));
    }
    if start == n {
        return Err(ParseError::InvalidDigit);
    }
    let mut acc: u64 = 0;
    let mut over: bool = false;
    let mut i: usize = start;
    while i < n
        invariant
            start <= i <= n,
            bytes@ == input.spec_bytes(),
            n == bytes@.len(),
            start == if has_sign(bytes@) {
                1int
            } else {
                0int
            },
            ds == digits_part(bytes@),
            ds =~= bytes@.subrange(start as int, n as int),
            all_digits(bytes@.subrange(start as int, i as int)),
            !over ==> acc == digits_value(bytes@.subrange(start as int, i as int)) && acc
                <= 0x8000_0000u64,
            over ==> digits_value(bytes@.subrange(start as int, i as int)) > 0x8000_0000,
        decreases n - i,
    {
        let b: u8 = bytes[i];
        if b < 0x30 || b > 0x39 {
            proof {
                assert(ds[i - start] == b);
                assert(!all_digits(ds));
            }
            return Err(ParseError::InvalidDigit);
        }
        proof {
            let pre = bytes@.subrange(start as int, i as int);
            let post = bytes@.subrange(start as int, i + 1 as int);
            assert(post.drop_last() =~= pre);
        }
        if !over {
            let tmp: u64 = acc * 10 + ((b - 0x30) as u64);
            if tmp > 0x8000_0000u64 {
                over = true;
            } else {
                acc = tmp;
            }
        }
        i = i + 1;
    }
    proof {
        assert(bytes@.subrange(start as int, i as int) =~= ds);
    }
    if over {
        return Err(ParseError::OutOfRange);
    }
    if neg {
        if acc == 0x8000_0000u64 {
            Ok(i32::MIN)
        } else {
            Ok(-(acc as i32))
        }
    } else {
        if acc == 0x8000_0000u64 {
            Err(ParseError::OutOfRange)
        } else {
            Ok(acc as i32)
        }
    }
}

} // verus!
