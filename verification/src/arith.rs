use vstd::prelude::*;

verus! {

/// Why a division request was refused.
#[derive(Clone, Copy, Debug, PartialEq, Eq, Structural)]
pub enum DivideError {
    /// The divisor was zero.
    DivisionByZero,
    /// The exact quotient does not fit in `i32` (`i32::MIN / -1`).
    Overflow,
}

/// Rust's truncating division (rounding toward zero) of `a` by `b`, stated
/// over mathematical integers. Agrees with `/` on non-negative operands.
pub open spec fn trunc_div(a: int, b: int) -> int
    recommends
        b != 0,
{
    if a >= 0 {
        if b >= 0 {
            a / b
        } else {
            -(a / (-b))
        }
    } else {
        if b >= 0 {
            -((-a) / b)
        } else {
            (-a) / (-b)
        }
    }
}

/// Truncating division of `a` by `b`, refusing a zero divisor and the one
/// quotient (`i32::MIN / -1`) that does not fit in `i32`.
pub fn divide(a: i32, b: i32) -> (r: Result<i32, DivideError>)
    ensures
        b == 0 ==> r == Err::<i32, DivideError>(DivideError::DivisionByZero),
        b != 0 && a == i32::MIN && b == -1 ==> r == Err::<i32, DivideError>(DivideError::Overflow),
        b != 0 && !(a == i32::MIN && b == -1) ==> r == Ok::<i32, DivideError>(
            trunc_div(a as int, b as int) as i32,
        ),
{
    if b == 0 {
        Err(DivideError::DivisionByZero)
    } else if a == i32::MIN && b == -1 {
        Err(DivideError::Overflow)
    } else {
        proof {
            lemma_trunc_div_in_range(a as int, b as int);
        }
        let neg: bool = (a < 0) != (b < 0);
        let am: u64 = if a >= 0 {
            a as u64
        } else {
            (-(a as i64)) as u64
        };
        let bm: u64 = if b >= 0 {
            b as u64
        } else {
            (-(b as i64)) as u64
        };
        let qm: u64 = am / bm;
        if neg {
            if qm == 0x8000_0000u64 {
                Ok(i32::MIN)
            } else {
                Ok(-(qm as i32))
            }
        } else {
            Ok(qm as i32)
        }
    }
}

/// The truncating quotient of two `i32` values fits in `i32`, except for
/// `i32::MIN / -1`.
proof fn lemma_trunc_div_in_range(a: int, b: int)
    requires
        -0x8000_0000 <= a < 0x8000_0000,
        -0x8000_0000 <= b < 0x8000_0000,
        b != 0,
        !(a == -0x8000_0000 && b == -1),
    ensures
        -0x8000_0000 <= trunc_div(a, b) < 0x8000_0000,
{
    let x = if a >= 0 {
        a
    } else {
        -a
    };
    let d = if b >= 0 {
        b
    } else {
        -b
    };
    vstd::arithmetic::div_mod::lemma_div_pos_is_pos(x, d);
    vstd::arithmetic::div_mod::lemma_div_nonincreasing(x, d);
    if a == -0x8000_0000 && b < 0 {
        vstd::arithmetic::div_mod::lemma_div_is_ordered_by_denominator(x, 2, d);
    }
}

} // verus!
