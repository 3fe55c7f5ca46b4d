//! Integer division whose failures cross the boundary as a status code.
use vstd::prelude::*;

verus! {

/// Status returned when the quotient was written.
pub const SUCCESS: i32 = 0;

/// Status returned when the output slot is missing or the divisor is zero.
pub const ERROR_INVALID_INPUT: i32 = -1;

/// Quotient of `a` by `b` rounded toward zero, as the CPU's signed division
/// computes it (the spec-level `/` is Euclidean division instead).
pub open spec fn truncated_quotient(a: int, b: int) -> int {
    let q = magnitude(a) / magnitude(b);
    if (a < 0) == (b < 0) {
        q
    } else {
        -q
    }
}

/// The absolute value of `x`.
pub open spec fn magnitude(x: int) -> int {
    if x < 0 {
        -x
    } else {
        x
    }
}

/// Euclidean division of a non-negative dividend by a negative divisor is
/// the negated quotient by the divisor's magnitude.
proof fn lemma_div_by_negative(x: int, d: int)
    requires
        0 <= x,
        d < 0,
    ensures
        x / d == -(x / -d),
{
    let q = x / -d;
    let r = x % -d;
    assert(x == d * (-q) + r && 0 <= r < -d) by (nonlinear_arith)
        requires
            q == x / -d,
            r == x % -d,
            -d > 0,
    ;
    assert(x / d == -q) by (nonlinear_arith)
        requires
            x == d * (-q) + r,
            0 <= r < -d,
    ;
}

/// Divides `a` by `b` and writes the quotient into `resultat`.
///
/// A missing slot (`None`, the null address) is rejected before anything
/// else; a zero divisor is rejected next. On either failure nothing is
/// written and `ERROR_INVALID_INPUT` is returned. Otherwise the quotient,
/// rounded toward zero, is the one value written and `SUCCESS` is returned.
/// The one quotient that does not fit in 32 bits, `i32::MIN / -1`, is left
/// out of the accepted inputs: the CPU's division traps on it.
pub fn diviser_entiers(a: i32, b: i32, resultat: Option<&mut i32>) -> (r: i32)
    requires
        resultat is Some && b == -1 ==> a != i32::MIN,
    ensures
        resultat is None ==> r == ERROR_INVALID_INPUT,
        resultat matches Some(out) ==> (b == 0 ==> r == ERROR_INVALID_INPUT && *final(out) == *out),
        resultat matches Some(out) ==> (b != 0 ==> r == SUCCESS && *final(out) == truncated_quotient(
            a as int,
            b as int,
        )),
{
    match resultat {
        None => ERROR_INVALID_INPUT,
        Some(out) => {
            if b == 0 {
                return ERROR_INVALID_INPUT;
            }
            let q = a / b;
            proof {
                if a >= 0 && b < 0 {
                    lemma_div_by_negative(a as int, b as int);
                } else if a < 0 && b < 0 {
                    lemma_div_by_negative(-a, b as int);
                    assert((-a) / (-b) <= i32::MAX) by (nonlinear_arith)
                        requires
                            0 < -a <= 0x8000_0000,
                            -b >= 1,
                            -b == 1 ==> -a < 0x8000_0000,
                    ;
                } else if a < 0 {
                    assert((-a) / (b as int) <= 0x8000_0000) by (nonlinear_arith)
                        requires
                            0 < -a <= 0x8000_0000,
                            b >= 1,
                    ;
                }
            }
            *out = q;
            SUCCESS
        },
    }
}

} // verus!
