//! Factorial and Fibonacci on 64-bit unsigned accumulators, wrapping
//! modulo 2^64 on overflow.
use vstd::prelude::*;
use vstd::arithmetic::div_mod::{lemma_add_mod_noop, lemma_mul_mod_noop_left};

verus! {

/// The number of distinct `u64` values; results wrap modulo this.
pub open spec fn u64_modulus() -> int {
    0x1_0000_0000_0000_0000
}

/// `n!` over the naturals.
pub open spec fn factorial(n: nat) -> nat
    decreases n,
{
    if n <= 1 {
        1
    } else {
        n * factorial((n - 1) as nat)
    }
}

/// The `n`-th Fibonacci number over the naturals, with `fibonacci(0) == 0`
/// and `fibonacci(1) == 1`.
pub open spec fn fibonacci(n: nat) -> nat
    decreases n,
{
    if n == 0 {
        0
    } else if n == 1 {
        1
    } else {
        fibonacci((n - 1) as nat) + fibonacci((n - 2) as nat)
    }
}

/// `n!` as a 64-bit accumulator holds it: reduced modulo 2^64.
pub open spec fn factorial_u64(n: nat) -> int {
    (factorial(n) as int) % u64_modulus()
}

/// The `n`-th Fibonacci number as a 64-bit accumulator holds it.
pub open spec fn fibonacci_u64(n: nat) -> int {
    (fibonacci(n) as int) % u64_modulus()
}

/// Returns `n!`, wrapping modulo 2^64 when the true value does not fit.
pub fn factorielle_rust(n: u32) -> (r: u64)
    ensures
        r == factorial_u64(n as nat),
        factorial(n as nat) <= u64::MAX ==> r == factorial(n as nat),
{
    let mut acc: u64 = 1;
    let mut i: u32 = 1;
    if n == 0 {
        return 1;
    }
    while i < n
        invariant
            1 <= i <= n,
            acc == factorial_u64(i as nat),
        decreases n - i,
    {
        i = i + 1;
        proof {
            let prev = factorial((i - 1) as nat) as int;
            lemma_mul_mod_noop_left(prev, i as int, u64_modulus());
            assert(factorial(i as nat) == prev * i) by (nonlinear_arith)
                requires
                    factorial(i as nat) == i * prev,
            ;
        }
        acc = acc.wrapping_mul(i as u64);
    }
    acc
}

/// Returns the `n`-th Fibonacci number, computed with two rolling
/// accumulators and wrapping modulo 2^64 when the true value does not fit.
pub fn fibonacci_rust(n: u32) -> (r: u64)
    ensures
        r == fibonacci_u64(n as nat),
        fibonacci(n as nat) <= u64::MAX ==> r == fibonacci(n as nat),
{
    if n == 0 {
        return 0;
    }
    let mut a: u64 = 0;
    let mut b: u64 = 1;
    let mut i: u32 = 1;
    while i < n
        invariant
            1 <= i <= n,
            a == fibonacci_u64((i - 1) as nat),
            b == fibonacci_u64(i as nat),
        decreases n - i,
    {
        i = i + 1;
        proof {
            lemma_add_mod_noop(
                fibonacci((i - 1) as nat) as int,
                fibonacci((i - 2) as nat) as int,
                u64_modulus(),
            );
        }
        let next = b.wrapping_add(a);
        a = b;
        b = next;
    }
    b
}

/// Each Fibonacci result from the third on is the wrapped sum of the two
/// before it; where the true value fits in 64 bits the sum does not wrap.
pub proof fn lemma_fibonacci_recurrence(n: nat)
    requires
        n >= 2,
    ensures
        fibonacci_u64(n) == (fibonacci_u64((n - 1) as nat) + fibonacci_u64((n - 2) as nat))
            % u64_modulus(),
        fibonacci(n) <= u64::MAX ==> fibonacci_u64(n) == fibonacci_u64((n - 1) as nat)
            + fibonacci_u64((n - 2) as nat),
{
    lemma_add_mod_noop(
        fibonacci((n - 1) as nat) as int,
        fibonacci((n - 2) as nat) as int,
        u64_modulus(),
    );
}

} // verus!
