//! Fibonacci numbers computed two ways: by the naive doubly recursive
//! definition and by an iterative pair of accumulators.
//!
//! Both executable functions return an `i64` and treat every index at or
//! below zero as yielding zero. The recursive variant requires that the
//! exact term fits in an `i64`; the iterative variant is total and, past
//! the last representable term, deliberately carries the recurrence on in
//! wrapping two's-complement 64-bit arithmetic, exactly as its contract
//! states. That silent wraparound is a documented policy of this library,
//! not an accident: the iterative path is meant to be runnable at indices
//! far beyond the 64-bit range.

use vstd::prelude::*;

verus! {

/// The Fibonacci number F(n): F(0) = 0, F(1) = 1, and
/// F(n) = F(n - 1) + F(n - 2) for n >= 2, extended with F(n) = 0 for
/// every negative n.
pub open spec fn fib(n: int) -> nat
    decreases n,
{
    if n <= 0 {
        0
    } else if n == 1 {
        1
    } else {
        fib(n - 1) + fib(n - 2)
    }
}

/// The value a 64-bit signed accumulator holds after running the
/// Fibonacci recurrence in wrapping arithmetic: equal to F(n) as long as
/// F(n) fits in an `i64`, and the wrapped image of it past that point.
pub open spec fn fib_wrapped(n: int) -> i64
    decreases n,
{
    if n <= 0 {
        0
    } else if n == 1 {
        1
    } else {
        vstd::wrapping::i64_specs::wrapping_add(fib_wrapped(n - 1), fib_wrapped(n - 2))
    }
}

/// At every index at or below zero, both the exact sequence and its
/// wrapped counterpart are zero, so both computing strategies return zero
/// there.
pub proof fn lemma_fib_nonpositive(n: int)
    requires
        n <= 0,
    ensures
        fib(n) == 0,
        fib_wrapped(n) == 0,
{
}

/// The Fibonacci sequence is nondecreasing.
pub proof fn lemma_fib_monotonic(i: int, j: int)
    requires
        i <= j,
    ensures
        fib(i) <= fib(j),
    decreases j - i,
{
    if i < j {
        lemma_fib_monotonic(i, j - 1);
        assert(fib(j - 1) <= fib(j));
    }
}

/// Wherever F(n) fits in an `i64`, running the recurrence in wrapping
/// 64-bit arithmetic never actually wraps, so the wrapped sequence is the
/// exact one.
pub proof fn lemma_fib_wrapped_exact(n: int)
    requires
        fib(n) <= i64::MAX,
    ensures
        fib_wrapped(n) == fib(n),
    decreases n,
{
    if n >= 2 {
        lemma_fib_monotonic(n - 1, n);
        lemma_fib_monotonic(n - 2, n);
        lemma_fib_wrapped_exact(n - 1);
        lemma_fib_wrapped_exact(n - 2);
    }
}

/// Concrete anchor for the range on which the two strategies are
/// cross-checked: the Fibonacci number at index thirty.
proof fn lemma_fib_thirty()
    ensures
        fib(30) == 832040,
{
    assert(fib(0) == 0);
    assert(fib(1) == 1);
    assert(fib(2) == 1);
    assert(fib(3) == 2);
    assert(fib(4) == 3);
    assert(fib(5) == 5);
    assert(fib(6) == 8);
    assert(fib(7) == 13);
    assert(fib(8) == 21);
    assert(fib(9) == 34);
    assert(fib(10) == 55);
    assert(fib(11) == 89);
    assert(fib(12) == 144);
    assert(fib(13) == 233);
    assert(fib(14) == 377);
    assert(fib(15) == 610);
    assert(fib(16) == 987);
    assert(fib(17) == 1597);
    assert(fib(18) == 2584);
    assert(fib(19) == 4181);
    assert(fib(20) == 6765);
    assert(fib(21) == 10946);
    assert(fib(22) == 17711);
    assert(fib(23) == 28657);
    assert(fib(24) == 46368);
    assert(fib(25) == 75025);
    assert(fib(26) == 121393);
    assert(fib(27) == 196418);
    assert(fib(28) == 317811);
    assert(fib(29) == 514229);
    assert(fib(30) == 832040);
}

/// Cross-check between the two strategies: at every index from two to
/// thirty the term fits in an `i64` and the wrapped accumulator equals the
/// exact Fibonacci number, so `fib_recursive` and `fib_iterative` return
/// the same value there.
pub proof fn lemma_strategies_agree(n: int)
    requires
        2 <= n <= 30,
    ensures
        fib(n) <= i64::MAX,
        fib_wrapped(n) == fib(n),
{
    lemma_fib_thirty();
    lemma_fib_monotonic(n, 30);
    lemma_fib_wrapped_exact(n);
}

/// Computes F(n) by the naive doubly recursive definition, recomputing
/// every sub-term: exponentially many calls, on purpose, so that the cost
/// of the strategy itself can be measured. No memoization.
pub fn fib_recursive(n: i32) -> (r: i64)
    requires
        fib(n as int) <= i64::MAX,
    ensures
        r == fib(n as int),
    decreases n,
{
    if n <= 0 {
        0
    } else if n == 1 {
        1
    } else {
        proof {
            lemma_fib_monotonic(n - 1, n as int);
            lemma_fib_monotonic(n - 2, n as int);
        }
        fib_recursive(n - 1) + fib_recursive(n - 2)
    }
}

/// Computes the Fibonacci recurrence with two running accumulators in
/// linear time and constant space. Total over every `i32` index: past the
/// last term an `i64` can hold, the accumulators wrap in two's-complement
/// arithmetic, and the contract says exactly which wrapped value comes
/// out.
pub fn fib_iterative(n: i32) -> (r: i64)
    ensures
        r == fib_wrapped(n as int),
        fib(n as int) <= i64::MAX ==> r == fib(n as int),
{
    let r: i64 = if n <= 0 {
        0
    } else if n == 1 {
        1
    } else {
        let end: i64 = n as i64;
        let mut a: i64 = 0;
        let mut b: i64 = 1;
        let mut i: i64 = 2;
        while i <= end
            invariant
                2 <= i <= end + 1,
                end <= i32::MAX,
                a == fib_wrapped(i - 2),
                b == fib_wrapped(i - 1),
            decreases end + 1 - i,
        {
            let t = b;
            b = b.wrapping_add(a);
            a = t;
            i = i + 1;
        }
        b
    };
    proof {
        if fib(n as int) <= i64::MAX {
            lemma_fib_wrapped_exact(n as int);
        }
    }
    r
}

} // verus!
