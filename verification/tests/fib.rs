use fibbench::fib_iterative;
use fibbench::fib_recursive;

#[test]
fn nonpositive_indices_give_zero() {
    for n in [0, -1, -2, -17, -1000, i32::MIN] {
        assert_eq!(fib_recursive(n), 0);
        assert_eq!(fib_iterative(n), 0);
    }
}

#[test]
fn index_one_gives_one() {
    assert_eq!(fib_recursive(1), 1);
    assert_eq!(fib_iterative(1), 1);
}

#[test]
fn strategies_agree_up_to_thirty() {
    for n in 2..=30 {
        assert_eq!(fib_recursive(n), fib_iterative(n));
    }
}

#[test]
fn concrete_values_recursive() {
    assert_eq!(fib_recursive(0), 0);
    assert_eq!(fib_recursive(1), 1);
    assert_eq!(fib_recursive(2), 1);
    assert_eq!(fib_recursive(3), 2);
    assert_eq!(fib_recursive(10), 55);
    assert_eq!(fib_recursive(20), 6765);
    assert_eq!(fib_recursive(30), 832040);
}

#[test]
fn concrete_values_iterative() {
    assert_eq!(fib_iterative(0), 0);
    assert_eq!(fib_iterative(1), 1);
    assert_eq!(fib_iterative(2), 1);
    assert_eq!(fib_iterative(3), 2);
    assert_eq!(fib_iterative(10), 55);
    assert_eq!(fib_iterative(20), 6765);
    assert_eq!(fib_iterative(30), 832040);
}

#[test]
fn iterative_ninety_is_exact() {
    // F(90) still fits an i64, so the iterative result must be the exact
    // Fibonacci number.
    assert_eq!(fib_iterative(90), 2880067194370816120);
}

#[test]
fn iterative_last_exact_terms() {
    // F(92) is the last Fibonacci number an i64 can hold exactly.
    assert_eq!(fib_iterative(91), 4660046610375530309);
    assert_eq!(fib_iterative(92), 7540113804746346429);
}

#[test]
fn iterative_wraps_past_ninety_two() {
    // F(93) = 12200160415121876738 no longer fits in an i64; the
    // accumulators wrap, and the contract promises exactly this value:
    // F(93) - 2^64.
    assert_eq!(fib_iterative(93), -6246583658587674878);
}

#[test]
fn iterative_thousand_reproduces_wrapped_value() {
    // The benchmark's iterative input. The true F(1000) is astronomically
    // larger than an i64; the printed value is F(1000) reduced modulo 2^64
    // and read back as a signed 64-bit integer.
    assert_eq!(fib_iterative(1000), 817770325994397771);
}
