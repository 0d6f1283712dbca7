//! The Fibonacci sequence and the recursive routine that computes it.

use vstd::prelude::*;

verus! {

/// The largest index whose Fibonacci number still fits in a `u64`.
pub const MAX_INDEX: u64 = 93;

/// The Fibonacci sequence, counted from zero: `F(0) = 0`, `F(1) = 1`, and
/// each later term is the sum of the two terms before it.
pub open spec fn fibonacci(n: nat) -> nat
    decreases n,
{
    if n <= 1 {
        n
    } else {
        fibonacci((n - 1) as nat) + fibonacci((n - 2) as nat)
    }
}

/// Ten steps along the sequence at once: the terms at `k + 10` and `k + 11`
/// are fixed linear combinations of the terms at `k` and `k + 1`.
proof fn lemma_skip_ten(k: nat)
    ensures
        fibonacci(k + 10) == 34 * fibonacci(k) + 55 * fibonacci(k + 1),
        fibonacci(k + 11) == 55 * fibonacci(k) + 89 * fibonacci(k + 1),
{
    reveal_with_fuel(fibonacci, 11);
}

/// The sequence never decreases.
pub proof fn lemma_fibonacci_monotone(i: nat, j: nat)
    requires
        i <= j,
    ensures
        fibonacci(i) <= fibonacci(j),
    decreases j,
{
    if i < j && j >= 2 {
        lemma_fibonacci_monotone(i, (j - 1) as nat);
    }
}

/// The terms that the rest of the library relies on: the thirtieth, the last
/// one that a `u64` can hold, and the first one that it cannot.
pub proof fn lemma_fibonacci_values()
    ensures
        fibonacci(30) == 832_040,
        fibonacci(93) == 12_200_160_415_121_876_738,
        fibonacci(94) == 19_740_274_219_868_223_167,
{
    lemma_skip_ten(0);
    lemma_skip_ten(10);
    lemma_skip_ten(20);
    assert(fibonacci(30) == 832_040);
    lemma_skip_ten(30);
    lemma_skip_ten(40);
    lemma_skip_ten(50);
    lemma_skip_ten(60);
    lemma_skip_ten(70);
    lemma_skip_ten(80);
    assert(fibonacci(90) == 2_880_067_194_370_816_120);
    assert(fibonacci(91) == 4_660_046_610_375_530_309);
    assert(fibonacci(92) == fibonacci(91) + fibonacci(90));
    assert(fibonacci(93) == fibonacci(92) + fibonacci(91));
    assert(fibonacci(94) == fibonacci(93) + fibonacci(92));
}

/// A term of the sequence fits in a `u64` exactly when its index is at most
/// [`MAX_INDEX`].
pub proof fn lemma_fits_u64(n: nat)
    ensures
        fibonacci(n) <= u64::MAX <==> n <= MAX_INDEX,
{
    lemma_fibonacci_values();
    if n <= 93 {
        lemma_fibonacci_monotone(n, 93);
    } else {
        lemma_fibonacci_monotone(94, n);
    }
}

/// Computes the `n`-th Fibonacci number by plain double recursion, with no
/// table of earlier results: each call below index two returns its argument,
/// every other call adds the results of the two calls before it.
///
/// The index is bounded by [`MAX_INDEX`], beyond which the result no longer
/// fits in the return type.
pub fn fib(n: u64) -> (result: u64)
    requires
        n <= MAX_INDEX,
    ensures
        result == fibonacci(n as nat),
        n <= 1 ==> result == n,
    decreases n,
{
    if n <= 1 {
        return n;
    }
    proof {
        lemma_fits_u64(n as nat);
    }
    fib(n - 1) + fib(n - 2)
}

} // verus!
