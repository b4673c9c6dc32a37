use vstd::prelude::*;

verus! {

/// The Fibonacci numbers: `fib(0) == 0`, `fib(1) == 1`,
/// `fib(n) == fib(n - 1) + fib(n - 2)`.
pub open spec fn fib(n: nat) -> nat
    decreases n,
{
    if n == 0 {
        0
    } else if n == 1 {
        1
    } else {
        fib((n - 1) as nat) + fib((n - 2) as nat)
    }
}

/// Fibonacci numbers never decrease.
pub proof fn lemma_fib_monotonic(i: nat, j: nat)
    requires
        i <= j,
    ensures
        fib(i) <= fib(j),
    decreases j - i,
{
    if i < j {
        lemma_fib_monotonic(i, (j - 1) as nat);
        assert(fib((j - 1) as nat) <= fib(j)) by {
            if j >= 2 {
            }
        }
    }
}

/// The `n`-th Fibonacci number, computed by the naive double recursion
/// (deliberately expensive: it is the workload of the executor benchmarks).
///
/// Defined for `n >= 1` whose Fibonacci number fits in an `i32`; smaller `n`
/// are a caller error, larger ones would overflow.
pub fn fibonacci(n: i32) -> (r: i32)
    requires
        1 <= n,
        fib(n as nat) <= i32::MAX,
    ensures
        r == fib(n as nat),
    decreases n,
{
    if n <= 2 {
        assert(fib(2) == 1) by {
            reveal_with_fuel(fib, 3);
        }
        return 1;
    }
    proof {
        lemma_fib_monotonic((n - 1) as nat, n as nat);
        lemma_fib_monotonic((n - 2) as nat, n as nat);
    }
    let a = fibonacci(n - 1);
    let b = fibonacci(n - 2);
    a + b
}

} // verus!
