//! The sample workload: a recursive Fibonacci computation, used only to
//! generate a deterministic stream of instructions for the counters to count.

use vstd::prelude::*;

verus! {

/// The Fibonacci-style sequence the workload computes: both base values are
/// one, every later value the sum of the two before it.
pub open spec fn spec_fib(n: nat) -> nat
    decreases n,
{
    if n < 2 {
        1
    } else {
        spec_fib((n - 1) as nat) + spec_fib((n - 2) as nat)
    }
}

/// The sequence never decreases along its index.
pub proof fn lemma_fib_monotonic(i: nat, j: nat)
    requires
        i <= j,
    ensures
        spec_fib(i) <= spec_fib(j),
    decreases j,
{
    if i < j && 2 <= j {
        lemma_fib_monotonic(i, (j - 1) as nat);
    }
}

/// The sample workload itself: computes the sequence recursively, exactly as
/// many instructions deep as its argument asks for.
pub fn fib(n: u64) -> (r: u64)
    requires
        spec_fib(n as nat) <= u64::MAX,
    ensures
        r == spec_fib(n as nat),
    decreases n,
{
    if n < 2 {
        1
    } else {
        proof {
            lemma_fib_monotonic((n - 1) as nat, n as nat);
            lemma_fib_monotonic((n - 2) as nat, n as nat);
        }
        fib(n - 1) + fib(n - 2)
    }
}

} // verus!
