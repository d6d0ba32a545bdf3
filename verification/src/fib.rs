//! Fibonacci numbers, computed by the Fibonacci actor.
use vstd::prelude::*;

verus! {

/// The `n`-th Fibonacci number: 0, 1, 1, 2, 3, 5, ...
pub open spec fn fib(n: nat) -> nat
    decreases n,
{
    if n == 0 {
        0
    } else if n == 1 {
        1
    } else {
        fib((n - 2) as nat) + fib((n - 1) as nat)
    }
}

/// Fibonacci numbers do not decrease.
pub proof fn lemma_fib_is_monotonic(i: nat, j: nat)
    requires
        i <= j,
    ensures
        fib(i) <= fib(j),
    decreases j - i,
{
    if j < 2 {
    } else if i == j {
    } else if i == j - 1 {
    } else {
        lemma_fib_is_monotonic(i, (j - 1) as nat);
        lemma_fib_is_monotonic(i, (j - 2) as nat);
    }
}

/// A request for the `n`-th Fibonacci number.
#[derive(Debug, Clone, Copy, PartialEq, Eq, Structural)]
pub struct Fibonacci(pub u32);

/// The actor that computes Fibonacci numbers.
#[derive(Debug)]
pub struct FibActor;

impl FibActor {
    /// A Fibonacci actor.
    pub fn new() -> (r: FibActor) {
        FibActor {}
    }

    /// The requested Fibonacci number; there is none for index zero.
    pub fn handle(&mut self, msg: Fibonacci) -> (r: Result<u64, ()>)
        requires
            fib(msg.0 as nat) <= u64::MAX,
        ensures
            msg.0 == 0 ==> r is Err,
            msg.0 != 0 ==> r == Ok::<u64, ()>(fib(msg.0 as nat) as u64),
    {
        if msg.0 == 0 {
            Err(())
        } else if msg.0 == 1 {
            Ok(1)
        } else {
            let n = msg.0;
            let mut i: u32 = 0;
            let mut sum: u64 = 0;
            let mut last: u64 = 0;
            let mut curr: u64 = 1;
            while i < n - 1
                invariant
                    2 <= n,
                    fib(n as nat) <= u64::MAX,
                    i <= n - 1,
                    last == fib(i as nat),
                    curr == fib(i as nat + 1),
                    i > 0 ==> sum == curr,
                decreases n - 1 - i,
            {
                proof {
                    lemma_fib_is_monotonic(i as nat + 2, n as nat);
                }
                sum = last + curr;
                last = curr;
                curr = sum;
                i += 1;
            }
            Ok(sum)
        }
    }
}

} // verus!
