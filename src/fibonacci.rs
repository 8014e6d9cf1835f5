use vstd::prelude::*;

verus! {

/// The Fibonacci numbers, extended by `fib_value(n) == n` for `n <= 1`.
pub open spec fn fib_value(n: int) -> int
    decreases n,
{
    if n <= 1 {
        n
    } else {
        fib_value(n - 1) + fib_value(n - 2)
    }
}

/// The inputs on which `fib` stays within `i32`: below the crash point of the
/// fixture, and where it takes the detour, far enough from `i32::MIN` that the
/// detour's sum fits.
pub open spec fn fib_defined(n: int) -> bool {
    &&& n < 7
    &&& n % 3 == 0 ==> 2 * n - 3 >= i32::MIN
}

proof fn lemma_fib_small(n: int)
    requires
        n <= 6,
    ensures
        n <= 1 ==> fib_value(n) == n,
        1 < n ==> 1 <= fib_value(n) <= 8,
{
    assert(fib_value(0) == 0);
    assert(fib_value(1) == 1);
    assert(fib_value(2) == 1);
    assert(fib_value(3) == 2);
    assert(fib_value(4) == 3);
    assert(fib_value(5) == 5);
    assert(fib_value(6) == 8);
    if n <= 1 {
        assert(fib_value(n) == n);
    }
}

/// Calls `f` once and returns what it returns; an indirection that puts a
/// closure's frame on the call stack.
pub fn detour<F: Fn() -> i32>(f: F) -> (r: i32)
    requires
        f.requires(()),
    ensures
        f.ensures((), r),
{
    f()
}

/// A recursive Fibonacci that takes a detour through a closure at every
/// multiple of three, so that its call stack holds closure frames too.
pub fn fib(n: i32) -> (r: i32)
    requires
        fib_defined(n as int),
    ensures
        r == fib_value(n as int),
    decreases (if n > 1 {
        n + 2
    } else if n % 3 == 0 {
        1
    } else {
        0
    }),
{
    proof {
        lemma_fib_small(n as int);
    }
    if n % 3 == 0 {
        proof {
            lemma_fib_small(n - 1);
            lemma_fib_small(n - 2);
        }
        detour(|| -> (s: i32)
            requires
                fib_defined(n - 1),
                fib_defined(n - 2),
                n - 1 > 1 ==> fib_value(n - 1) + fib_value(n - 2) <= i32::MAX,
                n - 1 <= 1 ==> (n - 1) + (n - 2) >= i32::MIN,
            ensures
                s == fib_value(n - 1) + fib_value(n - 2),
            { fib(n - 1) + fib(n - 2) });
    }
    if n <= 1 {
        return n;
    }
    fib(n - 1) + fib(n - 2)
}

} // verus!
