use vstd::prelude::*;

verus! {

/// `n` is a prime: at least 2, and no number from 2 up to `n - 1` divides it.
pub open spec fn prime(n: nat) -> bool {
    n >= 2 && forall|d: nat| 2 <= d < n ==> #[trigger] (n % d) != 0
}

/// The product of the primes from 1 up to `n`.
pub open spec fn primorial(n: nat) -> nat
    decreases n,
{
    if n == 0 {
        1
    } else {
        primorial((n - 1) as nat) * (if prime(n) { n } else { 1 })
    }
}

proof fn lemma_primorial_monotonic(a: nat, b: nat)
    requires
        a <= b,
    ensures
        primorial(a) <= primorial(b),
    decreases b,
{
    if a < b {
        lemma_primorial_monotonic(a, (b - 1) as nat);
        let p = primorial((b - 1) as nat);
        let f: nat = if prime(b) { b } else { 1 };
        assert(p <= p * f) by (nonlinear_arith)
            requires
                f >= 1,
        ;
    }
}

/// Trial division by every number from 2 below `x`.
fn is_prime(x: &u128) -> (r: bool)
    ensures
        r == prime(*x as nat),
{
    let n = *x;
    if n < 2 {
        return false;
    }
    let mut d: u128 = 2;
    while d < n
        invariant
            2 <= d <= n,
            n == *x,
            forall|k: nat| 2 <= k < d ==> #[trigger] ((n as nat) % k) != 0,
        decreases n - d,
    {
        if n % d == 0 {
            assert(!prime(n as nat)) by {
                let k = d as nat;
                assert(2 <= k < n as nat && (n as nat) % k == 0);
            }
            return false;
        }
        d = d + 1;
    }
    true
}

/// The product of all primes up to `x`.
pub fn expensive_computation(x: u32) -> (r: u128)
    requires
        primorial(x as nat) <= u128::MAX,
    ensures
        r == primorial(x as nat),
{
    let n = x as u128;
    let mut product: u128 = 1;
    let mut i: u128 = 0;
    while i < n
        invariant
            i <= n,
            n == x,
            product == primorial(i as nat),
            primorial(n as nat) <= u128::MAX,
        decreases n - i,
    {
        i = i + 1;
        proof {
            lemma_primorial_monotonic(i as nat, n as nat);
        }
        if is_prime(&i) {
            product = product * i;
        }
    }
    product
}

} // verus!
