use vstd::prelude::*;
use crate::decimal::{decimal, decimal_string};
use vstd::arithmetic::div_mod::{lemma_mul_mod_noop_left, lemma_small_mod};
use vstd::arithmetic::mul::lemma_mul_is_associative;

verus! {

/// Number of distinct values of a 32-bit word.
pub open spec fn word_modulus() -> nat {
    0x1_0000_0000
}

/// The factorial of `n`, over the unbounded naturals.
pub open spec fn fact(n: nat) -> nat
    decreases n,
{
    if n == 0 {
        1
    } else {
        n * fact((n - 1) as nat)
    }
}

/// The factorial of `n` as a 32-bit word holds it: reduced modulo 2^32.
pub open spec fn wrapped_fact(n: nat) -> u32 {
    (fact(n) % word_modulus()) as u32
}

/// Multiplies `total` by `multiplier`, `multiplier - 1`, ... down to 1,
/// wrapping on overflow, and leaves `multiplier` at zero.
pub fn factorial_step(total: &mut u32, multiplier: &mut u32)
    ensures
        *final(total) as nat == (*old(total) as nat * fact(*old(multiplier) as nat)) % word_modulus(),
        *final(multiplier) == 0,
{
    let ghost goal: nat = (*total as nat * fact(*multiplier as nat)) % word_modulus();
    while *multiplier != 0
        invariant
            goal == (*old(total) as nat * fact(*old(multiplier) as nat)) % word_modulus(),
            (*total as nat * fact(*multiplier as nat)) % word_modulus() == goal,
        decreases *multiplier,
    {
        let t: u32 = *total;
        let m: u32 = *multiplier;
        *total = t.wrapping_mul(m);
        *multiplier = m - 1;
        proof {
            let rest = fact((m - 1) as nat);
            assert(fact(m as nat) == m as nat * rest);
            lemma_mul_is_associative(t as int, m as int, rest as int);
            lemma_mul_mod_noop_left(t as int * m as int, rest as int, word_modulus() as int);
        }
    }
    proof {
        let t = *total as nat;
        let f = fact(*multiplier as nat);
        assert(f == 1);
        assert(t * f == t) by (nonlinear_arith)
            requires
                f == 1,
        ;
        lemma_small_mod(t, word_modulus());
        assert(t == goal);
    }
}

/// The decimal notation of `count!` as a 32-bit word holds it, wrapping on overflow.
pub fn factorial(count: u32) -> (r: String)
    ensures
        r@ == decimal(wrapped_fact(count as nat) as nat),
{
    let mut total: u32 = 1;
    let mut multiplier: u32 = count;
    factorial_step(&mut total, &mut multiplier);
    decimal_string(total)
}

/// The factorial never decreases as its argument grows.
pub proof fn lemma_fact_monotone(m: nat, n: nat)
    requires
        m <= n,
    ensures
        1 <= fact(m) <= fact(n),
    decreases n,
{
    if n > 0 {
        if m < n {
            lemma_fact_monotone(m, (n - 1) as nat);
        } else {
            lemma_fact_monotone((n - 1) as nat, (n - 1) as nat);
        }
        let prev = fact((n - 1) as nat);
        assert(prev <= n * prev) by (nonlinear_arith)
            requires
                1 <= n,
                1 <= prev,
        ;
    }
}

/// The factorials of 12 and 13, the last that fits a 32-bit word and the first that does not.
pub proof fn lemma_fact_twelve_and_thirteen()
    ensures
        fact(12) == 479001600,
        fact(13) == 6227020800,
        fact(12) < word_modulus() <= fact(13),
{
    assert(fact(0) == 1);
    assert(fact(1) == 1);
    assert(fact(2) == 2);
    assert(fact(3) == 6);
    assert(fact(4) == 24);
    assert(fact(5) == 120);
    assert(fact(6) == 720);
    assert(fact(7) == 5040);
    assert(fact(8) == 40320);
    assert(fact(9) == 362880);
    assert(fact(10) == 3628800);
    assert(fact(11) == 39916800);
    assert(fact(12) == 479001600);
    assert(fact(13) == 6227020800);
}

/// Up to 12, the largest argument whose factorial fits a 32-bit word, the
/// word holds the exact factorial; in particular the factorial of zero is one.
pub proof fn lemma_factorial_exact_up_to_twelve(n: nat)
    requires
        n <= 12,
    ensures
        wrapped_fact(n) as nat == fact(n),
        wrapped_fact(0) == 1,
        fact(13) > u32::MAX,
{
    lemma_fact_twelve_and_thirteen();
    lemma_fact_monotone(n, 12);
    lemma_small_mod(fact(n), word_modulus());
    lemma_small_mod(fact(0), word_modulus());
}

/// From 13 on the factorial no longer fits a 32-bit word: the word holds the
/// factorial reduced modulo 2^32, which differs from the factorial itself.
pub proof fn lemma_factorial_wraps_beyond_twelve(n: nat)
    requires
        n > 12,
    ensures
        wrapped_fact(n) as nat == fact(n) % word_modulus(),
        wrapped_fact(n) as nat != fact(n),
{
    lemma_fact_twelve_and_thirteen();
    lemma_fact_monotone(13, n);
}

} // verus!
