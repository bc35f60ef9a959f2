//! Modular arithmetic over `u64` values: exponentiation, products and the
//! exponent-domain difference used by the response step.
use vstd::arithmetic::div_mod::*;
use vstd::arithmetic::mul::*;
use vstd::arithmetic::power::*;
use vstd::prelude::*;

use num_bigint::BigUint;

verus! {

/// `b^e mod m`, as an integer in `[0, m)`.
pub open spec fn pow_mod(b: int, e: nat, m: int) -> int {
    pow(b, e) % m
}

/// Relies on `num_bigint::BigUint::modpow`: it returns `(self ^ exponent) % modulus`
/// and panics only on a zero modulus.
#[verifier::external_body]
pub(crate) fn mod_pow(base: u64, exp: u64, modulus: u64) -> (r: u64)
    requires
        modulus > 0,
    ensures
        r as int == pow_mod(base as int, exp as nat, modulus as int),
{
    let r = BigUint::from(base).modpow(&BigUint::from(exp), &BigUint::from(modulus));
    u64::try_from(&r).unwrap()
}

/// The product of two `u64` values fits in a `u128`.
proof fn lemma_product_fits(a: u64, b: u64)
    ensures
        0 <= a as int * b as int <= u128::MAX as int,
{
    lemma_mul_upper_bound(a as int, u64::MAX as int, b as int, u64::MAX as int);
    lemma_mul_nonnegative(a as int, b as int);
    assert(0xffff_ffff_ffff_ffffint * 0xffff_ffff_ffff_ffffint <= 0xffff_ffff_ffff_ffff_ffff_ffff_ffff_ffffint);
}

/// `(a * b) mod m`, computed without overflow.
pub fn mul_mod(a: u64, b: u64, m: u64) -> (r: u64)
    requires
        m > 0,
    ensures
        r as int == (a as int * b as int) % (m as int),
{
    proof {
        lemma_product_fits(a, b);
    }
    let prod: u128 = (a as u128) * (b as u128);
    let r: u128 = prod % (m as u128);
    r as u64
}

/// `(k - c * x) mod q`, the canonical representative in `[0, q)`.
pub fn sub_mul_mod(k: u64, c: u64, x: u64, q: u64) -> (r: u64)
    requires
        q > 0,
    ensures
        (r as int) < q as int,
        r as int == (k as int - c as int * x as int) % (q as int),
{
    let qq = q as u128;
    proof {
        lemma_product_fits(c, x);
    }
    let cx: u128 = ((c as u128) * (x as u128)) % qq;
    let kq: u128 = (k as u128) % qq;
    proof {
        lemma_mul_is_commutative(c as int, x as int);
    }
    let r: u128 = if kq >= cx {
        kq - cx
    } else {
        kq + qq - cx
    };
    proof {
        let ki = k as int;
        let cxi = c as int * x as int;
        let qi = q as int;
        lemma_fundamental_div_mod(ki, qi);
        lemma_fundamental_div_mod(cxi, qi);
        // k - c*x == (k/q - cx/q) * q + (k%q - cx%q)
        let m = ki / qi - cxi / qi;
        assert(ki - cxi == m * qi + (ki % qi - cxi % qi)) by (nonlinear_arith)
            requires
                ki == qi * (ki / qi) + ki % qi,
                cxi == qi * (cxi / qi) + cxi % qi,
                m == ki / qi - cxi / qi,
        ;
        if kq >= cx {
            lemma_fundamental_div_mod_converse(ki - cxi, qi, m, r as int);
        } else {
            assert(ki - cxi == (m - 1) * qi + r as int) by (nonlinear_arith)
                requires
                    ki - cxi == m * qi + (ki % qi - cxi % qi),
                    r as int == ki % qi + qi - cxi % qi,
            ;
            lemma_fundamental_div_mod_converse(ki - cxi, qi, m - 1, r as int);
        }
    }
    r as u64
}

/// Exponents that agree modulo the order of `g` give the same power.
pub proof fn lemma_pow_mod_order(g: int, q: nat, p: int, a: nat)
    requires
        q > 0,
        p > 1,
        pow_mod(g, q, p) == 1,
    ensures
        pow_mod(g, a, p) == pow_mod(g, a % q, p),
{
    let n = a / q;
    let r = a % q;
    lemma_fundamental_div_mod(a as int, q as int);
    assert(a == q * n + r);
    lemma_mul_is_commutative(q as int, n as int);
    lemma_pow_adds(g, (q * n) as nat, r as nat);
    lemma_pow_multiplies(g, q, n as nat);
    // (g^q)^n mod p == (g^q mod p)^n mod p == 1
    lemma_pow_mod_noop(pow(g, q), n as nat, p);
    lemma1_pow(n as nat);
    lemma_mul_mod_noop(pow(pow(g, q), n as nat), pow(g, r as nat), p);
    lemma_small_mod(1, p as nat);
    lemma_mul_mod_noop(1, pow(g, r as nat), p);
}

/// Two exponents congruent modulo the order of `g` give the same power.
pub proof fn lemma_pow_congruent(g: int, q: nat, p: int, a: nat, b: nat)
    requires
        q > 0,
        p > 1,
        pow_mod(g, q, p) == 1,
        a % q == b % q,
    ensures
        pow_mod(g, a, p) == pow_mod(g, b, p),
{
    lemma_pow_mod_order(g, q, p, a);
    lemma_pow_mod_order(g, q, p, b);
}

/// `(g^s mod p) * ((g^x mod p)^c mod p) mod p == g^(s + x*c) mod p`.
pub proof fn lemma_recombine(g: int, x: nat, c: nat, s: nat, p: int)
    requires
        p > 0,
    ensures
        (pow_mod(g, s, p) * pow_mod(pow_mod(g, x, p), c, p)) % p == pow_mod(g, s + x * c, p),
{
    lemma_pow_mod_noop(pow(g, x), c, p);
    lemma_pow_multiplies(g, x, c);
    lemma_mul_mod_noop(pow(g, s), pow(g, x * c), p);
    lemma_pow_adds(g, s, x * c);
}

} // verus!
