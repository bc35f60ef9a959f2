//! Properties of the protocol as a whole, stated over the contracts of its
//! transitions.
use vstd::arithmetic::div_mod::*;
use vstd::arithmetic::mul::*;
use vstd::arithmetic::power::*;
use vstd::prelude::*;

use crate::auth::{ChallengeStore, Register};
use crate::arith::{lemma_pow_congruent, lemma_pow_mod_order, lemma_recombine, pow_mod};
use crate::material::{is_generator, is_prime, Material};
use crate::protocol::{accepts, response_value};

verus! {

/// `s + x*c` and `k` agree modulo `q` when `s = (k - c*x) mod q`.
proof fn lemma_response_congruent(k: int, c: int, x: int, q: int)
    requires
        q > 0,
        k >= 0,
        c >= 0,
        x >= 0,
    ensures
        response_value(k, c, x, q) >= 0,
        (response_value(k, c, x, q) + x * c) % q == k % q,
{
    let s = response_value(k, c, x, q);
    lemma_fundamental_div_mod(k - c * x, q);
    let t = (k - c * x) / q;
    assert(s + x * c == q * (-t) + k) by (nonlinear_arith)
        requires
            k - c * x == q * t + s,
    ;
    lemma_mod_multiples_vanish(-t, k, q);
}

/// Powers multiply when exponents add, modulo `p`.
proof fn lemma_pow_mod_adds(g: int, e1: nat, e2: nat, p: int)
    requires
        p > 0,
    ensures
        pow_mod(g, e1 + e2, p) == (pow_mod(g, e1, p) * pow_mod(g, e2, p)) % p,
{
    lemma_pow_adds(g, e1, e2);
    lemma_mul_mod_noop(pow(g, e1), pow(g, e2), p);
}

/// For `g` of order exactly `q`, equal powers have congruent exponents.
proof fn lemma_equal_powers_congruent(g: int, q: int, p: int, a: nat, b: nat)
    requires
        is_generator(g, q, p),
        pow_mod(g, a, p) == pow_mod(g, b, p),
    ensures
        a as int % q == b as int % q,
{
    lemma_pow_mod_order(g, q as nat, p, a);
    lemma_pow_mod_order(g, q as nat, p, b);
    let a1 = (a as int % q) as nat;
    let b1 = (b as int % q) as nat;
    if a1 != b1 {
        let (lo, hi) = if a1 < b1 {
            (a1, b1)
        } else {
            (b1, a1)
        };
        let d = (hi - lo) as nat;
        let up = (q - lo) as nat;
        // g^(q - lo) * g^lo == g^q == 1, and g^(q - lo) * g^hi == g^(q + d)
        lemma_pow_mod_adds(g, up, lo, p);
        lemma_pow_mod_adds(g, up, hi, p);
        assert(up + lo == q);
        assert(up + hi == q + d);
        lemma_pow_mod_order(g, q as nat, p, (q + d) as nat);
        lemma_mod_multiples_vanish(1, d as int, q);
        lemma_small_mod(d, q as nat);
        assert(pow_mod(g, d, p) == 1);
        assert(false);
    }
}

/// Completeness: with valid group parameters, the values of an honest run
/// (registration `g^x`, `h^x`, commitment `g^k`, `h^k`, response
/// `(k - c*x) mod q`) are accepted by the verifier, for every secret `x`,
/// nonce `k` and challenge `c`.
pub proof fn lemma_honest_run_accepted(m: Material, x: u64, k: u64, c: u64)
    requires
        m.valid(),
    ensures
        accepts(
            m,
            pow_mod(m.g as int, x as nat, m.p as int),
            pow_mod(m.h as int, x as nat, m.p as int),
            pow_mod(m.g as int, k as nat, m.p as int),
            pow_mod(m.h as int, k as nat, m.p as int),
            c as int,
            response_value(k as int, c as int, x as int, m.q as int),
        ),
{
    let q = m.q as int;
    let p = m.p as int;
    lemma_response_congruent(k as int, c as int, x as int, q);
    let s = response_value(k as int, c as int, x as int, q) as nat;
    lemma_mul_nonnegative(x as int, c as int);
    let e = (s + x * c) as nat;
    lemma_recombine(m.g as int, x as nat, c as nat, s, p);
    lemma_recombine(m.h as int, x as nat, c as nat, s, p);
    lemma_pow_congruent(m.g as int, m.q as nat, p, e, k as nat);
    lemma_pow_congruent(m.h as int, m.q as nat, p, e, k as nat);
}

/// Only the honest response passes: with valid group parameters, an honest
/// registration of `x` and an honest commitment to `k`, the one response in
/// `[0, q)` that the verifier accepts for challenge `c` is `(k - c*x) mod q`.
/// So a response for another secret `x2` passes only when
/// `c * x2 ≡ c * x (mod q)`.
pub proof fn lemma_only_honest_response_accepted(m: Material, x: u64, k: u64, c: u64, s: u64)
    requires
        m.valid(),
        s < m.q,
        accepts(
            m,
            pow_mod(m.g as int, x as nat, m.p as int),
            pow_mod(m.h as int, x as nat, m.p as int),
            pow_mod(m.g as int, k as nat, m.p as int),
            pow_mod(m.h as int, k as nat, m.p as int),
            c as int,
            s as int,
        ),
    ensures
        s as int == response_value(k as int, c as int, x as int, m.q as int),
{
    let q = m.q as int;
    let p = m.p as int;
    lemma_mul_nonnegative(x as int, c as int);
    let e = (s + x * c) as nat;
    lemma_recombine(m.g as int, x as nat, c as nat, s as nat, p);
    lemma_equal_powers_congruent(m.g as int, q, p, e, k as nat);
    // s ≡ k - c*x (mod q), and both lie in [0, q)
    lemma_mul_is_commutative(x as int, c as int);
    lemma_fundamental_div_mod(e as int, q);
    lemma_fundamental_div_mod(k as int, q);
    let t = (e as int) / q - (k as int) / q;
    assert(k as int - c as int * x as int == q * (-t) + s as int) by (nonlinear_arith)
        requires
            e as int == s as int + x as int * c as int,
            x as int * c as int == c as int * x as int,
            e as int == q * (e as int / q) + e as int % q,
            k as int == q * (k as int / q) + k as int % q,
            e as int % q == k as int % q,
            t == (e as int) / q - (k as int) / q,
    ;
    lemma_mul_is_commutative(q, -t);
    lemma_fundamental_div_mod_converse(k as int - c as int * x as int, q, -t, s as int);
}

/// A response computed with another secret `x2` passes only when
/// `c * x2 ≡ c * x (mod q)`.
pub proof fn lemma_other_secret_rejected(m: Material, x: u64, x2: u64, k: u64, c: u64)
    requires
        m.valid(),
        accepts(
            m,
            pow_mod(m.g as int, x as nat, m.p as int),
            pow_mod(m.h as int, x as nat, m.p as int),
            pow_mod(m.g as int, k as nat, m.p as int),
            pow_mod(m.h as int, k as nat, m.p as int),
            c as int,
            response_value(k as int, c as int, x2 as int, m.q as int),
        ),
    ensures
        (c as int * x2 as int) % (m.q as int) == (c as int * x as int) % (m.q as int),
{
    let q = m.q as int;
    let s2 = response_value(k as int, c as int, x2 as int, q);
    lemma_mod_bound(k as int - c as int * x2 as int, q);
    lemma_only_honest_response_accepted(m, x, k, c, s2 as u64);
    let s = response_value(k as int, c as int, x as int, q);
    // (k - c*x) % q == (k - c*x2) % q, so c*x ≡ c*x2
    lemma_fundamental_div_mod(k as int - c as int * x as int, q);
    lemma_fundamental_div_mod(k as int - c as int * x2 as int, q);
    let t1 = (k as int - c as int * x as int) / q;
    let t2 = (k as int - c as int * x2 as int) / q;
    assert(c as int * x2 as int == q * (t1 - t2) + c as int * x as int) by (nonlinear_arith)
        requires
            k as int - c as int * x as int == q * t1 + s,
            k as int - c as int * x2 as int == q * t2 + s2,
            s == s2,
    ;
    lemma_mod_multiples_vanish(t1 - t2, c as int * x as int, q);
}

/// A prime divides a product of two numbers in `[1, p)` never.
proof fn lemma_prime_product_nonzero(p: int, a: int, b: int)
    requires
        is_prime(p),
        1 <= a < p,
        1 <= b < p,
    ensures
        (a * b) % p != 0,
    decreases a,
{
    if a == 1 {
        lemma_small_mod(b as nat, p as nat);
    } else {
        let t = p / a;
        let r = p % a;
        lemma_fundamental_div_mod(p, a);
        assert(p % a != 0);
        lemma_mod_bound(p, a);
        lemma_prime_product_nonzero(p, r, b);
        if (a * b) % p == 0 {
            lemma_fundamental_div_mod(a * b, p);
            let u = (a * b) / p;
            assert(r * b == p * (b - t * u)) by (nonlinear_arith)
                requires
                    p == a * t + r,
                    a * b == p * u + 0,
            ;
            lemma_mod_multiples_basic(b - t * u, p);
            lemma_mul_is_commutative(p, b - t * u);
            assert(false);
        }
    }
}

/// Soundness: with valid group parameters of prime order `q`, an honest
/// registration of `x` and an honest commitment, a response computed with a
/// secret `x2` that differs from `x` modulo `q` is rejected for every
/// challenge `c` in `[1, q)`.
pub proof fn lemma_other_secret_fails(m: Material, x: u64, x2: u64, k: u64, c: u64)
    requires
        m.valid(),
        is_prime(m.q as int),
        1 <= c < m.q,
        x as int % m.q as int != x2 as int % m.q as int,
    ensures
        !accepts(
            m,
            pow_mod(m.g as int, x as nat, m.p as int),
            pow_mod(m.h as int, x as nat, m.p as int),
            pow_mod(m.g as int, k as nat, m.p as int),
            pow_mod(m.h as int, k as nat, m.p as int),
            c as int,
            response_value(k as int, c as int, x2 as int, m.q as int),
        ),
{
    let q = m.q as int;
    if accepts(
        m,
        pow_mod(m.g as int, x as nat, m.p as int),
        pow_mod(m.h as int, x as nat, m.p as int),
        pow_mod(m.g as int, k as nat, m.p as int),
        pow_mod(m.h as int, k as nat, m.p as int),
        c as int,
        response_value(k as int, c as int, x2 as int, q),
    ) {
        lemma_other_secret_rejected(m, x, x2, k, c);
        let ci = c as int;
        let d = x2 as int - x as int;
        // c * d is a multiple of q
        lemma_fundamental_div_mod(ci * x2 as int, q);
        lemma_fundamental_div_mod(ci * x as int, q);
        let a1 = (ci * x2 as int) / q;
        let a2 = (ci * x as int) / q;
        assert(ci * d == q * (a1 - a2)) by (nonlinear_arith)
            requires
                ci * x2 as int == q * a1 + (ci * x2 as int) % q,
                ci * x as int == q * a2 + (ci * x as int) % q,
                (ci * x2 as int) % q == (ci * x as int) % q,
                d == x2 as int - x as int,
        ;
        lemma_mod_multiples_basic(a1 - a2, q);
        lemma_mul_is_commutative(q, a1 - a2);
        // reduce d modulo q
        let d1 = d % q;
        lemma_mod_bound(d, q);
        lemma_mul_mod_noop_right(ci, d, q);
        if d1 != 0 {
            lemma_prime_product_nonzero(q, ci, d1);
            assert(false);
        }
        // d ≡ 0 (mod q), so x2 ≡ x
        lemma_fundamental_div_mod(d, q);
        lemma_fundamental_div_mod(x as int, q);
        lemma_mod_multiples_vanish(d / q, x as int, q);
        assert(x2 as int == q * (d / q) + x as int);
    }
}

/// A tampered commitment fails: the honest response is accepted only
/// against the commitment `(g^k mod p, h^k mod p)` it was computed for.
pub proof fn lemma_tampered_commitment_rejected(m: Material, x: u64, k: u64, c: u64, r1: u64, r2: u64)
    requires
        m.valid(),
        r1 as int != pow_mod(m.g as int, k as nat, m.p as int) || r2 as int != pow_mod(
            m.h as int,
            k as nat,
            m.p as int,
        ),
    ensures
        !accepts(
            m,
            pow_mod(m.g as int, x as nat, m.p as int),
            pow_mod(m.h as int, x as nat, m.p as int),
            r1 as int,
            r2 as int,
            c as int,
            response_value(k as int, c as int, x as int, m.q as int),
        ),
{
    lemma_honest_run_accepted(m, x, k, c);
}

/// Re-registration: storing a second registration for the same user leaves
/// exactly the second one under that user, never a merge of the two.
pub proof fn lemma_reregistration_last_wins(users: Map<Seq<char>, Register>, first: Register, second: Register)
    requires
        first.user@ == second.user@,
    ensures
        users.insert(first.user@, first).insert(second.user@, second) == users.insert(second.user@, second),
        users.insert(first.user@, first).insert(second.user@, second)[first.user@] == second,
{
    assert(users.insert(first.user@, first).insert(second.user@, second) =~= users.insert(second.user@, second));
}

/// Single use: once an answer for a round has been checked, the round is no
/// longer open, so a second answer for it finds no challenge.
pub proof fn lemma_round_consumed(challenges: Map<Seq<char>, ChallengeStore>, auth_id: Seq<char>)
    ensures
        !challenges.remove(auth_id).contains_key(auth_id),
{
}

} // verus!
