//! Group parameters `(p, q, g, h)` and their generator: prime orders, and two
//! elements of multiplicative order exactly `q` modulo `p`.
use vstd::arithmetic::div_mod::*;
use vstd::arithmetic::mul::*;
use vstd::arithmetic::power::*;
use vstd::prelude::*;

use num_primes::{BigUint as PrimeInt, Verification};

use crate::arith::{mul_mod, pow_mod};
use crate::entropy::random_in;
use crate::error::ProtocolError;

verus! {

/// How many candidate pairs the generator draws before it gives up.
pub const GENERATION_ATTEMPTS: u64 = 1000;

/// The safe primes drawn when no modulus is given lie below this bound
/// (16 bits).
pub const SAFE_PRIME_LIMIT: u64 = 65536;

/// How many odd candidates the safe-prime search draws before it gives up.
pub const SAFE_PRIME_ATTEMPTS: u64 = 100_000;

/// A principal, identified by an opaque name.
#[derive(Debug, Clone, PartialEq, Eq, Hash)]
pub struct User(pub String);

impl View for User {
    type V = Seq<char>;

    open spec fn view(&self) -> Seq<char> {
        self.0@
    }
}

impl From<String> for User {
    fn from(s: String) -> (r: User)
        ensures
            r@ == s@,
    {
        User(s)
    }
}

impl vstd::std_specs::convert::FromSpecImpl<String> for User {
    open spec fn obeys_from_spec() -> bool {
        true
    }

    open spec fn from_spec(s: String) -> User {
        User(s)
    }
}

impl vstd::std_specs::convert::FromSpecImpl<&str> for User {
    open spec fn obeys_from_spec() -> bool {
        false
    }

    open spec fn from_spec(s: &str) -> User {
        arbitrary()
    }
}

impl From<&str> for User {
    fn from(s: &str) -> (r: User)
        ensures
            r@ == s@,
    {
        User(s.to_owned())
    }
}

/// A prime order supplied by a caller.
#[derive(Debug, Clone, Copy, PartialEq, Eq, Structural)]
pub struct PrimeOrder(pub u64);

impl From<u64> for PrimeOrder {
    fn from(v: u64) -> (r: PrimeOrder)
        ensures
            r.0 == v,
    {
        PrimeOrder(v)
    }
}

impl vstd::std_specs::convert::FromSpecImpl<u64> for PrimeOrder {
    open spec fn obeys_from_spec() -> bool {
        true
    }

    open spec fn from_spec(v: u64) -> PrimeOrder {
        PrimeOrder(v)
    }
}

/// Public group parameters: modulus `p`, subgroup order `q`, generators `g`, `h`.
#[derive(Debug, Clone, Copy, PartialEq, Eq, Structural)]
pub struct Material {
    pub g: u64,
    pub h: u64,
    pub q: u64,
    pub p: u64,
}

/// `g` has multiplicative order exactly `q` modulo `p`.
pub open spec fn is_generator(g: int, q: int, p: int) -> bool {
    &&& q > 0
    &&& p > 1
    &&& pow_mod(g, q as nat, p) == 1
    &&& forall|e: nat| 0 < e < q ==> #[trigger] pow_mod(g, e, p) != 1
}

impl Material {
    /// Both generators have order exactly `q` modulo `p`.
    pub open spec fn valid(&self) -> bool {
        &&& is_generator(self.g as int, self.q as int, self.p as int)
        &&& is_generator(self.h as int, self.q as int, self.p as int)
    }
}

/// `n` is a prime number.
pub open spec fn is_prime(n: int) -> bool {
    n >= 2 && forall|d: int| 1 < d < n ==> #[trigger] (n % d) != 0
}

/// A power of zero residue stays zero.
proof fn lemma_zero_power_stays(g: int, e: nat, n: nat, p: int)
    requires
        p > 1,
        pow_mod(g, e, p) == 0,
        e <= n,
    ensures
        pow_mod(g, n, p) == 0,
{
    lemma_pow_adds(g, e, (n - e) as nat);
    lemma_mul_mod_noop(pow(g, e), pow(g, (n - e) as nat), p);
    lemma_small_mod(0, p as nat);
}

/// Checks that `element` has multiplicative order exactly `order` modulo
/// `modulus`: its successive powers are neither `0` nor `1` before the
/// `order`-th, which is `1`.
pub fn verify_generator(element: u64, order: u64, modulus: u64) -> (r: Result<(), ProtocolError>)
    ensures
        r is Ok <==> is_generator(element as int, order as int, modulus as int),
        r is Err ==> r == Err::<(), ProtocolError>(ProtocolError::InvalidParameters),
{
    if order == 0 || modulus <= 1 {
        return Err(ProtocolError::InvalidParameters);
    }
    let base = element % modulus;
    let mut last: u64 = base;
    let mut e: u64 = 1;
    proof {
        lemma_pow1(element as int);
    }
    while e < order
        invariant
            0 < order,
            1 < modulus,
            base as int == element as int % modulus as int,
            1 <= e <= order,
            last as int == pow_mod(element as int, e as nat, modulus as int),
            forall|j: nat| 0 < j < e ==> #[trigger] pow_mod(element as int, j, modulus as int) != 1,
        decreases order - e,
    {
        if last == 1 || last == 0 {
            proof {
                if last == 0 {
                    lemma_zero_power_stays(element as int, e as nat, order as nat, modulus as int);
                }
            }
            return Err(ProtocolError::InvalidParameters);
        }
        let next = mul_mod(last, base, modulus);
        proof {
            let g = element as int;
            let m = modulus as int;
            lemma_pow_adds(g, e as nat, 1);
            lemma_pow1(g);
            lemma_mul_mod_noop(pow(g, e as nat), g, m);
        }
        last = next;
        e = e + 1;
    }
    if last == 1 {
        Ok(())
    } else {
        Err(ProtocolError::InvalidParameters)
    }
}

/// Below this bound num_primes' primality test is exact on composites: its
/// trial division by the first 2048 primes (up to 17863) finds the least
/// prime factor of every composite below `17863 * 17863`.
pub const TRIAL_DIVISION_BOUND: u64 = 319_086_769;

/// Relies on num_primes' `Verification::is_prime`, a randomised test (trial
/// division by the first 2048 primes, then Fermat and Miller–Rabin). It
/// rejects every even number, and every composite below
/// [`TRIAL_DIVISION_BOUND`]; it can panic below 4.
#[verifier::external_body]
fn probable_prime(n: u64) -> (r: bool)
    requires
        n > 3,
    ensures
        r ==> n % 2 == 1,
        r && n < TRIAL_DIVISION_BOUND ==> is_prime(n as int),
{
    Verification::is_prime(&PrimeInt::from(n))
}

/// How many times the probabilistic primality test may run on one number. A
/// single run rejects a prime `n` with chance `1/n` (its Fermat step may draw
/// zero as the witness), so a rejection is retried.
pub const PRIME_TEST_ROUNDS: u64 = 3;

/// Checks that `order` is prime. Numbers below 4 are decided exactly; larger
/// ones go through a probabilistic test, which rejects every even number and
/// every composite below [`TRIAL_DIVISION_BOUND`].
pub fn verify_prime(order: u64) -> (r: Result<(), ProtocolError>)
    ensures
        order <= 3 ==> (r is Ok <==> is_prime(order as int)),
        r is Ok && order > 3 ==> order % 2 == 1,
        r is Ok && order < TRIAL_DIVISION_BOUND ==> is_prime(order as int),
        r is Err ==> r == Err::<(), ProtocolError>(ProtocolError::InvalidParameters),
{
    if order <= 3 {
        proof {
            if order < 2 {
                assert(!is_prime(order as int));
            } else {
                assert forall|d: int| 1 < d < order implies #[trigger] (order as int % d) != 0 by {
                    if 1 < d < order {
                        assert(d == 2 && order == 3);
                    }
                }
            }
        }
        return if order >= 2 {
            Ok(())
        } else {
            Err(ProtocolError::InvalidParameters)
        };
    }
    let mut round: u64 = 0;
    while round < PRIME_TEST_ROUNDS
        invariant
            order > 3,
        decreases PRIME_TEST_ROUNDS - round,
    {
        if probable_prime(order) {
            return Ok(());
        }
        round = round + 1;
    }
    Err(ProtocolError::InvalidParameters)
}

/// Accepts the candidate pair `(g, h)` when both have order exactly `q` modulo `p`.
pub fn check_group(g: u64, h: u64, q: u64, p: u64) -> (r: Result<(u64, u64), ProtocolError>)
    ensures
        r is Ok <==> is_generator(g as int, q as int, p as int) && is_generator(h as int, q as int, p as int),
        r is Ok ==> r == Ok::<(u64, u64), ProtocolError>((g, h)),
        r is Err ==> r == Err::<(u64, u64), ProtocolError>(ProtocolError::InvalidParameters),
{
    match verify_generator(g, q, p) {
        Err(e) => Err(e),
        Ok(()) => match verify_generator(h, q, p) {
            Err(e) => Err(e),
            Ok(()) => Ok((g, h)),
        },
    }
}

/// Draws one candidate pair from `[2, q - 1]` and keeps it if both are
/// generators of the order-`q` subgroup modulo `p`.
pub fn generate_group(q: u64, p: u64) -> (r: Result<(u64, u64), ProtocolError>)
    ensures
        q < 3 ==> r == Err::<(u64, u64), ProtocolError>(ProtocolError::InvalidParameters),
        r matches Ok((g, h)) ==> {
            &&& 2 <= g < q && 2 <= h < q
            &&& is_generator(g as int, q as int, p as int)
            &&& is_generator(h as int, q as int, p as int)
        },
        r is Err ==> r == Err::<(u64, u64), ProtocolError>(ProtocolError::InvalidParameters),
{
    if q < 3 {
        return Err(ProtocolError::InvalidParameters);
    }
    let g = random_in(2, q - 1);
    let h = random_in(2, q - 1);
    check_group(g, h, q, p)
}

/// Draws candidate pairs until one is accepted, at most `attempts` times.
pub fn search_generators(q: u64, p: u64, attempts: u64) -> (r: Result<(u64, u64), ProtocolError>)
    ensures
        q < 3 ==> r == Err::<(u64, u64), ProtocolError>(ProtocolError::InvalidParameters),
        q >= 3 && r is Err ==> r == Err::<(u64, u64), ProtocolError>(ProtocolError::GenerationTimeout),
        q >= 3 && attempts == 0 ==> r == Err::<(u64, u64), ProtocolError>(ProtocolError::GenerationTimeout),
        r matches Ok((g, h)) ==> {
            &&& 2 <= g < q && 2 <= h < q
            &&& is_generator(g as int, q as int, p as int)
            &&& is_generator(h as int, q as int, p as int)
        },
{
    if q < 3 {
        return Err(ProtocolError::InvalidParameters);
    }
    let mut i: u64 = 0;
    while i < attempts
        invariant
            q >= 3,
        decreases attempts - i,
    {
        if let Ok(pair) = generate_group(q, p) {
            return Ok(pair);
        }
        i = i + 1;
    }
    Err(ProtocolError::GenerationTimeout)
}

} // verus!

verus! {

/// Settles the orders `(q, p)` from the caller's hints. A missing modulus is
/// `2q + 1` when `q` is given, else `fresh`; a missing order is `(p - 1) / 2`.
pub fn resolve_orders(q: Option<PrimeOrder>, p: Option<PrimeOrder>, fresh: u64) -> (r: Result<(u64, u64), ProtocolError>)
    ensures
        (q, p) matches (Some(qq), Some(pp)) ==> r == Ok::<(u64, u64), ProtocolError>((qq.0, pp.0)),
        (q, p) matches (Some(qq), None) ==> if 2 * qq.0 + 1 <= u64::MAX {
            r == Ok::<(u64, u64), ProtocolError>((qq.0, (2 * qq.0 + 1) as u64))
        } else {
            r == Err::<(u64, u64), ProtocolError>(ProtocolError::InvalidParameters)
        },
        (q, p) matches (None, Some(pp)) ==> if pp.0 >= 1 {
            r == Ok::<(u64, u64), ProtocolError>((((pp.0 - 1) / 2) as u64, pp.0))
        } else {
            r == Err::<(u64, u64), ProtocolError>(ProtocolError::InvalidParameters)
        },
        (q, p) matches (None, None) ==> if fresh >= 1 {
            r == Ok::<(u64, u64), ProtocolError>((((fresh - 1) / 2) as u64, fresh))
        } else {
            r == Err::<(u64, u64), ProtocolError>(ProtocolError::InvalidParameters)
        },
{
    let pm = match p {
        Some(pp) => Some(pp.0),
        None => match q {
            Some(qq) => {
                if qq.0 > (u64::MAX - 1) / 2 {
                    None
                } else {
                    Some(2 * qq.0 + 1)
                }
            },
            None => Some(fresh),
        },
    };
    match pm {
        None => Err(ProtocolError::InvalidParameters),
        Some(pv) => match q {
            Some(qq) => Ok((qq.0, pv)),
            None => {
                if pv == 0 {
                    Err(ProtocolError::InvalidParameters)
                } else {
                    Ok(((pv - 1) / 2, pv))
                }
            },
        },
    }
}

/// Draws odd candidates `n` below [`SAFE_PRIME_LIMIT`] until both `n` and
/// `(n - 1) / 2` pass the primality check, at most `attempts` times.
pub fn draw_safe_prime(attempts: u64) -> (r: Result<u64, ProtocolError>)
    ensures
        r matches Ok(n) ==> {
            &&& 9 <= n < SAFE_PRIME_LIMIT
            &&& is_prime(n as int)
            &&& is_prime((n as int - 1) / 2)
        },
        r is Err ==> r == Err::<u64, ProtocolError>(ProtocolError::GenerationTimeout),
        attempts == 0 ==> r == Err::<u64, ProtocolError>(ProtocolError::GenerationTimeout),
{
    let mut i: u64 = 0;
    while i < attempts
        decreases attempts - i,
    {
        let half = random_in(4, (SAFE_PRIME_LIMIT - 1) / 2);
        let n = 2 * half + 1;
        if verify_prime(half).is_ok() && verify_prime(n).is_ok() {
            assert((n as int - 1) / 2 == half as int);
            return Ok(n);
        }
        i = i + 1;
    }
    Err(ProtocolError::GenerationTimeout)
}

/// `n` is refused as an order or modulus by the checks made before any draw:
/// it is not prime, as far as the primality check decides exactly.
pub open spec fn refused_order(n: u64) -> bool {
    ||| n < 2
    ||| (n > 3 && n % 2 == 0)
    ||| (n < TRIAL_DIVISION_BOUND && !is_prime(n as int))
}

/// What the generator returns for the hints `q` and `p`.
pub open spec fn generation_outcome(q: Option<PrimeOrder>, p: Option<PrimeOrder>, r: Result<Material, ProtocolError>) -> bool {
    let refused = Err::<Material, ProtocolError>(ProtocolError::InvalidParameters);
    &&& ((q, p) matches (Some(qq), Some(pp)) && qq.0 == pp.0 ==> r == refused)
    &&& (q matches Some(qq) && refused_order(qq.0) ==> r == refused)
    &&& (p matches Some(pp) && refused_order(pp.0) ==> r == refused)
    &&& (q is None ==> (p matches Some(pp) && pp.0 < 5 ==> r == refused))
    &&& (p is None ==> (q matches Some(qq) && qq.0 > (u64::MAX - 1) / 2 ==> r == refused))
    &&& (r matches Ok(m) ==> {
        &&& m.valid()
        &&& m.q != m.p
        &&& 2 <= m.g < m.q && 2 <= m.h < m.q
        &&& !refused_order(m.q) && !refused_order(m.p)
        &&& (p matches Some(pp) ==> m.p == pp.0)
        &&& (q matches Some(qq) ==> m.q == qq.0)
        &&& (q is None ==> m.q == (m.p - 1) / 2)
        &&& (p is None ==> (q matches Some(qq) ==> m.p == 2 * qq.0 + 1))
        &&& ((q, p) matches (None, None) ==> m.p < SAFE_PRIME_LIMIT)
    })
    &&& (r is Err ==> r == refused || r == Err::<Material, ProtocolError>(ProtocolError::GenerationTimeout))
}

/// Generates group parameters from optional hints: settles `q` and `p` (a
/// fresh safe prime when neither is given), rejects `q == p` and orders that
/// fail the primality check, then searches for two generators of the
/// order-`q` subgroup modulo `p`.
pub fn generate_material(q: Option<PrimeOrder>, p: Option<PrimeOrder>) -> (r: Result<Material, ProtocolError>)
    ensures
        generation_outcome(q, p, r),
{
    let fresh = if q.is_none() && p.is_none() {
        match draw_safe_prime(SAFE_PRIME_ATTEMPTS) {
            Ok(n) => n,
            Err(e) => return Err(e),
        }
    } else {
        0
    };
    let (qv, pv) = match resolve_orders(q, p, fresh) {
        Ok(orders) => orders,
        Err(e) => return Err(e),
    };
    if qv == pv {
        return Err(ProtocolError::InvalidParameters);
    }
    if verify_prime(qv).is_err() || verify_prime(pv).is_err() {
        return Err(ProtocolError::InvalidParameters);
    }
    match search_generators(qv, pv, GENERATION_ATTEMPTS) {
        Ok((g, h)) => Ok(Material { g, h, q: qv, p: pv }),
        Err(e) => Err(e),
    }
}

} // verus!
