//! The Chaum–Pedersen exchange as typed states and the transitions between
//! them: register, commit, challenge, respond, verify.
use vstd::prelude::*;

use crate::arith::{mod_pow, mul_mod, pow_mod, sub_mul_mod};
use crate::entropy::{fresh_token, random_in};
use crate::material::Material;

verus! {

/// `(base^s mod p) * (y^c mod p) mod p`: what the verifier recomputes from a
/// response `s` to challenge `c` against a public value `y`.
pub open spec fn recomputed(base: int, y: int, c: int, s: int, p: int) -> int {
    (pow_mod(base, s as nat, p) * pow_mod(y, c as nat, p)) % p
}

/// The honest response `(k - c * x) mod q`, in `[0, q)`.
pub open spec fn response_value(k: int, c: int, x: int, q: int) -> int {
    (k - c * x) % q
}

/// The verifier's test: both commitments are reproduced from the response.
pub open spec fn accepts(m: Material, y1: int, y2: int, r1: int, r2: int, c: int, s: int) -> bool {
    &&& r1 == recomputed(m.g as int, y1, c, s, m.p as int)
    &&& r2 == recomputed(m.h as int, y2, c, s, m.p as int)
}

/// The registration step: the public values `y1 = g^x mod p`, `y2 = h^x mod p`.
#[derive(Debug, Clone, Copy, PartialEq, Eq, Structural)]
pub struct Register {
    pub material: Material,
    pub y1: u64,
    pub y2: u64,
}

impl Register {
    /// Derives the public values of secret `x`.
    pub fn new(material: Material, x: u64) -> (r: Register)
        requires
            material.p > 0,
        ensures
            r.material == material,
            r.y1 as int == pow_mod(material.g as int, x as nat, material.p as int),
            r.y2 as int == pow_mod(material.h as int, x as nat, material.p as int),
    {
        let y1 = mod_pow(material.g, x, material.p);
        let y2 = mod_pow(material.h, x, material.p);
        Register { material, y1, y2 }
    }
}

/// A session token that names one challenge round.
#[derive(Debug, Clone, PartialEq, Eq, Hash)]
pub struct AuthId(pub String);

impl View for AuthId {
    type V = Seq<char>;

    open spec fn view(&self) -> Seq<char> {
        self.0@
    }
}

impl From<String> for AuthId {
    fn from(s: String) -> (r: AuthId)
        ensures
            r@ == s@,
    {
        AuthId(s)
    }
}

impl vstd::std_specs::convert::FromSpecImpl<String> for AuthId {
    open spec fn obeys_from_spec() -> bool {
        true
    }

    open spec fn from_spec(s: String) -> AuthId {
        AuthId(s)
    }
}

impl From<&str> for AuthId {
    fn from(s: &str) -> (r: AuthId)
        ensures
            r@ == s@,
    {
        AuthId(s.to_owned())
    }
}

impl vstd::std_specs::convert::FromSpecImpl<&str> for AuthId {
    open spec fn obeys_from_spec() -> bool {
        false
    }

    open spec fn from_spec(s: &str) -> AuthId {
        arbitrary()
    }
}

impl AuthId {
    /// The token's text.
    pub fn as_str(&self) -> (r: &str)
        ensures
            r@ == self@,
    {
        self.0.as_str()
    }
}

/// The verifier's challenge `c` for the round named `auth_id`.
#[derive(Debug, Clone, PartialEq, Eq)]
pub struct Challenge {
    pub auth_id: AuthId,
    pub c: u64,
}

/// What the prover holds when it answers: the challenge, the group, its
/// secret `x` and its commitment randomness `k`.
#[derive(Debug, Clone, PartialEq, Eq)]
pub struct ChallengeResponse {
    pub challenge: Challenge,
    pub material: Material,
    pub x: u64,
    pub k: u64,
}

/// The prover's answer `s` for the round named `auth_id`.
#[derive(Debug, Clone, PartialEq, Eq)]
pub struct VerificationRequest {
    pub auth_id: AuthId,
    pub s: u64,
}

/// The outcome of verification.
#[derive(Debug, Clone, Copy, PartialEq, Eq, Structural)]
pub enum VerificationResult {
    ChallengeVerifiedSuccess,
    ChallengeVerificationFailed,
}

/// The commitment step: `r1 = g^k mod p`, `r2 = h^k mod p` for a fresh `k`.
#[derive(Debug, Clone, Copy, PartialEq, Eq, Structural)]
pub struct Commitment {
    pub material: Material,
    pub r1: u64,
    pub r2: u64,
    pub k: u64,
}

impl Commitment {
    /// The commitment for randomness `k`.
    pub fn with_nonce(material: Material, k: u64) -> (r: Commitment)
        requires
            material.p > 0,
        ensures
            r.material == material,
            r.k == k,
            r.r1 as int == pow_mod(material.g as int, k as nat, material.p as int),
            r.r2 as int == pow_mod(material.h as int, k as nat, material.p as int),
    {
        let r1 = mod_pow(material.g, k, material.p);
        let r2 = mod_pow(material.h, k, material.p);
        Commitment { material, r1, r2, k }
    }
}

/// Everything the verifier needs to check one answer.
#[derive(Debug, Clone, Copy, PartialEq, Eq, Structural)]
pub struct Verification {
    pub material: Material,
    pub y1: u64,
    pub y2: u64,
    pub r1: u64,
    pub r2: u64,
    pub c: u64,
    pub s: u64,
}

/// Recomputes both commitments from the response and compares them with the
/// stored ones; a match on only one of them is a failure.
pub fn verify_response(material: &Material, y1: u64, y2: u64, r1: u64, r2: u64, c: u64, s: u64) -> (r: bool)
    requires
        material.p > 0,
    ensures
        r == accepts(*material, y1 as int, y2 as int, r1 as int, r2 as int, c as int, s as int),
{
    let p = material.p;
    let r1_prime = mul_mod(mod_pow(material.g, s, p), mod_pow(y1, c, p), p);
    let r2_prime = mul_mod(mod_pow(material.h, s, p), mod_pow(y2, c, p), p);
    r1 == r1_prime && r2 == r2_prime
}

/// A state of the exchange.
pub trait ProtocolStep {}

impl ProtocolStep for Register {}

impl ProtocolStep for Commitment {}

impl ProtocolStep for Challenge {}

impl ProtocolStep for ChallengeResponse {}

impl ProtocolStep for Material {}

impl ProtocolStep for VerificationRequest {}

impl ProtocolStep for Verification {}

impl ProtocolStep for VerificationResult {}

/// The exchange in state `S`; each state has one transition to the next.
#[derive(Debug, Clone)]
pub struct ProtocolState<S: ProtocolStep> {
    state: S,
}

impl<S: ProtocolStep> ProtocolState<S> {
    /// The state held.
    pub closed spec fn inner(&self) -> S {
        self.state
    }

    /// Hands out the state held.
    pub fn into_inner(self) -> (r: S)
        ensures
            r == self.inner(),
    {
        self.state
    }
}

impl<S: ProtocolStep> From<S> for ProtocolState<S> {
    fn from(state: S) -> (r: ProtocolState<S>)
        ensures
            r.inner() == state,
    {
        ProtocolState { state }
    }
}

impl<S: ProtocolStep> vstd::std_specs::convert::FromSpecImpl<S> for ProtocolState<S> {
    open spec fn obeys_from_spec() -> bool {
        true
    }

    closed spec fn from_spec(state: S) -> ProtocolState<S> {
        ProtocolState { state }
    }
}

/// A state that has one transition to a next state.
pub trait ProtocolTransition: Sized {
    type NewState: ProtocolStep;

    /// The inputs on which the transition is defined.
    spec fn enabled(&self) -> bool;

    /// Takes the transition.
    fn change(self) -> (r: ProtocolState<Self::NewState>)
        requires
            self.enabled(),
    ;
}

/// Commitment: draws `k` from `[2, q - 2]` and commits to it.
impl ProtocolTransition for ProtocolState<Register> {
    type NewState = Commitment;

    open spec fn enabled(&self) -> bool {
        self.inner().material.q >= 4 && self.inner().material.p > 0
    }

    fn change(self) -> (r: ProtocolState<Commitment>)
        ensures
            ({
                let m = self.inner().material;
                let next = r.inner();
                &&& next.material == m
                &&& 2 <= next.k <= m.q - 2
                &&& next.r1 as int == pow_mod(m.g as int, next.k as nat, m.p as int)
                &&& next.r2 as int == pow_mod(m.h as int, next.k as nat, m.p as int)
            }),
    {
        let material = self.state.material;
        let k = random_in(2, material.q - 2);
        ProtocolState { state: Commitment::with_nonce(material, k) }
    }
}

/// Challenge issuance: draws `c` from `[2, q - 1]` and mints a fresh round token.
impl ProtocolTransition for ProtocolState<Material> {
    type NewState = Challenge;

    open spec fn enabled(&self) -> bool {
        self.inner().q >= 3
    }

    fn change(self) -> (r: ProtocolState<Challenge>)
        ensures
            2 <= r.inner().c <= self.inner().q - 1,
            r.inner().auth_id@.len() == 36,
    {
        let c = random_in(2, self.state.q - 1);
        ProtocolState { state: Challenge { auth_id: AuthId(fresh_token()), c } }
    }
}

/// Response: `s = (k - c * x) mod q`, always in `[0, q)`.
impl ProtocolTransition for ProtocolState<ChallengeResponse> {
    type NewState = VerificationRequest;

    open spec fn enabled(&self) -> bool {
        self.inner().material.q > 0
    }

    fn change(self) -> (r: ProtocolState<VerificationRequest>)
        ensures
            ({
                let st = self.inner();
                &&& r.inner().auth_id == st.challenge.auth_id
                &&& r.inner().s < st.material.q
                &&& r.inner().s as int == response_value(
                    st.k as int,
                    st.challenge.c as int,
                    st.x as int,
                    st.material.q as int,
                )
            }),
    {
        let st = self.state;
        let s = sub_mul_mod(st.k, st.challenge.c, st.x, st.material.q);
        ProtocolState { state: VerificationRequest { auth_id: st.challenge.auth_id, s } }
    }
}

impl ProtocolState<Verification> {
    /// Verification: success exactly when both commitments are reproduced.
    pub fn change(self) -> (r: ProtocolState<VerificationResult>)
        requires
            self.inner().material.p > 0,
        ensures
            ({
                let v = self.inner();
                (r.inner() == VerificationResult::ChallengeVerifiedSuccess) == accepts(
                    v.material,
                    v.y1 as int,
                    v.y2 as int,
                    v.r1 as int,
                    v.r2 as int,
                    v.c as int,
                    v.s as int,
                )
            }),
    {
        let v = self.state;
        if verify_response(&v.material, v.y1, v.y2, v.r1, v.r2, v.c, v.s) {
            ProtocolState { state: VerificationResult::ChallengeVerifiedSuccess }
        } else {
            ProtocolState { state: VerificationResult::ChallengeVerificationFailed }
        }
    }
}

} // verus!
