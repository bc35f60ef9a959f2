//! The verifier's side: registrations, challenge issuance and verification
//! against stored state.
use vstd::prelude::*;

use dashmap::DashMap;

use crate::codec::{read_value, MaterialSerde};
use crate::entropy::fresh_token;
use crate::error::ProtocolError;
use crate::material::{Material, User};
use crate::protocol::{accepts, verify_response, ProtocolState, ProtocolTransition};
use crate::store::{
    challenges_get, challenges_in, challenges_insert, challenges_new, challenges_remove,
    materials_get, materials_in, materials_insert, materials_new, registrations_get,
    registrations_in, registrations_insert, registrations_new,
};

pub use crate::protocol::AuthId;

verus! {

/// Settings of the verifier service.
#[derive(Debug, Clone, PartialEq, Eq, Default)]
pub struct VerifierConfig {
    pub port: u16,
    pub response_timeout_in_secs: u64,
    pub material_path: String,
}

/// A user's public values `y1 = g^x mod p`, `y2 = h^x mod p`.
#[derive(Debug, Clone, PartialEq, Eq)]
pub struct Register {
    pub user: User,
    pub y1: u64,
    pub y2: u64,
}

/// A user's commitment `(r1, r2)`, sent to open a challenge round.
#[derive(Debug, Clone, PartialEq, Eq)]
pub struct Challenge {
    pub user: User,
    pub r1: u64,
    pub r2: u64,
}

/// An issued challenge `c` and the token of its round.
#[derive(Debug, Clone, PartialEq, Eq)]
pub struct ChallengeStarted {
    pub auth_id: AuthId,
    pub c: u64,
}

/// What the verifier keeps between issuing a challenge and checking the answer.
#[derive(Debug, Clone, PartialEq, Eq)]
pub struct ChallengeStore {
    pub challenge: Challenge,
    pub challenge_started: ChallengeStarted,
}

/// The answer `s` to the round named `auth_id`.
#[derive(Debug, Clone, PartialEq, Eq)]
pub struct ChallengeVerification {
    pub auth_id: AuthId,
    pub s: u64,
}

/// A token minted for a successfully authenticated session.
#[derive(Debug, Clone, PartialEq, Eq)]
pub struct SessionId(pub String);

/// The outcome of checking an answer.
#[derive(Debug, Clone, PartialEq, Eq)]
pub enum ChallengeVerificationResult {
    ChallengeVerified(SessionId),
    ChallengeVerificationFailed,
}

/// A state of the verifier's round.
pub trait ChallengeState {}

impl ChallengeState for Challenge {}

impl ChallengeState for ChallengeVerificationResult {}

impl ChallengeState for ChallengeStarted {}

impl ChallengeState for ChallengeVerification {}

/// The verifier's round in state `S`.
pub struct ChallengeTransition<S: ChallengeState> {
    state: S,
}

impl<S: ChallengeState> ChallengeTransition<S> {
    /// The state held.
    pub closed spec fn inner(&self) -> S {
        self.state
    }

    /// Hands out the state held.
    pub fn into_inner(self) -> (r: S)
        ensures
            r == self.inner(),
    {
        self.state
    }
}

impl<S: ChallengeState> From<S> for ChallengeTransition<S> {
    fn from(state: S) -> (r: ChallengeTransition<S>)
        ensures
            r.inner() == state,
    {
        ChallengeTransition { state }
    }
}

impl<S: ChallengeState> vstd::std_specs::convert::FromSpecImpl<S> for ChallengeTransition<S> {
    open spec fn obeys_from_spec() -> bool {
        true
    }

    closed spec fn from_spec(state: S) -> ChallengeTransition<S> {
        ChallengeTransition { state }
    }
}

impl ChallengeTransition<Challenge> {
    /// Issues a challenge for the commitment held: `c` drawn from `[2, q - 1]`
    /// and a fresh round token.
    pub fn change(self, material: &Material) -> (r: ChallengeTransition<ChallengeStarted>)
        requires
            material.q >= 3,
        ensures
            2 <= r.inner().c <= material.q - 1,
            r.inner().auth_id@.len() == 36,
    {
        let issued = ProtocolState::from(*material).change().into_inner();
        ChallengeTransition { state: ChallengeStarted { auth_id: issued.auth_id, c: issued.c } }
    }
}

impl ChallengeTransition<ChallengeVerification> {
    /// Checks the response `s` against the stored commitment and the user's
    /// registration; on success a fresh session token is minted.
    pub fn change(
        self,
        register: &Register,
        challenge: &ChallengeStore,
        material: &Material,
        s: u64,
    ) -> (r: ChallengeTransition<ChallengeVerificationResult>)
        requires
            material.p > 0,
        ensures
            (r.inner() is ChallengeVerified) == accepts(
                *material,
                register.y1 as int,
                register.y2 as int,
                challenge.challenge.r1 as int,
                challenge.challenge.r2 as int,
                challenge.challenge_started.c as int,
                s as int,
            ),
            r.inner() matches ChallengeVerificationResult::ChallengeVerified(id) ==> id.0@.len() == 36,
    {
        if verify_response(
            material,
            register.y1,
            register.y2,
            challenge.challenge.r1,
            challenge.challenge.r2,
            challenge.challenge_started.c,
            s,
        ) {
            ChallengeTransition {
                state: ChallengeVerificationResult::ChallengeVerified(SessionId(fresh_token())),
            }
        } else {
            ChallengeTransition { state: ChallengeVerificationResult::ChallengeVerificationFailed }
        }
    }
}

/// All four values of an entry of the exchange format are readable.
pub open spec fn readable(e: MaterialSerde) -> bool {
    &&& read_value(e.g@) is Some
    &&& read_value(e.h@) is Some
    &&& read_value(e.q@) is Some
    &&& read_value(e.p@) is Some
}

/// The parameters written in a readable entry.
pub open spec fn entry_material(e: MaterialSerde) -> Material {
    Material {
        g: read_value(e.g@).unwrap(),
        h: read_value(e.h@).unwrap(),
        q: read_value(e.q@).unwrap(),
        p: read_value(e.p@).unwrap(),
    }
}

/// The parameters by user that a list of entries provisions; a later entry
/// for a user replaces an earlier one.
pub open spec fn provisioned(entries: Seq<MaterialSerde>) -> Map<Seq<char>, Material>
    decreases entries.len(),
{
    if entries.len() == 0 {
        Map::empty()
    } else {
        let last = entries.last();
        provisioned(entries.drop_last()).insert(last.user@, entry_material(last))
    }
}

/// Group parameters by user, as provisioned for the verifier.
pub struct FileParams {
    materials: DashMap<String, Material>,
}

impl FileParams {
    /// The parameters known for each user name.
    pub closed spec fn view(&self) -> Map<Seq<char>, Material> {
        materials_in(self.materials)
    }

    /// No parameters yet.
    pub fn new() -> (r: FileParams)
        ensures
            r.view() == Map::<Seq<char>, Material>::empty(),
    {
        let r = FileParams { materials: materials_new() };
        assert(r.view() =~= Map::<Seq<char>, Material>::empty());
        r
    }

    /// Provisions `material` for `user`, replacing what it had.
    pub fn insert(&mut self, user: User, material: Material)
        ensures
            final(self).view() == old(self).view().insert(user@, material),
    {
        materials_insert(&mut self.materials, user.0, material);
    }

    /// The parameters provisioned by a list of entries in the exchange format;
    /// `InvalidArgument` if a value in some entry is unreadable.
    pub fn from_entries(entries: &Vec<MaterialSerde>) -> (r: Result<FileParams, ProtocolError>)
        ensures
            r is Ok <==> forall|i: int| 0 <= i < entries@.len() ==> readable(#[trigger] entries@[i]),
            r matches Ok(fp) ==> fp.view() == provisioned(entries@),
            r is Err ==> r matches Err(ProtocolError::InvalidArgument),
    {
        let mut params = FileParams::new();
        let mut i: usize = 0;
        while i < entries.len()
            invariant
                0 <= i <= entries@.len(),
                params.view() == provisioned(entries@.take(i as int)),
                forall|j: int| 0 <= j < i ==> readable(#[trigger] entries@[j]),
            decreases entries@.len() - i,
        {
            let entry = &entries[i];
            let material = match entry.to_material() {
                Ok(m) => m,
                Err(e) => return Err(e),
            };
            proof {
                assert(entries@.take(i + 1).drop_last() =~= entries@.take(i as int));
                assert(entries@.take(i + 1).last() == entries@[i as int]);
            }
            params.insert(User(entry.user.clone()), material);
            i = i + 1;
        }
        proof {
            assert(entries@.take(entries@.len() as int) =~= entries@);
        }
        Ok(params)
    }

    /// The parameters of `user`, if any.
    pub fn query(&self, user: &User) -> (r: Option<Material>)
        ensures
            r == (if self.view().contains_key(user@) {
                Some(self.view()[user@])
            } else {
                None::<Material>
            }),
    {
        materials_get(&self.materials, user.0.as_str())
    }
}

/// Registrations by user and open challenges by round token.
pub struct MemStorage {
    users: DashMap<String, Register>,
    challenges: DashMap<String, ChallengeStore>,
}

impl MemStorage {
    /// The registration stored for each user name.
    pub closed spec fn users(&self) -> Map<Seq<char>, Register> {
        registrations_in(self.users)
    }

    /// The open challenge stored under each round token.
    pub closed spec fn challenges(&self) -> Map<Seq<char>, ChallengeStore> {
        challenges_in(self.challenges)
    }

    /// Empty storage.
    pub fn new() -> (r: MemStorage)
        ensures
            r.users() == Map::<Seq<char>, Register>::empty(),
            r.challenges() == Map::<Seq<char>, ChallengeStore>::empty(),
    {
        let r = MemStorage { users: registrations_new(), challenges: challenges_new() };
        assert(r.users() =~= Map::<Seq<char>, Register>::empty());
        assert(r.challenges() =~= Map::<Seq<char>, ChallengeStore>::empty());
        r
    }

    /// Stores a registration under its user, replacing any earlier one.
    pub fn store_user(&mut self, register: Register)
        ensures
            final(self).users() == old(self).users().insert(register.user@, register),
            final(self).challenges() == old(self).challenges(),
    {
        let key = register.user.0.clone();
        registrations_insert(&mut self.users, key, register);
    }

    /// Stores an open challenge under its round token.
    pub fn store_challenge(&mut self, auth_id: &AuthId, challenge: ChallengeStore)
        ensures
            final(self).challenges() == old(self).challenges().insert(auth_id@, challenge),
            final(self).users() == old(self).users(),
    {
        let key = auth_id.0.clone();
        challenges_insert(&mut self.challenges, key, challenge);
    }

    /// The registration of `user`, if any.
    pub fn get_user(&self, user: &User) -> (r: Option<Register>)
        ensures
            r == (if self.users().contains_key(user@) {
                Some(self.users()[user@])
            } else {
                None::<Register>
            }),
    {
        registrations_get(&self.users, user.0.as_str())
    }

    /// The open challenge under `auth_id`, if any.
    pub fn get_challenge(&self, auth_id: &AuthId) -> (r: Option<ChallengeStore>)
        ensures
            r == (if self.challenges().contains_key(auth_id@) {
                Some(self.challenges()[auth_id@])
            } else {
                None::<ChallengeStore>
            }),
    {
        challenges_get(&self.challenges, auth_id.0.as_str())
    }

    /// Removes the open challenge under `auth_id` and hands it back, if any.
    pub fn take_challenge(&mut self, auth_id: &AuthId) -> (r: Option<ChallengeStore>)
        ensures
            final(self).challenges() == old(self).challenges().remove(auth_id@),
            final(self).users() == old(self).users(),
            r == (if old(self).challenges().contains_key(auth_id@) {
                Some(old(self).challenges()[auth_id@])
            } else {
                None::<ChallengeStore>
            }),
    {
        challenges_remove(&mut self.challenges, auth_id.0.as_str())
    }
}

/// The verifier service: provisioned group parameters and its storage.
pub struct VerifierApplication {
    params: FileParams,
    storage: MemStorage,
}

impl VerifierApplication {
    /// The provisioned group parameters.
    pub closed spec fn params(&self) -> Map<Seq<char>, Material> {
        self.params.view()
    }

    /// The stored registrations.
    pub closed spec fn users(&self) -> Map<Seq<char>, Register> {
        self.storage.users()
    }

    /// The open challenges.
    pub closed spec fn challenges(&self) -> Map<Seq<char>, ChallengeStore> {
        self.storage.challenges()
    }

    /// A service over the given parameters and storage.
    pub fn new(params: FileParams, storage: MemStorage) -> (r: VerifierApplication)
        ensures
            r.params() == params.view(),
            r.users() == storage.users(),
            r.challenges() == storage.challenges(),
    {
        VerifierApplication { params, storage }
    }

    /// The registration stored for `user`, if any.
    pub fn get_registration(&self, user: &User) -> (r: Option<Register>)
        ensures
            r == (if self.users().contains_key(user@) {
                Some(self.users()[user@])
            } else {
                None::<Register>
            }),
    {
        self.storage.get_user(user)
    }

    /// Registers a user's public values. The user's group parameters must be
    /// provisioned first; a later registration replaces an earlier one.
    pub fn register(&mut self, register: Register) -> (r: Result<(), ProtocolError>)
        ensures
            final(self).params() == old(self).params(),
            final(self).challenges() == old(self).challenges(),
            r is Ok <==> old(self).params().contains_key(register.user@),
            r is Ok ==> final(self).users() == old(self).users().insert(register.user@, register),
            r is Err ==> r == Err::<(), ProtocolError>(ProtocolError::MaterialNotFound)
                && final(self).users() == old(self).users(),
    {
        if self.params.query(&register.user).is_none() {
            return Err(ProtocolError::MaterialNotFound);
        }
        self.storage.store_user(register);
        Ok(())
    }

    /// Opens a challenge round for a user's commitment: draws `c` from
    /// `[2, q - 1]`, mints a round token and stores the round under it.
    pub fn create_challenge(&mut self, challenge: Challenge) -> (r: Result<ChallengeStarted, ProtocolError>)
        ensures
            final(self).params() == old(self).params(),
            final(self).users() == old(self).users(),
            !old(self).params().contains_key(challenge.user@) ==> r == Err::<ChallengeStarted, ProtocolError>(
                ProtocolError::MaterialNotFound,
            ),
            old(self).params().contains_key(challenge.user@) && old(self).params()[challenge.user@].q < 3
                ==> r == Err::<ChallengeStarted, ProtocolError>(ProtocolError::InvalidParameters),
            r is Err ==> final(self).challenges() == old(self).challenges(),
            r is Ok <==> old(self).params().contains_key(challenge.user@) && old(self).params()[challenge.user@].q >= 3,
            r matches Ok(started) ==> {
                &&& 2 <= started.c <= old(self).params()[challenge.user@].q - 1
                &&& started.auth_id@.len() == 36
                &&& final(self).challenges() == old(self).challenges().insert(
                    started.auth_id@,
                    ChallengeStore { challenge: challenge, challenge_started: started },
                )
            },
    {
        let material = match self.params.query(&challenge.user) {
            Some(m) => m,
            None => return Err(ProtocolError::MaterialNotFound),
        };
        if material.q < 3 {
            return Err(ProtocolError::InvalidParameters);
        }
        let started = ChallengeTransition::from(challenge.clone()).change(&material).into_inner();
        let response = ChallengeStarted { auth_id: AuthId(started.auth_id.0.clone()), c: started.c };
        let key = AuthId(started.auth_id.0.clone());
        self.storage.store_challenge(&key, ChallengeStore { challenge, challenge_started: started });
        Ok(response)
    }

    /// Checks an answer. The round is consumed whatever the outcome; then the
    /// user's parameters and registration are looked up (a modulus of zero is
    /// refused after both lookups) and the response is checked against the stored commitment and challenge.
    pub fn verify_challenge(&mut self, answer: ChallengeVerification) -> (r: Result<ChallengeVerificationResult, ProtocolError>)
        ensures
            final(self).params() == old(self).params(),
            final(self).users() == old(self).users(),
            final(self).challenges() == old(self).challenges().remove(answer.auth_id@),
            !old(self).challenges().contains_key(answer.auth_id@) ==> r == Err::<ChallengeVerificationResult, ProtocolError>(
                ProtocolError::ChallengeNotFound,
            ),
            old(self).challenges().contains_key(answer.auth_id@) ==> ({
                let record = old(self).challenges()[answer.auth_id@];
                let user = record.challenge.user@;
                if !old(self).params().contains_key(user) {
                    r == Err::<ChallengeVerificationResult, ProtocolError>(ProtocolError::MaterialNotFound)
                } else if !old(self).users().contains_key(user) {
                    r == Err::<ChallengeVerificationResult, ProtocolError>(ProtocolError::UserNotFound)
                } else if old(self).params()[user].p == 0 {
                    r == Err::<ChallengeVerificationResult, ProtocolError>(ProtocolError::InvalidParameters)
                } else {
                    let m = old(self).params()[user];
                    let reg = old(self).users()[user];
                    &&& r is Ok
                    &&& (r matches Ok(ChallengeVerificationResult::ChallengeVerified(_))) == accepts(
                        m,
                        reg.y1 as int,
                        reg.y2 as int,
                        record.challenge.r1 as int,
                        record.challenge.r2 as int,
                        record.challenge_started.c as int,
                        answer.s as int,
                    )
                }
            }),
    {
        let record = match self.storage.take_challenge(&answer.auth_id) {
            Some(rec) => rec,
            None => return Err(ProtocolError::ChallengeNotFound),
        };
        let material = match self.params.query(&record.challenge.user) {
            Some(m) => m,
            None => return Err(ProtocolError::MaterialNotFound),
        };
        let register = match self.storage.get_user(&record.challenge.user) {
            Some(reg) => reg,
            None => return Err(ProtocolError::UserNotFound),
        };
        if material.p == 0 {
            return Err(ProtocolError::InvalidParameters);
        }
        let s = answer.s;
        let result = ChallengeTransition::from(answer).change(&register, &record, &material, s).into_inner();
        Ok(result)
    }
}

} // verus!
