//! In-memory key-value storage on `dashmap::DashMap`, keyed by name: group
//! parameters and registrations by user, open challenges by round token.
use vstd::prelude::*;

use dashmap::DashMap;

use crate::material::Material;
use crate::auth::{ChallengeStore, Register};

verus! {

#[verifier::external_type_specification]
#[verifier::external_body]
#[verifier::reject_recursive_types(K)]
#[verifier::reject_recursive_types(V)]
#[verifier::reject_recursive_types(S)]
pub struct ExDashMap<K, V, S>(DashMap<K, V, S>);

/// The entries of a map of group parameters.
pub uninterp spec fn materials_in(m: DashMap<String, Material>) -> Map<Seq<char>, Material>;

/// The entries of a map of registrations.
pub uninterp spec fn registrations_in(m: DashMap<String, Register>) -> Map<Seq<char>, Register>;

/// The entries of a map of open challenges.
pub uninterp spec fn challenges_in(m: DashMap<String, ChallengeStore>) -> Map<Seq<char>, ChallengeStore>;

/// Relies on `DashMap::new`: an empty map.
#[verifier::external_body]
pub(crate) fn materials_new() -> (r: DashMap<String, Material>)
    ensures
        materials_in(r).dom() == Set::<Seq<char>>::empty(),
{
    DashMap::new()
}

/// Relies on `DashMap::insert`: the key now maps to the value, replacing any
/// earlier one; other keys keep theirs.
#[verifier::external_body]
pub(crate) fn materials_insert(m: &mut DashMap<String, Material>, key: String, value: Material)
    ensures
        materials_in(*final(m)) == materials_in(*old(m)).insert(key@, value),
{
    m.insert(key, value);
}

/// Relies on `DashMap::get`: the value stored under the key, if any (copied out).
#[verifier::external_body]
pub(crate) fn materials_get(m: &DashMap<String, Material>, key: &str) -> (r: Option<Material>)
    ensures
        r == (if materials_in(*m).contains_key(key@) {
            Some(materials_in(*m)[key@])
        } else {
            None::<Material>
        }),
{
    m.get(key).map(|e| *e.value())
}

/// Relies on `DashMap::new`: an empty map.
#[verifier::external_body]
pub(crate) fn registrations_new() -> (r: DashMap<String, Register>)
    ensures
        registrations_in(r).dom() == Set::<Seq<char>>::empty(),
{
    DashMap::new()
}

/// Relies on `DashMap::insert`: the key now maps to the value, replacing any
/// earlier one; other keys keep theirs.
#[verifier::external_body]
pub(crate) fn registrations_insert(m: &mut DashMap<String, Register>, key: String, value: Register)
    ensures
        registrations_in(*final(m)) == registrations_in(*old(m)).insert(key@, value),
{
    m.insert(key, value);
}

/// Relies on `DashMap::get`: the value stored under the key, if any (cloned out).
#[verifier::external_body]
pub(crate) fn registrations_get(m: &DashMap<String, Register>, key: &str) -> (r: Option<Register>)
    ensures
        r == (if registrations_in(*m).contains_key(key@) {
            Some(registrations_in(*m)[key@])
        } else {
            None::<Register>
        }),
{
    m.get(key).map(|e| e.value().clone())
}

/// Relies on `DashMap::new`: an empty map.
#[verifier::external_body]
pub(crate) fn challenges_new() -> (r: DashMap<String, ChallengeStore>)
    ensures
        challenges_in(r).dom() == Set::<Seq<char>>::empty(),
{
    DashMap::new()
}

/// Relies on `DashMap::insert`: the key now maps to the value, replacing any
/// earlier one; other keys keep theirs.
#[verifier::external_body]
pub(crate) fn challenges_insert(m: &mut DashMap<String, ChallengeStore>, key: String, value: ChallengeStore)
    ensures
        challenges_in(*final(m)) == challenges_in(*old(m)).insert(key@, value),
{
    m.insert(key, value);
}

/// Relies on `DashMap::get`: the value stored under the key, if any (cloned out).
#[verifier::external_body]
pub(crate) fn challenges_get(m: &DashMap<String, ChallengeStore>, key: &str) -> (r: Option<ChallengeStore>)
    ensures
        r == (if challenges_in(*m).contains_key(key@) {
            Some(challenges_in(*m)[key@])
        } else {
            None::<ChallengeStore>
        }),
{
    m.get(key).map(|e| e.value().clone())
}

/// Relies on `DashMap::remove`: the key no longer maps to anything, and the
/// value it held, if any, is handed back.
#[verifier::external_body]
pub(crate) fn challenges_remove(m: &mut DashMap<String, ChallengeStore>, key: &str) -> (r: Option<ChallengeStore>)
    ensures
        challenges_in(*final(m)) == challenges_in(*old(m)).remove(key@),
        r == (if challenges_in(*old(m)).contains_key(key@) {
            Some(challenges_in(*old(m))[key@])
        } else {
            None::<ChallengeStore>
        }),
{
    m.remove(key).map(|(_, v)| v)
}

} // verus!
