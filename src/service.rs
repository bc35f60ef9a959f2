//! The material service: hands out each user's group parameters, generating
//! and storing them on first request.
use vstd::prelude::*;

use dashmap::DashMap;

use crate::error::ProtocolError;
use crate::material::{generate_material, generation_outcome, Material, PrimeOrder, User};
use crate::store::{materials_get, materials_in, materials_insert, materials_new};

verus! {

/// Generates group parameters with the search of [`generate_material`].
#[derive(Debug, Clone, Copy)]
pub struct DefaultMaterialGenerator;

impl DefaultMaterialGenerator {
    /// Group parameters for the optional order and modulus hints.
    pub fn generate(&self, q: Option<PrimeOrder>, p: Option<PrimeOrder>) -> (r: Result<Material, ProtocolError>)
        ensures
            generation_outcome(q, p, r),
    {
        generate_material(q, p)
    }
}

/// Group parameters by user, in memory.
pub struct MemStorage {
    materials: DashMap<String, Material>,
}

impl MemStorage {
    /// The parameters stored for each user name.
    pub closed spec fn view(&self) -> Map<Seq<char>, Material> {
        materials_in(self.materials)
    }

    /// Empty storage.
    pub fn new() -> (r: MemStorage)
        ensures
            r.view() == Map::<Seq<char>, Material>::empty(),
    {
        let r = MemStorage { materials: materials_new() };
        assert(r.view() =~= Map::<Seq<char>, Material>::empty());
        r
    }

    /// The parameters of `user`, if any.
    pub fn get(&self, user: &User) -> (r: Option<Material>)
        ensures
            r == (if self.view().contains_key(user@) {
                Some(self.view()[user@])
            } else {
                None::<Material>
            }),
    {
        materials_get(&self.materials, user.0.as_str())
    }

    /// Stores `material` for `user`, replacing what it had.
    pub fn store(&mut self, user: User, material: Material)
        ensures
            final(self).view() == old(self).view().insert(user@, material),
    {
        materials_insert(&mut self.materials, user.0, material);
    }
}

/// The material service over a generator and a storage.
pub struct MaterialApplication {
    generator: DefaultMaterialGenerator,
    storage: MemStorage,
}

impl MaterialApplication {
    /// The parameters stored for each user name.
    pub closed spec fn view(&self) -> Map<Seq<char>, Material> {
        self.storage.view()
    }

    /// A service over the given generator and storage.
    pub fn new(generator: DefaultMaterialGenerator, storage: MemStorage) -> (r: MaterialApplication)
        ensures
            r.view() == storage.view(),
    {
        MaterialApplication { generator, storage }
    }

    /// A service with the default generator and empty storage.
    pub fn new_default() -> (r: MaterialApplication)
        ensures
            r.view() == Map::<Seq<char>, Material>::empty(),
    {
        Self::new(DefaultMaterialGenerator, MemStorage::new())
    }

    /// The user's parameters: those stored if any, else freshly generated
    /// ones, which are then stored.
    pub fn create_material(&mut self, user: &User, q: Option<PrimeOrder>, p: Option<PrimeOrder>) -> (r: Result<Material, ProtocolError>)
        ensures
            old(self).view().contains_key(user@) ==> r == Ok::<Material, ProtocolError>(old(self).view()[user@])
                && final(self).view() == old(self).view(),
            !old(self).view().contains_key(user@) ==> {
                &&& generation_outcome(q, p, r)
                &&& (r matches Ok(m) ==> final(self).view() == old(self).view().insert(user@, m))
                &&& (r is Err ==> final(self).view() == old(self).view())
            },
    {
        if let Some(existing) = self.storage.get(user) {
            return Ok(existing);
        }
        let material = match self.generator.generate(q, p) {
            Ok(m) => m,
            Err(e) => return Err(e),
        };
        self.storage.store(User(user.0.clone()), material);
        Ok(material)
    }

    /// The user's stored parameters, if any.
    pub fn get_material(&self, user: &User) -> (r: Option<Material>)
        ensures
            r == (if self.view().contains_key(user@) {
                Some(self.view()[user@])
            } else {
                None::<Material>
            }),
    {
        self.storage.get(user)
    }
}

} // verus!
