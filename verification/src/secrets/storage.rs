//! Storage of secrets by id, and the in-memory store.
use vstd::prelude::*;
use std::collections::HashMap;
use crate::secrets::types::{Secret, SecretId, SecretView, SecretsError};

verus! {

broadcast use vstd::std_specs::hash::group_hash_axioms;

/// A store of secrets keyed by their id.
pub trait SecretStorage {
    /// Store `secret` under its id, replacing any secret stored there.
    fn store(&mut self, secret: &Secret) -> Result<(), SecretsError>;

    /// The secret stored under `id`.
    fn retrieve(&self, id: &SecretId) -> Result<Secret, SecretsError>;

    /// Remove the secret stored under `id`, if any.
    fn delete(&mut self, id: &SecretId) -> Result<(), SecretsError>;
}

/// What a store with contents `m` answers to a request for `id`.
pub open spec fn lookup(m: Map<u128, SecretView>, id: SecretId) -> Result<SecretView, SecretsError> {
    if m.contains_key(id.0) {
        Ok(m[id.0])
    } else {
        Err(SecretsError::NotFound)
    }
}

/// Secrets held in memory.
pub struct InMemoryStorage {
    secrets: HashMap<u128, Secret>,
}

impl View for InMemoryStorage {
    type V = Map<u128, SecretView>;

    closed spec fn view(&self) -> Map<u128, SecretView> {
        self.secrets@.map_values(|s: Secret| s@)
    }
}

impl InMemoryStorage {
    /// An empty store.
    pub fn new() -> (r: Self)
        ensures
            r@ == Map::<u128, SecretView>::empty(),
    {
        let r = InMemoryStorage { secrets: HashMap::new() };
        assert(r@ =~= Map::<u128, SecretView>::empty());
        r
    }
}

impl Default for InMemoryStorage {
    fn default() -> (r: Self)
        ensures
            r@ == Map::<u128, SecretView>::empty(),
    {
        InMemoryStorage::new()
    }
}

impl SecretStorage for InMemoryStorage {
    fn store(&mut self, secret: &Secret) -> (r: Result<(), SecretsError>)
        ensures
            r is Ok,
            final(self)@ == old(self)@.insert(secret.id.0, secret@),
    {
        let copy = secret.duplicate();
        self.secrets.insert(secret.id.0, copy);
        assert(self@ =~= old(self)@.insert(secret.id.0, secret@));
        Ok(())
    }

    fn retrieve(&self, id: &SecretId) -> (r: Result<Secret, SecretsError>)
        ensures
            match (r, lookup(self@, *id)) {
                (Ok(s), Ok(v)) => s@ == v,
                (Err(e), Err(f)) => e == f,
                _ => false,
            },
    {
        match self.secrets.get(&id.0) {
            Some(s) => Ok(s.duplicate()),
            None => Err(SecretsError::NotFound),
        }
    }

    fn delete(&mut self, id: &SecretId) -> (r: Result<(), SecretsError>)
        ensures
            r is Ok,
            final(self)@ == old(self)@.remove(id.0),
    {
        self.secrets.remove(&id.0);
        assert(self@ =~= old(self)@.remove(id.0));
        Ok(())
    }
}

/// Retrieving a secret right after storing it gives back its value.
pub proof fn retrieve_after_store(m: Map<u128, SecretView>, s: SecretView)
    ensures
        lookup(m.insert(s.id.0, s), s.id) == Ok::<SecretView, SecretsError>(s),
{
}

/// Storing or deleting one id leaves what every other id retrieves
/// unchanged.
pub proof fn other_ids_unaffected(m: Map<u128, SecretView>, s: SecretView, other: SecretId)
    requires
        other.0 != s.id.0,
    ensures
        lookup(m.insert(s.id.0, s), other) == lookup(m, other),
        lookup(m.remove(s.id.0), other) == lookup(m, other),
{
}

/// After a delete, the secret is not found.
pub proof fn retrieve_after_delete(m: Map<u128, SecretView>, id: SecretId)
    ensures
        lookup(m.remove(id.0), id) == Err::<SecretView, SecretsError>(SecretsError::NotFound),
{
}

} // verus!
