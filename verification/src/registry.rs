//! The per-connection object registry: a table from numeric object id to the
//! live resource bound to it.

use crate::errors::ProtocolError;
use crate::resource::{kind_of_resource, InterfaceKind, Resource};
use std::collections::HashMap;
use vstd::prelude::*;

verus! {

broadcast use vstd::std_specs::hash::group_hash_axioms;

/// The table from object id to live resource. Each entry exclusively owns
/// its resource; an id can be rebound only after the entry is removed.
pub struct Registry {
    map: HashMap<u32, Resource>,
}

impl View for Registry {
    type V = Map<u32, Resource>;

    closed spec fn view(&self) -> Map<u32, Resource> {
        self.map@
    }
}

impl Registry {
    /// An empty registry.
    pub fn new() -> (r: Registry)
        ensures
            r@ == Map::<u32, Resource>::empty(),
    {
        Registry { map: HashMap::new() }
    }

    /// Whether `id` is currently bound.
    pub fn contains(&self, id: u32) -> (r: bool)
        ensures
            r == self@.contains_key(id),
    {
        self.map.contains_key(&id)
    }

    /// The resource bound to `id`, when there is one.
    pub fn get(&self, id: u32) -> (r: Option<&Resource>)
        ensures
            match r {
                Some(x) => self@.contains_key(id) && *x == self@[id],
                None => !self@.contains_key(id),
            },
    {
        self.map.get(&id)
    }

    /// The resource bound to `id`, checked to be of interface `expected`.
    /// Fails with `WrongInterface` when `id` is unbound or bound to another
    /// interface.
    pub fn get_typed(&self, id: u32, expected: InterfaceKind) -> (r: Result<
        &Resource,
        ProtocolError,
    >)
        ensures
            match r {
                Ok(x) => self@.contains_key(id) && *x == self@[id] && kind_of_resource(*x)
                    == expected,
                Err(e) => {
                    &&& e == ProtocolError::WrongInterface
                    &&& !(self@.contains_key(id) && kind_of_resource(self@[id]) == expected)
                },
            },
    {
        match self.map.get(&id) {
            Some(x) => {
                if x.kind() == expected {
                    Ok(x)
                } else {
                    Err(ProtocolError::WrongInterface)
                }
            },
            None => Err(ProtocolError::WrongInterface),
        }
    }

    /// Bind `id` to `resource`. Fails with `IdInUse`, changing nothing, when
    /// `id` is already bound.
    pub fn insert(&mut self, id: u32, resource: Resource) -> (r: Result<(), ProtocolError>)
        ensures
            match r {
                Ok(()) => !old(self)@.contains_key(id) && final(self)@ == old(self)@.insert(
                    id,
                    resource,
                ),
                Err(e) => {
                    &&& e == ProtocolError::IdInUse
                    &&& old(self)@.contains_key(id)
                    &&& final(self)@ == old(self)@
                },
            },
    {
        if self.map.contains_key(&id) {
            Err(ProtocolError::IdInUse)
        } else {
            self.map.insert(id, resource);
            Ok(())
        }
    }

    /// Bind `id` to `resource` unconditionally. This is the engine's own
    /// rebinding step, used to return a borrowed-out resource to its entry
    /// after dispatch; client-driven creation goes through `insert`, which
    /// refuses a bound id.
    pub fn bind(&mut self, id: u32, resource: Resource)
        ensures
            final(self)@ == old(self)@.insert(id, resource),
    {
        self.map.insert(id, resource);
    }

    /// Unbind `id`, returning what was bound to it. The entry is removed
    /// immediately; acknowledging the removal to the client is the session's
    /// business.
    pub fn remove(&mut self, id: u32) -> (r: Option<Resource>)
        ensures
            final(self)@ == old(self)@.remove(id),
            match r {
                Some(x) => old(self)@.contains_key(id) && x == old(self)@[id],
                None => !old(self)@.contains_key(id),
            },
    {
        self.map.remove(&id)
    }
}

} // verus!
