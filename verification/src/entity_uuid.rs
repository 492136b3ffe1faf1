//! The persistent entity identity registry.
//!
//! An entity's handle is only valid within the running session; its
//! 128-bit identifier is assigned once at creation and survives handle
//! churn across sessions. The registry maps identifier to live handle;
//! the host's spawn and despawn notifications keep it current, so a key
//! never maps to a despawned handle and each identifier has at most one
//! live handle.

use vstd::prelude::*;

use std::collections::HashMap;

verus! {

broadcast use vstd::std_specs::hash::group_hash_axioms;

/// The persistent identifier an entity carries.
#[derive(Debug)]
pub struct YoleckEntityUuid(pub(crate) u128);

impl YoleckEntityUuid {
    /// The identifier this component carries.
    pub closed spec fn uuid(self) -> u128 {
        self.0
    }

    pub fn new(uuid: u128) -> (r: YoleckEntityUuid)
        ensures
            r.uuid() == uuid,
    {
        YoleckEntityUuid(uuid)
    }

    pub fn get(&self) -> (r: u128)
        ensures
            r == self.uuid(),
    {
        self.0
    }
}

/// The identifier-to-handle mapping. A map never holds two entries for
/// one key, which is the registry's identity invariant.
pub struct YoleckUuidRegistry(pub(crate) HashMap<u128, u64>);

impl YoleckUuidRegistry {
    pub closed spec fn mapping(self) -> Map<u128, u64> {
        self.0@
    }

    pub fn new() -> (r: YoleckUuidRegistry)
        ensures
            r.mapping() == Map::<u128, u64>::empty(),
    {
        YoleckUuidRegistry(HashMap::new())
    }

    /// Look an identifier up; read-only. Returns the live handle exactly
    /// when the registry holds one for this identifier.
    pub fn get(&self, uuid: u128) -> (r: Option<u64>)
        ensures
            r == if self.mapping().contains_key(uuid) {
                Option::Some(self.mapping()[uuid])
            } else {
                Option::<u64>::None
            },
    {
        match self.0.get(&uuid) {
            Some(entity) => Some(*entity),
            None => None,
        }
    }

    /// The host's spawn notification: the identifier now has this live
    /// handle.
    pub fn record_spawn(&mut self, uuid: u128, entity: u64)
        ensures
            final(self).mapping() == old(self).mapping().insert(uuid, entity),
    {
        self.0.insert(uuid, entity);
    }

    /// The host's despawn notification: the identifier has no live
    /// handle any more.
    pub fn record_despawn(&mut self, uuid: u128)
        ensures
            final(self).mapping() == old(self).mapping().remove(uuid),
    {
        self.0.remove(&uuid);
    }
}

} // verus!
