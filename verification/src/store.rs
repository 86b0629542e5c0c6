//! The guild state store: owns one logical snapshot per guild. An event
//! collaborator replaces whole collections; readers take a handle to a
//! consistent snapshot. Replacement is whole-collection rather than in-place
//! mutation, so a reader holding a handle observes an unchanging view for the
//! duration of one resolution. The locking that lets a background writer run
//! beside reader threads sits outside this type, held only for the
//! handle-acquisition itself.

use vstd::prelude::*;
use std::collections::HashMap;
use crate::model::{Channel, GuildSnapshot, Member, Role};

verus! {

/// Owns the concurrently-replaced snapshot that the engine reads.
pub struct GuildStateStore {
    snapshot: GuildSnapshot,
}

impl GuildStateStore {
    /// A store starting from the given snapshot.
    pub fn new(snapshot: GuildSnapshot) -> (r: GuildStateStore)
        ensures
            r.spec_snapshot() == snapshot,
    {
        GuildStateStore { snapshot }
    }

    /// The current snapshot, as a handle for one resolution pass.
    pub fn read(&self) -> (r: &GuildSnapshot)
        ensures
            *r == self.spec_snapshot(),
    {
        &self.snapshot
    }

    /// The spec-level view of the owned snapshot.
    pub closed spec fn spec_snapshot(self) -> GuildSnapshot {
        self.snapshot
    }

    /// Replaces the role collection wholesale; every other part of the
    /// snapshot is untouched.
    pub fn replace_roles(&mut self, roles: HashMap<u64, Role>)
        ensures
            final(self).spec_snapshot() == (GuildSnapshot { roles, ..old(self).spec_snapshot() }),
    {
        self.snapshot.roles = roles;
    }

    /// Replaces the member collection wholesale; every other part of the
    /// snapshot is untouched.
    pub fn replace_members(&mut self, members: HashMap<u64, Member>)
        ensures
            final(self).spec_snapshot() == (GuildSnapshot { members, ..old(self).spec_snapshot() }),
    {
        self.snapshot.members = members;
    }

    /// Replaces the channel collection wholesale; every other part of the
    /// snapshot is untouched.
    pub fn replace_channels(&mut self, channels: HashMap<u64, Channel>)
        ensures
            final(self).spec_snapshot() == (GuildSnapshot { channels, ..old(self).spec_snapshot() }),
    {
        self.snapshot.channels = channels;
    }
}

} // verus!
