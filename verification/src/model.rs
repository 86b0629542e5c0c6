//! The entity model: typed identifiers and the plain data describing the
//! authorization-relevant state of one guild.

use vstd::prelude::*;
use std::collections::HashMap;
use crate::permissions::PermissionSet;

verus! {

broadcast use vstd::std_specs::hash::group_hash_axioms;

/// Identifier of a role within a guild.
#[derive(Clone, Copy, PartialEq, Eq, Structural, Debug)]
pub struct RoleId(pub u64);

/// Identifier of a user.
#[derive(Clone, Copy, PartialEq, Eq, Structural, Debug)]
pub struct UserId(pub u64);

/// Identifier of a channel within a guild.
#[derive(Clone, Copy, PartialEq, Eq, Structural, Debug)]
pub struct ChannelId(pub u64);

/// Identifier of a guild.
#[derive(Clone, Copy, PartialEq, Eq, Structural, Debug)]
pub struct GuildId(pub u64);

/// A named bundle of granted permission bits. The role whose identifier
/// equals the guild's identifier is the implicit "everyone" role.
#[derive(Clone, Debug)]
pub struct Role {
    pub id: RoleId,
    pub name: String,
    pub permissions: PermissionSet,
}

/// A user's membership record within one guild: the user it belongs to, the
/// roles assigned to it (which may reference roles absent from the current
/// role map — a tolerated inconsistency), and an optional nickname.
#[derive(Clone, Debug)]
pub struct Member {
    pub user_id: UserId,
    pub roles: Vec<RoleId>,
    pub nick: Option<String>,
}

/// The kind of a channel, which decides resource-kind masking during
/// resolution.
#[derive(Clone, Copy, PartialEq, Eq, Structural, Debug)]
pub enum ChannelKind {
    Text,
    Voice,
}

/// The target of a permission overwrite: either every holder of a role, or
/// one specific user.
#[derive(Clone, Copy, PartialEq, Eq, Structural, Debug)]
pub enum OverwriteTarget {
    Role(RoleId),
    Member(UserId),
}

/// A per-channel allow/deny adjustment layered atop role-derived permissions.
#[derive(Clone, Copy, Debug)]
pub struct Overwrite {
    pub target: OverwriteTarget,
    pub allow: PermissionSet,
    pub deny: PermissionSet,
}

/// A resource within a guild that permissions are evaluated against: a kind
/// and an ordered sequence of overwrite records.
#[derive(Clone, Debug)]
pub struct Channel {
    pub id: ChannelId,
    pub kind: ChannelKind,
    pub overwrites: Vec<Overwrite>,
}

/// The authorization-relevant state of one guild at a point in time. The maps
/// are keyed by the raw identifier value of each entity.
#[derive(Clone, Debug)]
pub struct GuildSnapshot {
    pub id: GuildId,
    pub owner_id: UserId,
    pub roles: HashMap<u64, Role>,
    pub members: HashMap<u64, Member>,
    pub channels: HashMap<u64, Channel>,
}

impl Overwrite {
    /// An overwrite is well formed when no bit is both allowed and denied;
    /// the resolver applies `deny` first, so `allow` would win on such a
    /// conflict.
    pub open spec fn wf(self) -> bool {
        self.allow.bits & self.deny.bits == 0
    }
}

impl GuildSnapshot {
    /// The snapshot holds its implicit "everyone" role: the role whose
    /// identifier equals the guild's identifier.
    pub open spec fn has_everyone_role(self) -> bool {
        self.roles@.contains_key(self.id.0)
    }

    /// A guild is considered large when it has more than 250 members.
    pub fn is_large(&self) -> (r: bool)
        ensures
            r == (self.members@.len() > 250),
    {
        self.members.len() > 250
    }
}

} // verus!
