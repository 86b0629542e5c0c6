//! The permission resolution engine: a single deterministic pass that
//! combines the ownership short-circuit, the administrator short-circuit, the
//! role union, overwrite application, resource-kind masking, default-resource
//! visibility, and dependent-permission invalidation.

use vstd::prelude::*;
use crate::model::{Channel, ChannelId, ChannelKind, GuildId, GuildSnapshot, Role, RoleId, UserId};
use crate::permissions::{
    PermissionSet, ADMINISTRATOR, ALL_BITS, NO_READ_RETAINED_BITS, READ_MESSAGES,
    SEND_DEPENDENT_BITS, SEND_MESSAGES, VOICE_BITS,
};
use crate::resolver::{
    apply_member_overwrites, apply_role_overwrites, run_member_pass, run_role_pass,
};

verus! {

broadcast use vstd::std_specs::hash::group_hash_axioms;

/// The union of the base grant with the permissions of every assigned role
/// among the first entries of `ids` that exists in the role map; a referenced
/// role with no entry is skipped.
pub open spec fn union_of_roles(roles: Map<u64, Role>, ids: Seq<RoleId>, base: u64) -> u64
    decreases ids.len(),
{
    if ids.len() == 0 {
        base
    } else {
        let p = union_of_roles(roles, ids.drop_last(), base);
        if roles.contains_key(ids.last().0) {
            p | roles[ids.last().0].permissions.bits
        } else {
            p
        }
    }
}

/// The passes that follow overwrite application: the default resource is
/// always readable; without send-messages its dependent bits are cleared;
/// without read-messages only the guild-administrative bits remain.
pub open spec fn post_process(p: u64, channel_id: ChannelId, guild_id: GuildId) -> u64 {
    let p1 = if channel_id.0 == guild_id.0 {
        p | READ_MESSAGES
    } else {
        p
    };
    let p2 = if p1 & SEND_MESSAGES != SEND_MESSAGES {
        p1 & !SEND_DEPENDENT_BITS
    } else {
        p1
    };
    if p2 & READ_MESSAGES != READ_MESSAGES {
        p2 & NO_READ_RETAINED_BITS
    } else {
        p2
    }
}

/// The overwrite-application step for one channel: for a text channel the
/// voice-only bits are cleared first; then the role pass runs, then the
/// member pass.
pub open spec fn channel_step(p: u64, channel: Channel, member_roles: Seq<RoleId>, guild_id: GuildId, user_id: UserId) -> u64 {
    let masked = if channel.kind is Text {
        p & !VOICE_BITS
    } else {
        p
    };
    apply_member_overwrites(
        apply_role_overwrites(masked, channel.overwrites@, member_roles, guild_id),
        channel.overwrites@,
        user_id,
    )
}

/// The effective permission set of a user in a channel, given one snapshot:
/// the owner holds every bit; without the everyone role the set is empty;
/// a non-member holds exactly the everyone role's grant; a member whose
/// unioned role permissions contain administrator holds every bit; otherwise
/// the channel's overwrites (if the channel exists) and the closing passes
/// apply.
pub open spec fn spec_resolve(s: GuildSnapshot, channel_id: ChannelId, user_id: UserId) -> u64 {
    if user_id.0 == s.owner_id.0 {
        ALL_BITS
    } else if !s.roles@.contains_key(s.id.0) {
        0
    } else {
        let base = s.roles@[s.id.0].permissions.bits;
        if !s.members@.contains_key(user_id.0) {
            base
        } else {
            let member = s.members@[user_id.0];
            let unioned = union_of_roles(s.roles@, member.roles@, base);
            if unioned & ADMINISTRATOR == ADMINISTRATOR {
                ALL_BITS
            } else {
                let in_channel = if s.channels@.contains_key(channel_id.0) {
                    channel_step(unioned, s.channels@[channel_id.0], member.roles@, s.id, user_id)
                } else {
                    unioned
                };
                post_process(in_channel, channel_id, s.id)
            }
        }
    }
}

/// Computes the effective permission set of a user in a channel.
///
/// Data-integrity anomalies never fail the call: a missing everyone role
/// yields the empty set, a missing referenced role is skipped, and a missing
/// channel skips overwrite application. See `resolution_diagnostics` for the
/// events those anomalies emit.
pub fn resolve(s: &GuildSnapshot, channel_id: ChannelId, user_id: UserId) -> (r: PermissionSet)
    ensures
        r@ == spec_resolve(*s, channel_id, user_id),
{
    if user_id.0 == s.owner_id.0 {
        return PermissionSet::all();
    }
    let everyone = match s.roles.get(&s.id.0) {
        Some(everyone) => everyone,
        None => {
            return PermissionSet::empty();
        },
    };
    let mut permissions: u64 = everyone.permissions.bits;
    let member = match s.members.get(&user_id.0) {
        Some(member) => member,
        None => {
            return everyone.permissions;
        },
    };
    let n = member.roles.len();
    for i in 0..n
        invariant
            n == member.roles@.len(),
            permissions == union_of_roles(
                s.roles@,
                member.roles@.take(i as int),
                everyone.permissions.bits,
            ),
    {
        let rid = member.roles[i];
        match s.roles.get(&rid.0) {
            Some(role) => {
                permissions = permissions | role.permissions.bits;
            },
            None => {},
        }
        proof {
            assert(member.roles@.take(i + 1).drop_last() =~= member.roles@.take(i as int));
            assert(member.roles@.take(i + 1).last() == rid);
        }
    }
    proof {
        assert(member.roles@.take(n as int) =~= member.roles@);
    }
    if permissions & ADMINISTRATOR == ADMINISTRATOR {
        return PermissionSet::all();
    }
    match s.channels.get(&channel_id.0) {
        Some(channel) => {
            if channel.kind == ChannelKind::Text {
                permissions = permissions & !VOICE_BITS;
            }
            permissions = run_role_pass(permissions, &channel.overwrites, &member.roles, s.id);
            permissions = run_member_pass(permissions, &channel.overwrites, user_id);
        },
        None => {},
    }
    if channel_id.0 == s.id.0 {
        permissions = permissions | READ_MESSAGES;
    }
    if permissions & SEND_MESSAGES != SEND_MESSAGES {
        permissions = permissions & !SEND_DEPENDENT_BITS;
    }
    if permissions & READ_MESSAGES != READ_MESSAGES {
        permissions = permissions & NO_READ_RETAINED_BITS;
    }
    PermissionSet::from_bits(permissions)
}

/// A named data-integrity anomaly observed during one resolution. Anomalies
/// never fail the call; they are reported for a diagnostic sink to consume.
#[derive(Clone, Copy, PartialEq, Eq, Structural, Debug)]
pub enum Diagnostic {
    MissingEveryoneRole,
    MissingReferencedRole(RoleId),
    MissingChannelForResolution(ChannelId),
}

/// One missing-referenced-role event for each assigned role, among the first
/// entries of `ids`, that has no entry in the role map, in assignment order.
pub open spec fn missing_role_events(roles: Map<u64, Role>, ids: Seq<RoleId>) -> Seq<Diagnostic>
    decreases ids.len(),
{
    if ids.len() == 0 {
        Seq::empty()
    } else {
        let d = missing_role_events(roles, ids.drop_last());
        if roles.contains_key(ids.last().0) {
            d
        } else {
            d.push(Diagnostic::MissingReferencedRole(ids.last()))
        }
    }
}

/// The diagnostics that resolving this query emits, in emission order: a
/// missing everyone role (which empties the result), each referenced role
/// with no entry, and — unless the administrator short-circuit ends the pass
/// first — a missing channel.
pub open spec fn spec_diagnostics(s: GuildSnapshot, channel_id: ChannelId, user_id: UserId) -> Seq<
    Diagnostic,
> {
    if user_id.0 == s.owner_id.0 {
        Seq::empty()
    } else if !s.roles@.contains_key(s.id.0) {
        seq![Diagnostic::MissingEveryoneRole]
    } else if !s.members@.contains_key(user_id.0) {
        Seq::empty()
    } else {
        let member = s.members@[user_id.0];
        let role_events = missing_role_events(s.roles@, member.roles@);
        let base = s.roles@[s.id.0].permissions.bits;
        let unioned = union_of_roles(s.roles@, member.roles@, base);
        if unioned & ADMINISTRATOR == ADMINISTRATOR || s.channels@.contains_key(channel_id.0) {
            role_events
        } else {
            role_events.push(Diagnostic::MissingChannelForResolution(channel_id))
        }
    }
}

/// Reports the data-integrity anomalies that `resolve` observes on the same
/// query, for a diagnostic sink.
pub fn resolution_diagnostics(s: &GuildSnapshot, channel_id: ChannelId, user_id: UserId) -> (r:
    Vec<Diagnostic>)
    ensures
        r@ == spec_diagnostics(*s, channel_id, user_id),
{
    let mut events: Vec<Diagnostic> = Vec::new();
    if user_id.0 == s.owner_id.0 {
        return events;
    }
    let everyone = match s.roles.get(&s.id.0) {
        Some(everyone) => everyone,
        None => {
            events.push(Diagnostic::MissingEveryoneRole);
            return events;
        },
    };
    let mut permissions: u64 = everyone.permissions.bits;
    let member = match s.members.get(&user_id.0) {
        Some(member) => member,
        None => {
            return events;
        },
    };
    let n = member.roles.len();
    for i in 0..n
        invariant
            n == member.roles@.len(),
            events@ == missing_role_events(s.roles@, member.roles@.take(i as int)),
            permissions == union_of_roles(
                s.roles@,
                member.roles@.take(i as int),
                everyone.permissions.bits,
            ),
    {
        let rid = member.roles[i];
        match s.roles.get(&rid.0) {
            Some(role) => {
                permissions = permissions | role.permissions.bits;
            },
            None => {
                events.push(Diagnostic::MissingReferencedRole(rid));
            },
        }
        proof {
            assert(member.roles@.take(i + 1).drop_last() =~= member.roles@.take(i as int));
            assert(member.roles@.take(i + 1).last() == rid);
        }
    }
    proof {
        assert(member.roles@.take(n as int) =~= member.roles@);
    }
    if permissions & ADMINISTRATOR == ADMINISTRATOR {
        return events;
    }
    if !s.channels.contains_key(&channel_id.0) {
        events.push(Diagnostic::MissingChannelForResolution(channel_id));
    }
    events
}

} // verus!
