//! The overwrite resolver: applies an ordered list of per-channel override
//! records against a running permission value.
//!
//! Each matching record rewrites the bits it touches as
//! `result = (result & !deny) | allow`, so a later matching record takes
//! precedence over an earlier one.

use vstd::prelude::*;
use crate::model::{GuildId, Overwrite, OverwriteTarget, RoleId, UserId};

verus! {

/// One overwrite applied to a running permission value: denied bits are
/// cleared first, then allowed bits are set, so `allow` wins where a record
/// both allows and denies a bit.
pub open spec fn apply_overwrite(p: u64, ow: Overwrite) -> u64 {
    (p & !ow.deny.bits) | ow.allow.bits
}

/// Whether an overwrite participates in the role pass: it targets a role the
/// member holds, and that role is not the everyone role (the everyone role's
/// own overwrite entry is intentionally excluded — the base grant already came
/// from that role's direct permissions).
pub open spec fn role_overwrite_applies(
    ow: Overwrite,
    member_roles: Seq<RoleId>,
    guild_id: GuildId,
) -> bool {
    ow.target matches OverwriteTarget::Role(r) && member_roles.contains(r) && r.0 != guild_id.0
}

/// Whether an overwrite participates in the member pass: it targets exactly
/// the given user.
pub open spec fn member_overwrite_applies(ow: Overwrite, user_id: UserId) -> bool {
    ow.target matches OverwriteTarget::Member(u) && u == user_id
}

/// The role pass over the first `n` overwrites, in list order.
pub open spec fn apply_role_overwrites(
    p: u64,
    ows: Seq<Overwrite>,
    member_roles: Seq<RoleId>,
    guild_id: GuildId,
) -> u64
    decreases ows.len(),
{
    if ows.len() == 0 {
        p
    } else {
        let q = apply_role_overwrites(p, ows.drop_last(), member_roles, guild_id);
        if role_overwrite_applies(ows.last(), member_roles, guild_id) {
            apply_overwrite(q, ows.last())
        } else {
            q
        }
    }
}

/// The member pass over the overwrites, in list order.
pub open spec fn apply_member_overwrites(p: u64, ows: Seq<Overwrite>, user_id: UserId) -> u64
    decreases ows.len(),
{
    if ows.len() == 0 {
        p
    } else {
        let q = apply_member_overwrites(p, ows.drop_last(), user_id);
        if member_overwrite_applies(ows.last(), user_id) {
            apply_overwrite(q, ows.last())
        } else {
            q
        }
    }
}

/// Whether the member holds the given role.
pub fn roles_contain(member_roles: &Vec<RoleId>, role: RoleId) -> (r: bool)
    ensures
        r == member_roles@.contains(role),
{
    let n = member_roles.len();
    for i in 0..n
        invariant
            n == member_roles@.len(),
            forall|j: int| 0 <= j < i ==> member_roles@[j] != role,
    {
        if member_roles[i] == role {
            return true;
        }
    }
    false
}

/// Runs the role pass: every overwrite that targets a role the member holds,
/// other than the everyone role, rewrites the bits it touches, in list order.
pub fn run_role_pass(
    base: u64,
    overwrites: &Vec<Overwrite>,
    member_roles: &Vec<RoleId>,
    guild_id: GuildId,
) -> (r: u64)
    ensures
        r == apply_role_overwrites(base, overwrites@, member_roles@, guild_id),
{
    let mut p = base;
    let n = overwrites.len();
    for i in 0..n
        invariant
            n == overwrites@.len(),
            p == apply_role_overwrites(base, overwrites@.take(i as int), member_roles@, guild_id),
    {
        let ow = overwrites[i];
        match ow.target {
            OverwriteTarget::Role(role) => {
                if roles_contain(member_roles, role) && role.0 != guild_id.0 {
                    p = (p & !ow.deny.bits) | ow.allow.bits;
                }
            },
            OverwriteTarget::Member(_) => {},
        }
        proof {
            assert(overwrites@.take(i + 1).drop_last() =~= overwrites@.take(i as int));
            assert(overwrites@.take(i + 1).last() == ow);
        }
    }
    proof {
        assert(overwrites@.take(n as int) =~= overwrites@);
    }
    p
}

/// Runs the member pass: every overwrite that targets exactly this user
/// rewrites the bits it touches, in list order. It runs after the role pass,
/// so a member-specific overwrite wins ties with role overwrites.
pub fn run_member_pass(base: u64, overwrites: &Vec<Overwrite>, user_id: UserId) -> (r: u64)
    ensures
        r == apply_member_overwrites(base, overwrites@, user_id),
{
    let mut p = base;
    let n = overwrites.len();
    for i in 0..n
        invariant
            n == overwrites@.len(),
            p == apply_member_overwrites(base, overwrites@.take(i as int), user_id),
    {
        let ow = overwrites[i];
        match ow.target {
            OverwriteTarget::Member(u) => {
                if u == user_id {
                    p = (p & !ow.deny.bits) | ow.allow.bits;
                }
            },
            OverwriteTarget::Role(_) => {},
        }
        proof {
            assert(overwrites@.take(i + 1).drop_last() =~= overwrites@.take(i as int));
            assert(overwrites@.take(i + 1).last() == ow);
        }
    }
    proof {
        assert(overwrites@.take(n as int) =~= overwrites@);
    }
    p
}

} // verus!
