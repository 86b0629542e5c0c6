//! The permission guard: pre-flight checks that mutating guild operations run
//! before invoking the REST collaborator, failing closed when a required bit
//! is absent.
//!
//! The checks are advisory-local-only: they reflect the locally cached
//! snapshot, and the remote platform remains the final authority. A guarded
//! operation takes the snapshot as an `Option`: callers built without a live
//! local store pass `None`, skip the local check, and rely solely on remote
//! rejection.

use vstd::prelude::*;
use crate::engine::{resolve, spec_resolve};
use crate::model::{ChannelId, GuildSnapshot, UserId};
use crate::permissions::{
    PermissionSet, BAN_MEMBERS, CHANGE_NICKNAME, KICK_MEMBERS, MANAGE_CHANNELS, MANAGE_GUILD,
    MANAGE_ROLES,
};

verus! {

broadcast use vstd::std_specs::hash::group_hash_axioms;

/// The typed local failure of `require`: the required bits the resolved set
/// lacks, distinct from any rejection the remote platform may later return.
#[derive(Clone, Copy, PartialEq, Eq, Structural, Debug)]
pub struct PermissionDenied {
    pub missing: PermissionSet,
}

/// A guarded operation's local failure, mirroring the reasons a pre-flight
/// check declines before any network call is attempted.
#[derive(Clone, Copy, PartialEq, Eq, Structural, Debug)]
pub enum GuardError {
    /// The acting user has no membership record in the snapshot.
    ItemMissing,
    /// The acting user lacks the named required permissions.
    InvalidPermissions(PermissionSet),
    /// A ban asked to delete more days' worth of messages than the maximum.
    DeleteMessageDaysAmount(u8),
    /// The operation is unavailable to bot accounts.
    InvalidOperationAsBot,
}

/// Passes exactly when `resolved` holds every bit of `required`; the failure
/// carries the missing bits.
pub fn require(resolved: PermissionSet, required: PermissionSet) -> (r: Result<
    (),
    PermissionDenied,
>)
    ensures
        r is Ok <==> required.bits & !resolved.bits == 0,
        r matches Err(e) ==> e.missing.bits == required.bits & !resolved.bits,
{
    let missing = required.difference(resolved);
    if missing.is_empty() {
        Ok(())
    } else {
        Err(PermissionDenied { missing })
    }
}

/// The acting user's guild-level resolution covers the required bits: the
/// query is made against the default resource (the channel whose identifier
/// equals the guild's).
pub open spec fn spec_has_perms(s: GuildSnapshot, acting: UserId, required_bits: u64) -> bool {
    required_bits & !spec_resolve(s, ChannelId(s.id.0), acting) == 0
}

/// Whether the acting user holds the required permissions at guild level, or
/// the membership-record anomaly that prevents telling.
pub fn has_perms(s: &GuildSnapshot, acting: UserId, required: PermissionSet) -> (r: Result<
    bool,
    GuardError,
>)
    ensures
        match r {
            Ok(b) => s.members@.contains_key(acting.0) && b == spec_has_perms(
                *s,
                acting,
                required.bits,
            ),
            Err(e) => !s.members@.contains_key(acting.0) && e == GuardError::ItemMissing,
        },
{
    if !s.members.contains_key(&acting.0) {
        return Err(GuardError::ItemMissing);
    }
    let resolved = resolve(s, ChannelId(s.id.0), acting);
    let missing = required.difference(resolved);
    Ok(missing.is_empty())
}

/// A mutating guild operation with a required-bit entry in the per-operation
/// table.
#[derive(Clone, Copy, PartialEq, Eq, Structural, Debug)]
pub enum GuildAction {
    Ban,
    ListBans,
    CreateChannel,
    CreateRole,
    EditGuild,
    EditNickname,
    GetInvites,
    GetPruneCount,
    StartPrune,
    Unban,
}

/// The per-operation required-bit table.
pub open spec fn spec_required_bits(action: GuildAction) -> u64 {
    match action {
        GuildAction::Ban => BAN_MEMBERS,
        GuildAction::ListBans => BAN_MEMBERS,
        GuildAction::CreateChannel => MANAGE_CHANNELS,
        GuildAction::CreateRole => MANAGE_ROLES,
        GuildAction::EditGuild => MANAGE_GUILD,
        GuildAction::EditNickname => CHANGE_NICKNAME,
        GuildAction::GetInvites => MANAGE_GUILD,
        GuildAction::GetPruneCount => KICK_MEMBERS,
        GuildAction::StartPrune => KICK_MEMBERS,
        GuildAction::Unban => BAN_MEMBERS,
    }
}

/// The permissions an operation requires of the acting user.
pub fn required_permissions(action: GuildAction) -> (r: PermissionSet)
    ensures
        r.bits == spec_required_bits(action),
{
    let bits = match action {
        GuildAction::Ban => BAN_MEMBERS,
        GuildAction::ListBans => BAN_MEMBERS,
        GuildAction::CreateChannel => MANAGE_CHANNELS,
        GuildAction::CreateRole => MANAGE_ROLES,
        GuildAction::EditGuild => MANAGE_GUILD,
        GuildAction::EditNickname => CHANGE_NICKNAME,
        GuildAction::GetInvites => MANAGE_GUILD,
        GuildAction::GetPruneCount => KICK_MEMBERS,
        GuildAction::StartPrune => KICK_MEMBERS,
        GuildAction::Unban => BAN_MEMBERS,
    };
    PermissionSet::from_bits(bits)
}

/// The pre-flight check of one table-driven operation. With no local snapshot
/// the check is skipped; with one, it fails closed when the membership record
/// is absent or the required bits are not all held.
pub fn check_action(snapshot: Option<&GuildSnapshot>, acting: UserId, action: GuildAction) -> (r:
    Result<(), GuardError>)
    ensures
        snapshot is None ==> r is Ok,
        snapshot matches Some(s) && !s.members@.contains_key(acting.0) ==> r == Err::<
            (),
            GuardError,
        >(GuardError::ItemMissing),
        snapshot matches Some(s) && s.members@.contains_key(acting.0) && spec_has_perms(
            *s,
            acting,
            spec_required_bits(action),
        ) ==> r is Ok,
        snapshot matches Some(s) && s.members@.contains_key(acting.0) && !spec_has_perms(
            *s,
            acting,
            spec_required_bits(action),
        ) ==> r == Err::<(), GuardError>(
            GuardError::InvalidPermissions(PermissionSet { bits: spec_required_bits(action) }),
        ),
{
    let s = match snapshot {
        Some(s) => s,
        None => {
            return Ok(());
        },
    };
    let required = required_permissions(action);
    match has_perms(s, acting, required) {
        Ok(true) => Ok(()),
        Ok(false) => Err(GuardError::InvalidPermissions(required)),
        Err(e) => Err(e),
    }
}

/// The pre-flight check of a ban: the message-deletion window is at most
/// seven days, and the acting user holds ban-members. The window is checked
/// first, with or without a local snapshot.
pub fn check_ban(snapshot: Option<&GuildSnapshot>, acting: UserId, delete_message_days: u8) -> (r:
    Result<(), GuardError>)
    ensures
        delete_message_days > 7 ==> r == Err::<(), GuardError>(
            GuardError::DeleteMessageDaysAmount(delete_message_days),
        ),
        delete_message_days <= 7 && snapshot is None ==> r is Ok,
        delete_message_days <= 7 ==> (snapshot matches Some(s) && !s.members@.contains_key(
            acting.0,
        ) ==> r == Err::<(), GuardError>(GuardError::ItemMissing)),
        delete_message_days <= 7 ==> (snapshot matches Some(s) && s.members@.contains_key(acting.0)
            && spec_has_perms(*s, acting, BAN_MEMBERS) ==> r is Ok),
        delete_message_days <= 7 ==> (snapshot matches Some(s) && s.members@.contains_key(acting.0)
            && !spec_has_perms(*s, acting, BAN_MEMBERS) ==> r == Err::<(), GuardError>(
            GuardError::InvalidPermissions(PermissionSet { bits: BAN_MEMBERS }),
        )),
{
    if delete_message_days > 7 {
        return Err(GuardError::DeleteMessageDaysAmount(delete_message_days));
    }
    check_action(snapshot, acting, GuildAction::Ban)
}

/// The pre-flight check of a guild deletion: only the owner may delete the
/// guild; anyone else is told manage-guild would not suffice either.
pub fn check_delete(snapshot: Option<&GuildSnapshot>, acting: UserId) -> (r: Result<
    (),
    GuardError,
>)
    ensures
        snapshot is None ==> r is Ok,
        snapshot matches Some(s) && acting.0 == s.owner_id.0 ==> r is Ok,
        snapshot matches Some(s) && acting.0 != s.owner_id.0 ==> r == Err::<(), GuardError>(
            GuardError::InvalidPermissions(PermissionSet { bits: MANAGE_GUILD }),
        ),
{
    let s = match snapshot {
        Some(s) => s,
        None => {
            return Ok(());
        },
    };
    if acting.0 != s.owner_id.0 {
        return Err(GuardError::InvalidPermissions(PermissionSet::from_bits(MANAGE_GUILD)));
    }
    Ok(())
}

/// The pre-flight check of a message search: bot accounts cannot search.
/// Callers without a local record of the acting account pass `None` and rely
/// on remote rejection.
pub fn check_search(acting_is_bot: Option<bool>) -> (r: Result<(), GuardError>)
    ensures
        acting_is_bot == Some(true) ==> r == Err::<(), GuardError>(
            GuardError::InvalidOperationAsBot,
        ),
        acting_is_bot != Some(true) ==> r is Ok,
{
    match acting_is_bot {
        Some(true) => Err(GuardError::InvalidOperationAsBot),
        _ => Ok(()),
    }
}

} // verus!
