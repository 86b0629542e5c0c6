use std::collections::HashMap;

use guild_perms::guard::{
    check_action, check_ban, check_delete, check_search, has_perms, require, required_permissions,
    GuardError, GuildAction,
};
use guild_perms::model::{GuildId, GuildSnapshot, Member, Role, RoleId, UserId};
use guild_perms::permissions::{
    PermissionSet, ADMINISTRATOR, BAN_MEMBERS, CHANGE_NICKNAME, KICK_MEMBERS, MANAGE_CHANNELS,
    MANAGE_GUILD, MANAGE_ROLES, READ_MESSAGES,
};
use guild_perms::store::GuildStateStore;

const GUILD: u64 = 1;
const OWNER: u64 = 100;
const MEMBER: u64 = 200;

fn snapshot_with_everyone_bits(bits: u64) -> GuildSnapshot {
    let mut roles = HashMap::new();
    roles.insert(
        GUILD,
        Role { id: RoleId(GUILD), name: String::from("everyone"), permissions: PermissionSet { bits } },
    );
    let mut members = HashMap::new();
    members.insert(MEMBER, Member { user_id: UserId(MEMBER), roles: Vec::new(), nick: None });
    GuildSnapshot {
        id: GuildId(GUILD),
        owner_id: UserId(OWNER),
        roles,
        members,
        channels: HashMap::new(),
    }
}

#[test]
fn require_passes_when_all_bits_held() {
    let resolved = PermissionSet { bits: BAN_MEMBERS | KICK_MEMBERS };
    assert!(require(resolved, PermissionSet { bits: BAN_MEMBERS }).is_ok());
}

#[test]
fn require_reports_missing_bits() {
    let resolved = PermissionSet { bits: KICK_MEMBERS };
    let denied = require(resolved, PermissionSet { bits: BAN_MEMBERS | KICK_MEMBERS }).unwrap_err();
    assert_eq!(denied.missing.bits, BAN_MEMBERS);
}

#[test]
fn has_perms_fails_closed_without_membership_record() {
    let s = snapshot_with_everyone_bits(BAN_MEMBERS | READ_MESSAGES);
    let r = has_perms(&s, UserId(999), PermissionSet { bits: BAN_MEMBERS });
    assert_eq!(r, Err(GuardError::ItemMissing));
}

#[test]
fn has_perms_resolves_at_guild_level() {
    let s = snapshot_with_everyone_bits(BAN_MEMBERS | READ_MESSAGES);
    assert_eq!(has_perms(&s, UserId(MEMBER), PermissionSet { bits: BAN_MEMBERS }), Ok(true));
    assert_eq!(has_perms(&s, UserId(MEMBER), PermissionSet { bits: MANAGE_GUILD }), Ok(false));
}

#[test]
fn required_bit_table_matches_operations() {
    assert_eq!(required_permissions(GuildAction::Ban).bits, BAN_MEMBERS);
    assert_eq!(required_permissions(GuildAction::ListBans).bits, BAN_MEMBERS);
    assert_eq!(required_permissions(GuildAction::Unban).bits, BAN_MEMBERS);
    assert_eq!(required_permissions(GuildAction::CreateChannel).bits, MANAGE_CHANNELS);
    assert_eq!(required_permissions(GuildAction::CreateRole).bits, MANAGE_ROLES);
    assert_eq!(required_permissions(GuildAction::EditGuild).bits, MANAGE_GUILD);
    assert_eq!(required_permissions(GuildAction::GetInvites).bits, MANAGE_GUILD);
    assert_eq!(required_permissions(GuildAction::EditNickname).bits, CHANGE_NICKNAME);
    assert_eq!(required_permissions(GuildAction::GetPruneCount).bits, KICK_MEMBERS);
    assert_eq!(required_permissions(GuildAction::StartPrune).bits, KICK_MEMBERS);
}

#[test]
fn check_action_declines_without_required_bit() {
    let s = snapshot_with_everyone_bits(READ_MESSAGES);
    let r = check_action(Some(&s), UserId(MEMBER), GuildAction::StartPrune);
    assert_eq!(r, Err(GuardError::InvalidPermissions(PermissionSet { bits: KICK_MEMBERS })));
}

#[test]
fn check_action_passes_with_required_bit() {
    let s = snapshot_with_everyone_bits(READ_MESSAGES | KICK_MEMBERS);
    assert_eq!(check_action(Some(&s), UserId(MEMBER), GuildAction::StartPrune), Ok(()));
}

#[test]
fn check_action_passes_for_administrator() {
    let s = snapshot_with_everyone_bits(ADMINISTRATOR);
    assert_eq!(check_action(Some(&s), UserId(MEMBER), GuildAction::EditGuild), Ok(()));
}

#[test]
fn check_action_skips_without_snapshot() {
    assert_eq!(check_action(None, UserId(MEMBER), GuildAction::Ban), Ok(()));
}

#[test]
fn check_ban_rejects_excessive_deletion_window() {
    let s = snapshot_with_everyone_bits(BAN_MEMBERS | READ_MESSAGES);
    assert_eq!(
        check_ban(Some(&s), UserId(MEMBER), 8),
        Err(GuardError::DeleteMessageDaysAmount(8))
    );
    assert_eq!(check_ban(None, UserId(MEMBER), 8), Err(GuardError::DeleteMessageDaysAmount(8)));
}

#[test]
fn check_ban_requires_ban_members() {
    let s = snapshot_with_everyone_bits(READ_MESSAGES);
    assert_eq!(
        check_ban(Some(&s), UserId(MEMBER), 7),
        Err(GuardError::InvalidPermissions(PermissionSet { bits: BAN_MEMBERS }))
    );
    let s = snapshot_with_everyone_bits(READ_MESSAGES | BAN_MEMBERS);
    assert_eq!(check_ban(Some(&s), UserId(MEMBER), 7), Ok(()));
}

#[test]
fn check_delete_only_for_owner() {
    let s = snapshot_with_everyone_bits(MANAGE_GUILD | ADMINISTRATOR);
    assert_eq!(check_delete(Some(&s), UserId(OWNER)), Ok(()));
    assert_eq!(
        check_delete(Some(&s), UserId(MEMBER)),
        Err(GuardError::InvalidPermissions(PermissionSet { bits: MANAGE_GUILD }))
    );
    assert_eq!(check_delete(None, UserId(MEMBER)), Ok(()));
}

#[test]
fn check_search_rejects_bots() {
    assert_eq!(check_search(Some(true)), Err(GuardError::InvalidOperationAsBot));
    assert_eq!(check_search(Some(false)), Ok(()));
    assert_eq!(check_search(None), Ok(()));
}

#[test]
fn store_replaces_collections_wholesale() {
    let s = snapshot_with_everyone_bits(READ_MESSAGES);
    let mut store = GuildStateStore::new(s);
    assert!(store.read().members.contains_key(&MEMBER));

    let mut new_members = HashMap::new();
    new_members.insert(300, Member { user_id: UserId(300), roles: Vec::new(), nick: None });
    store.replace_members(new_members);
    assert!(!store.read().members.contains_key(&MEMBER));
    assert!(store.read().members.contains_key(&300));

    let mut new_roles = HashMap::new();
    new_roles.insert(
        GUILD,
        Role {
            id: RoleId(GUILD),
            name: String::from("everyone"),
            permissions: PermissionSet { bits: BAN_MEMBERS },
        },
    );
    store.replace_roles(new_roles);
    assert_eq!(store.read().roles.get(&GUILD).unwrap().permissions.bits, BAN_MEMBERS);

    store.replace_channels(HashMap::new());
    assert!(store.read().channels.is_empty());
}

#[test]
fn snapshot_handle_outlives_replacement() {
    let s = snapshot_with_everyone_bits(READ_MESSAGES);
    let mut store = GuildStateStore::new(s);
    let handle = store.read().clone();
    store.replace_members(HashMap::new());
    assert!(handle.members.contains_key(&MEMBER));
    assert!(store.read().members.is_empty());
}

#[test]
fn guild_is_large_above_member_threshold() {
    let mut s = snapshot_with_everyone_bits(READ_MESSAGES);
    assert!(!s.is_large());
    let mut members = HashMap::new();
    for u in 0..251u64 {
        members.insert(u, Member { user_id: UserId(u), roles: Vec::new(), nick: None });
    }
    s.members = members;
    assert!(s.is_large());
    s.members.remove(&0);
    assert!(!s.is_large());
}
