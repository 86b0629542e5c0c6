//! Laws of the resolution engine: the guarantees that hold across every
//! snapshot, stated over the same spec functions the executable contracts
//! use and proved from them.

use vstd::prelude::*;
use crate::engine::{channel_step, post_process, spec_resolve, union_of_roles};
use crate::model::{Channel, ChannelId, GuildId, GuildSnapshot, Overwrite, RoleId, UserId};
use crate::permissions::{
    ADMINISTRATOR, ALL_BITS, NO_READ_RETAINED_BITS, READ_MESSAGES, SEND_DEPENDENT_BITS,
    SEND_MESSAGES, VOICE_BITS,
};
use crate::resolver::{
    apply_member_overwrites, apply_role_overwrites, member_overwrite_applies,
    role_overwrite_applies,
};

verus! {

proof fn lemma_or_sets(p: u64, b: u64)
    by (bit_vector)
    ensures
        (p | b) & b == b,
{
}

proof fn lemma_clear_bits(p: u64, m: u64)
    by (bit_vector)
    ensures
        (p & !m) & m == 0,
{
}

proof fn lemma_apply_keeps_clear(p: u64, d: u64, a: u64, v: u64)
    by (bit_vector)
    requires
        p & v == 0,
        a & v == 0,
    ensures
        ((p & !d) | a) & v == 0,
{
}

proof fn lemma_and_keeps_clear(p: u64, m: u64, v: u64)
    by (bit_vector)
    requires
        p & v == 0,
    ensures
        (p & m) & v == 0,
{
}

proof fn lemma_mask_clears(p: u64, m: u64, v: u64)
    by (bit_vector)
    requires
        m & v == 0,
    ensures
        (p & m) & v == 0,
{
}

proof fn lemma_or_keeps_clear(p: u64, b: u64, v: u64)
    by (bit_vector)
    requires
        p & v == 0,
        b & v == 0,
    ensures
        (p | b) & v == 0,
{
}

proof fn lemma_keep_bit_under_clear(p: u64, m: u64, b: u64)
    by (bit_vector)
    requires
        p & b == b,
        m & b == 0,
    ensures
        (p & !m) & b == b,
{
}

proof fn lemma_and_subset(p: u64, m: u64)
    by (bit_vector)
    ensures
        (p & m) & !m == 0,
{
}

proof fn mask_facts()
    by (bit_vector)
    ensures
        ALL_BITS & READ_MESSAGES == READ_MESSAGES,
        ALL_BITS & SEND_MESSAGES == SEND_MESSAGES,
        READ_MESSAGES & VOICE_BITS == 0,
        READ_MESSAGES & SEND_DEPENDENT_BITS == 0,
        SEND_DEPENDENT_BITS & READ_MESSAGES == 0,
        NO_READ_RETAINED_BITS & SEND_DEPENDENT_BITS == 0,
        0u64 & VOICE_BITS == 0,
        0u64 & SEND_DEPENDENT_BITS == 0,
        0u64 & !NO_READ_RETAINED_BITS == 0,
        SEND_MESSAGES != 0,
{
}

proof fn lemma_role_pass_keeps_clear(
    p: u64,
    ows: Seq<Overwrite>,
    member_roles: Seq<RoleId>,
    guild_id: GuildId,
    v: u64,
)
    requires
        p & v == 0,
        forall|i: int| 0 <= i < ows.len() ==> ows[i].allow.bits & v == 0,
    ensures
        apply_role_overwrites(p, ows, member_roles, guild_id) & v == 0,
    decreases ows.len(),
{
    if ows.len() > 0 {
        lemma_role_pass_keeps_clear(p, ows.drop_last(), member_roles, guild_id, v);
        let q = apply_role_overwrites(p, ows.drop_last(), member_roles, guild_id);
        if role_overwrite_applies(ows.last(), member_roles, guild_id) {
            lemma_apply_keeps_clear(q, ows.last().deny.bits, ows.last().allow.bits, v);
        }
    }
}

proof fn lemma_member_pass_keeps_clear(p: u64, ows: Seq<Overwrite>, user_id: UserId, v: u64)
    requires
        p & v == 0,
        forall|i: int| 0 <= i < ows.len() ==> ows[i].allow.bits & v == 0,
    ensures
        apply_member_overwrites(p, ows, user_id) & v == 0,
    decreases ows.len(),
{
    if ows.len() > 0 {
        lemma_member_pass_keeps_clear(p, ows.drop_last(), user_id, v);
        let q = apply_member_overwrites(p, ows.drop_last(), user_id);
        if member_overwrite_applies(ows.last(), user_id) {
            lemma_apply_keeps_clear(q, ows.last().deny.bits, ows.last().allow.bits, v);
        }
    }
}

proof fn lemma_post_process_keeps_clear(p: u64, channel_id: ChannelId, guild_id: GuildId, v: u64)
    requires
        p & v == 0,
        READ_MESSAGES & v == 0,
    ensures
        post_process(p, channel_id, guild_id) & v == 0,
{
    let p1 = if channel_id.0 == guild_id.0 {
        p | READ_MESSAGES
    } else {
        p
    };
    lemma_or_keeps_clear(p, READ_MESSAGES, v);
    let p2 = if p1 & SEND_MESSAGES != SEND_MESSAGES {
        p1 & !SEND_DEPENDENT_BITS
    } else {
        p1
    };
    lemma_and_keeps_clear(p1, !SEND_DEPENDENT_BITS, v);
    lemma_and_keeps_clear(p2, NO_READ_RETAINED_BITS, v);
}

/// Law: for all snapshots, the owner resolves to the full set, regardless of
/// role or overwrite content.
pub proof fn lemma_owner_resolves_full(s: GuildSnapshot, channel_id: ChannelId, user_id: UserId)
    requires
        user_id.0 == s.owner_id.0,
    ensures
        spec_resolve(s, channel_id, user_id) == ALL_BITS,
{
}

/// Law: for all snapshots, a member whose unioned role permissions contain
/// administrator resolves to the full set, regardless of any deny overwrite.
pub proof fn lemma_administrator_resolves_full(
    s: GuildSnapshot,
    channel_id: ChannelId,
    user_id: UserId,
)
    requires
        s.has_everyone_role(),
        s.members@.contains_key(user_id.0),
        union_of_roles(
            s.roles@,
            s.members@[user_id.0].roles@,
            s.roles@[s.id.0].permissions.bits,
        ) & ADMINISTRATOR == ADMINISTRATOR,
    ensures
        spec_resolve(s, channel_id, user_id) == ALL_BITS,
{
}

/// Law: resolving a member against a text channel yields no voice-only bit
/// (connect, speak, mute-members, deafen-members, move-members,
/// use-voice-activity), even if a role grants them, provided the owner and
/// administrator short-circuits do not apply and no overwrite of the channel
/// allows a voice-only bit back in.
pub proof fn lemma_text_channel_excludes_voice(
    s: GuildSnapshot,
    channel_id: ChannelId,
    user_id: UserId,
)
    requires
        user_id.0 != s.owner_id.0,
        s.members@.contains_key(user_id.0),
        s.channels@.contains_key(channel_id.0),
        s.channels@[channel_id.0].kind is Text,
        forall|i: int|
            0 <= i < s.channels@[channel_id.0].overwrites@.len()
                ==> s.channels@[channel_id.0].overwrites@[i].allow.bits & VOICE_BITS == 0,
        s.has_everyone_role() ==> union_of_roles(
            s.roles@,
            s.members@[user_id.0].roles@,
            s.roles@[s.id.0].permissions.bits,
        ) & ADMINISTRATOR != ADMINISTRATOR,
    ensures
        spec_resolve(s, channel_id, user_id) & VOICE_BITS == 0,
{
    mask_facts();
    if s.roles@.contains_key(s.id.0) {
        let member = s.members@[user_id.0];
        let unioned = union_of_roles(s.roles@, member.roles@, s.roles@[s.id.0].permissions.bits);
        let channel = s.channels@[channel_id.0];
        let masked = unioned & !VOICE_BITS;
        lemma_clear_bits(unioned, VOICE_BITS);
        let after_roles = apply_role_overwrites(masked, channel.overwrites@, member.roles@, s.id);
        lemma_role_pass_keeps_clear(masked, channel.overwrites@, member.roles@, s.id, VOICE_BITS);
        lemma_member_pass_keeps_clear(after_roles, channel.overwrites@, user_id, VOICE_BITS);
        lemma_post_process_keeps_clear(
            apply_member_overwrites(after_roles, channel.overwrites@, user_id),
            channel_id,
            s.id,
            VOICE_BITS,
        );
    }
}

/// Law: a member (or the owner) always resolves to a set containing
/// read-messages against the default resource — the channel whose identifier
/// equals the guild's — provided the everyone role exists.
pub proof fn lemma_default_channel_readable(
    s: GuildSnapshot,
    channel_id: ChannelId,
    user_id: UserId,
)
    requires
        channel_id.0 == s.id.0,
        user_id.0 == s.owner_id.0 || (s.has_everyone_role() && s.members@.contains_key(
            user_id.0,
        )),
    ensures
        spec_resolve(s, channel_id, user_id) & READ_MESSAGES == READ_MESSAGES,
{
    mask_facts();
    if user_id.0 != s.owner_id.0 {
        let member = s.members@[user_id.0];
        let unioned = union_of_roles(s.roles@, member.roles@, s.roles@[s.id.0].permissions.bits);
        if unioned & ADMINISTRATOR != ADMINISTRATOR {
            let in_channel = if s.channels@.contains_key(channel_id.0) {
                channel_step(unioned, s.channels@[channel_id.0], member.roles@, s.id, user_id)
            } else {
                unioned
            };
            let p1 = in_channel | READ_MESSAGES;
            lemma_or_sets(in_channel, READ_MESSAGES);
            if p1 & SEND_MESSAGES != SEND_MESSAGES {
                lemma_keep_bit_under_clear(p1, SEND_DEPENDENT_BITS, READ_MESSAGES);
            }
        }
    }
}

/// Law: when the resolved set of the owner or of a member lacks
/// send-messages, it also lacks every bit that is meaningless without it:
/// send-tts-messages, mention-everyone, embed-links, attach-files.
pub proof fn lemma_no_send_strips_dependents(
    s: GuildSnapshot,
    channel_id: ChannelId,
    user_id: UserId,
)
    requires
        user_id.0 == s.owner_id.0 || s.members@.contains_key(user_id.0),
    ensures
        spec_resolve(s, channel_id, user_id) & SEND_MESSAGES != SEND_MESSAGES ==> spec_resolve(
            s,
            channel_id,
            user_id,
        ) & SEND_DEPENDENT_BITS == 0,
{
    mask_facts();
    if user_id.0 != s.owner_id.0 && s.roles@.contains_key(s.id.0) {
        let member = s.members@[user_id.0];
        let unioned = union_of_roles(s.roles@, member.roles@, s.roles@[s.id.0].permissions.bits);
        if unioned & ADMINISTRATOR != ADMINISTRATOR {
            let in_channel = if s.channels@.contains_key(channel_id.0) {
                channel_step(unioned, s.channels@[channel_id.0], member.roles@, s.id, user_id)
            } else {
                unioned
            };
            let p1 = if channel_id.0 == s.id.0 {
                in_channel | READ_MESSAGES
            } else {
                in_channel
            };
            if p1 & SEND_MESSAGES != SEND_MESSAGES {
                let p2 = p1 & !SEND_DEPENDENT_BITS;
                lemma_clear_bits(p1, SEND_DEPENDENT_BITS);
                lemma_and_keeps_clear(p2, NO_READ_RETAINED_BITS, SEND_DEPENDENT_BITS);
            } else {
                lemma_mask_clears(p1, NO_READ_RETAINED_BITS, SEND_DEPENDENT_BITS);
            }
        }
    }
}

/// Law: when the resolved set of the owner or of a member lacks
/// read-messages, its remaining bits are a subset of the guild-administrative
/// allowlist: kick-members, ban-members, administrator, manage-guild,
/// change-nickname, manage-nicknames.
pub proof fn lemma_no_read_collapses(s: GuildSnapshot, channel_id: ChannelId, user_id: UserId)
    requires
        user_id.0 == s.owner_id.0 || s.members@.contains_key(user_id.0),
    ensures
        spec_resolve(s, channel_id, user_id) & READ_MESSAGES != READ_MESSAGES ==> spec_resolve(
            s,
            channel_id,
            user_id,
        ) & !NO_READ_RETAINED_BITS == 0,
{
    mask_facts();
    if user_id.0 != s.owner_id.0 && s.roles@.contains_key(s.id.0) {
        let member = s.members@[user_id.0];
        let unioned = union_of_roles(s.roles@, member.roles@, s.roles@[s.id.0].permissions.bits);
        if unioned & ADMINISTRATOR != ADMINISTRATOR {
            let in_channel = if s.channels@.contains_key(channel_id.0) {
                channel_step(unioned, s.channels@[channel_id.0], member.roles@, s.id, user_id)
            } else {
                unioned
            };
            let p1 = if channel_id.0 == s.id.0 {
                in_channel | READ_MESSAGES
            } else {
                in_channel
            };
            let p2 = if p1 & SEND_MESSAGES != SEND_MESSAGES {
                p1 & !SEND_DEPENDENT_BITS
            } else {
                p1
            };
            if p2 & READ_MESSAGES != READ_MESSAGES {
                lemma_and_subset(p2, NO_READ_RETAINED_BITS);
            }
        }
    }
}

/// Law: a record that both allows and denies a bit resolves in favour of
/// allow, because denied bits are cleared before allowed bits are set.
pub proof fn lemma_allow_wins_on_conflict(p: u64, ow: Overwrite)
    ensures
        crate::resolver::apply_overwrite(p, ow) & ow.allow.bits == ow.allow.bits,
{
    lemma_or_sets(p & !ow.deny.bits, ow.allow.bits);
}

proof fn lemma_apply_deny_residue(p: u64, d: u64, a: u64)
    by (bit_vector)
    ensures
        ((p & !d) | a) & d == a & d,
{
}

/// Law: a well-formed overwrite — one that does not both allow and deny the
/// same bit — leaves none of its denied bits in the result.
pub proof fn lemma_wf_overwrite_clears_denied(p: u64, ow: Overwrite)
    requires
        ow.wf(),
    ensures
        crate::resolver::apply_overwrite(p, ow) & ow.deny.bits == 0,
{
    lemma_apply_deny_residue(p, ow.deny.bits, ow.allow.bits);
}

/// Law of overwrite precedence: whatever the running value — in particular
/// the output of the role pass, with any role overwrite's denies applied —
/// the member pass leaves every bit allowed by the last overwrite that
/// targets the user. A member overwrite allowing a bit therefore wins over a
/// role overwrite denying it.
pub proof fn lemma_member_overwrite_wins(base: u64, ows: Seq<Overwrite>, user_id: UserId, i: int)
    requires
        0 <= i < ows.len(),
        member_overwrite_applies(ows[i], user_id),
        forall|j: int| i < j < ows.len() ==> !member_overwrite_applies(ows[j], user_id),
    ensures
        apply_member_overwrites(base, ows, user_id) & ows[i].allow.bits == ows[i].allow.bits,
    decreases ows.len(),
{
    let q = apply_member_overwrites(base, ows.drop_last(), user_id);
    if i == ows.len() - 1 {
        lemma_or_sets(q & !ows[i].deny.bits, ows[i].allow.bits);
    } else {
        assert(!member_overwrite_applies(ows.last(), user_id));
        lemma_member_overwrite_wins(base, ows.drop_last(), user_id, i);
    }
}

/// Law of overwrite precedence within one channel: after resource-kind
/// masking, the role pass, and the member pass, the result holds every bit
/// allowed by the last overwrite targeting the user — whatever any role
/// overwrite denied. The closing dependent-bit passes are separate steps and
/// may still clear such a bit.
pub proof fn lemma_member_overwrite_wins_in_channel(
    p: u64,
    channel: Channel,
    member_roles: Seq<RoleId>,
    guild_id: GuildId,
    user_id: UserId,
    i: int,
)
    requires
        0 <= i < channel.overwrites@.len(),
        member_overwrite_applies(channel.overwrites@[i], user_id),
        forall|j: int|
            i < j < channel.overwrites@.len() ==> !member_overwrite_applies(
                channel.overwrites@[j],
                user_id,
            ),
    ensures
        channel_step(p, channel, member_roles, guild_id, user_id)
            & channel.overwrites@[i].allow.bits == channel.overwrites@[i].allow.bits,
{
    let masked = if channel.kind is Text {
        p & !VOICE_BITS
    } else {
        p
    };
    lemma_member_overwrite_wins(
        apply_role_overwrites(masked, channel.overwrites@, member_roles, guild_id),
        channel.overwrites@,
        user_id,
        i,
    );
}

} // verus!
