//! The fixed-width permission bit flags and the `PermissionSet` value type.
//!
//! Each named constant is a distinct single bit; the numeric values cross a
//! wire boundary to the collaborating REST and event layers, so they must be
//! preserved exactly.

use vstd::prelude::*;

verus! {

/// Allows creating invites to the guild.
pub const CREATE_INVITE: u64 = 0x1;
/// Allows kicking members from the guild.
pub const KICK_MEMBERS: u64 = 0x2;
/// Allows banning members from the guild.
pub const BAN_MEMBERS: u64 = 0x4;
/// Grants every permission unconditionally within the guild.
pub const ADMINISTRATOR: u64 = 0x8;
/// Allows managing the guild's channels.
pub const MANAGE_CHANNELS: u64 = 0x10;
/// Allows managing the guild itself.
pub const MANAGE_GUILD: u64 = 0x20;
/// Allows adding reactions to messages.
pub const ADD_REACTIONS: u64 = 0x40;
/// Allows reading messages in a channel (viewing the channel).
pub const READ_MESSAGES: u64 = 0x400;
/// Allows sending messages in a channel.
pub const SEND_MESSAGES: u64 = 0x800;
/// Allows sending text-to-speech messages.
pub const SEND_TTS_MESSAGES: u64 = 0x1000;
/// Allows managing (deleting, pinning) messages.
pub const MANAGE_MESSAGES: u64 = 0x2000;
/// Allows embedded content in sent links.
pub const EMBED_LINKS: u64 = 0x4000;
/// Allows attaching files to messages.
pub const ATTACH_FILES: u64 = 0x8000;
/// Allows reading a channel's message history.
pub const READ_MESSAGE_HISTORY: u64 = 0x10000;
/// Allows mentioning everyone in a channel.
pub const MENTION_EVERYONE: u64 = 0x20000;
/// Allows using emojis from other guilds.
pub const USE_EXTERNAL_EMOJIS: u64 = 0x40000;
/// Allows connecting to a voice channel.
pub const CONNECT: u64 = 0x100000;
/// Allows speaking in a voice channel.
pub const SPEAK: u64 = 0x200000;
/// Allows muting members in a voice channel.
pub const MUTE_MEMBERS: u64 = 0x400000;
/// Allows deafening members in a voice channel.
pub const DEAFEN_MEMBERS: u64 = 0x800000;
/// Allows moving members between voice channels.
pub const MOVE_MEMBERS: u64 = 0x1000000;
/// Allows using voice-activity detection in a voice channel.
pub const USE_VAD: u64 = 0x2000000;
/// Allows changing one's own nickname.
pub const CHANGE_NICKNAME: u64 = 0x4000000;
/// Allows managing other members' nicknames.
pub const MANAGE_NICKNAMES: u64 = 0x8000000;
/// Allows managing the guild's roles.
pub const MANAGE_ROLES: u64 = 0x10000000;
/// Allows managing the guild's webhooks.
pub const MANAGE_WEBHOOKS: u64 = 0x20000000;
/// Allows managing the guild's emojis.
pub const MANAGE_EMOJIS: u64 = 0x40000000;

/// The union of every named permission bit: bits 0 through 6, 10 through 18,
/// and 20 through 30. A test checks that this equals the bitwise-or of the
/// named constants.
pub const ALL_BITS: u64 = 0x7FF7FC7F;

/// The voice-only bits, cleared for text channels before overwrites apply:
/// connect, speak, mute-members, deafen-members, move-members, and
/// use-voice-activity (bits 20 through 25).
pub const VOICE_BITS: u64 = 0x3F00000;

/// The bits that are meaningless without send-messages and are cleared when it
/// is absent: send-tts-messages, embed-links, attach-files, mention-everyone.
pub const SEND_DEPENDENT_BITS: u64 = 0x2D000;

/// The guild-administrative bits a principal retains when it cannot read the
/// resource: kick-members, ban-members, administrator, manage-guild,
/// change-nickname, manage-nicknames.
pub const NO_READ_RETAINED_BITS: u64 = 0xC00002E;

/// A fixed-width set of permission bits. Operations are pure bitwise algebra;
/// equality and containment are structural.
#[derive(Clone, Copy, PartialEq, Eq, Structural, Debug)]
pub struct PermissionSet {
    pub bits: u64,
}

impl View for PermissionSet {
    type V = u64;

    open spec fn view(&self) -> u64 {
        self.bits
    }
}

impl PermissionSet {
    /// The set with no bits.
    pub fn empty() -> (r: PermissionSet)
        ensures
            r.bits == 0,
    {
        PermissionSet { bits: 0 }
    }

    /// The full set: every named permission bit.
    pub fn all() -> (r: PermissionSet)
        ensures
            r.bits == ALL_BITS,
    {
        PermissionSet { bits: ALL_BITS }
    }

    /// The set holding exactly the given bits.
    pub fn from_bits(bits: u64) -> (r: PermissionSet)
        ensures
            r.bits == bits,
    {
        PermissionSet { bits }
    }

    /// The union of the two sets.
    pub fn union(self, other: PermissionSet) -> (r: PermissionSet)
        ensures
            r.bits == self.bits | other.bits,
    {
        PermissionSet { bits: self.bits | other.bits }
    }

    /// The intersection of the two sets.
    pub fn intersect(self, other: PermissionSet) -> (r: PermissionSet)
        ensures
            r.bits == self.bits & other.bits,
    {
        PermissionSet { bits: self.bits & other.bits }
    }

    /// The bits of `mask` that are not in `self`.
    pub fn complement_within(self, mask: PermissionSet) -> (r: PermissionSet)
        ensures
            r.bits == mask.bits & !self.bits,
    {
        PermissionSet { bits: mask.bits & !self.bits }
    }

    /// The bits of `self` that are not in `other`.
    pub fn difference(self, other: PermissionSet) -> (r: PermissionSet)
        ensures
            r.bits == self.bits & !other.bits,
    {
        PermissionSet { bits: self.bits & !other.bits }
    }

    /// Whether `self` holds every bit of `other`.
    pub fn contains(self, other: PermissionSet) -> (r: bool)
        ensures
            r == (self.bits & other.bits == other.bits),
    {
        self.bits & other.bits == other.bits
    }

    /// Whether the set holds no bits.
    pub fn is_empty(self) -> (r: bool)
        ensures
            r == (self.bits == 0),
    {
        self.bits == 0
    }
}

} // verus!
