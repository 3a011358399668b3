//! Invites to a guild's channel.

use vstd::prelude::*;

use crate::channel::ChannelType;
use crate::id::ChannelId;
use crate::id::GuildId;
use crate::timestamp::Timestamp;
use crate::user::User;

verus! {

/// What anyone can learn of an invite from its code.
#[derive(Clone, Debug)]
pub struct Invite {
    /// About how many members the guild has.
    pub approximate_member_count: Option<u64>,
    /// About how many members of the guild are connected.
    pub approximate_presence_count: Option<u64>,
    /// The unique code of the invite.
    pub code: String,
    /// The channel that the invite leads to.
    pub channel: InviteChannel,
    /// The guild that the invite leads to.
    pub guild: InviteGuild,
}

/// What an invite tells of its channel.
#[derive(Clone, Debug)]
pub struct InviteChannel {
    pub id: ChannelId,
    pub name: String,
    pub kind: ChannelType,
}

/// What an invite tells of its guild.
#[derive(Clone, Debug)]
pub struct InviteGuild {
    pub id: GuildId,
    pub icon: Option<String>,
    pub name: String,
    pub splash_hash: Option<String>,
    pub text_channel_count: Option<u64>,
    pub voice_channel_count: Option<u64>,
}

/// What those who manage a guild can learn of an invite.
#[derive(Clone, Debug)]
pub struct RichInvite {
    /// The channel that the invite leads to.
    pub channel: InviteChannel,
    /// The unique code of the invite.
    pub code: String,
    /// When the invite was made.
    pub created_at: Timestamp,
    /// The guild that the invite leads to.
    pub guild: InviteGuild,
    /// The user that made the invite.
    pub inviter: User,
    /// The seconds after which the invite expires, counted from when it
    /// was made.
    pub max_age: u64,
    /// How often the invite can be used before it expires; 0 stands for
    /// any number of times.
    pub max_uses: u64,
    /// Whether the invite expires by itself.
    pub temporary: bool,
    /// How often the invite has been used.
    pub uses: u64,
}

} // verus!
