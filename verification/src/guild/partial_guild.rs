//! Guilds as the platform describes them where it leaves out the members.

use std::collections::HashMap;
use vstd::prelude::*;

use crate::guild::Emoji;
use crate::guild::Role;
use crate::guild::VerificationLevel;
use crate::id::ChannelId;
use crate::id::GuildId;
use crate::id::UserId;

verus! {

/// A guild without its channels, members and presences.
#[derive(Clone, Debug)]
pub struct PartialGuild {
    pub id: GuildId,
    pub afk_channel_id: Option<ChannelId>,
    pub afk_timeout: u64,
    pub default_message_notifications: u64,
    pub embed_channel_id: Option<ChannelId>,
    pub embed_enabled: bool,
    /// The guild's custom emojis, by the emoji's identifier.
    pub emojis: HashMap<u64, Emoji>,
    /// The features that are switched on for the guild.
    pub features: Vec<String>,
    pub icon: Option<String>,
    pub mfa_level: u64,
    pub name: String,
    pub owner_id: UserId,
    pub region: String,
    /// The guild's roles, by the role's identifier.
    pub roles: HashMap<u64, Role>,
    pub splash: Option<String>,
    pub verification_level: VerificationLevel,
}

} // verus!
