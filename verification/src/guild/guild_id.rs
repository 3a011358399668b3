//! The identifier of a guild, from the guild.

use vstd::prelude::*;
use vstd::std_specs::convert::FromSpecImpl;

use crate::guild::Guild;
use crate::guild::GuildInfo;
use crate::guild::PartialGuild;
use crate::id::GuildId;
use crate::invite::InviteGuild;

verus! {

impl From<PartialGuild> for GuildId {
    /// The identifier of the guild.
    fn from(guild: PartialGuild) -> (r: GuildId) {
        guild.id
    }
}

impl FromSpecImpl<PartialGuild> for GuildId {
    open spec fn obeys_from_spec() -> bool {
        true
    }

    open spec fn from_spec(guild: PartialGuild) -> GuildId {
        guild.id
    }
}

impl<'a> From<&'a PartialGuild> for GuildId {
    /// The identifier of the guild.
    fn from(guild: &'a PartialGuild) -> (r: GuildId) {
        guild.id
    }
}

impl<'a> FromSpecImpl<&'a PartialGuild> for GuildId {
    open spec fn obeys_from_spec() -> bool {
        true
    }

    open spec fn from_spec(guild: &'a PartialGuild) -> GuildId {
        guild.id
    }
}

impl From<GuildInfo> for GuildId {
    /// The identifier of the guild.
    fn from(guild_info: GuildInfo) -> (r: GuildId) {
        guild_info.id
    }
}

impl FromSpecImpl<GuildInfo> for GuildId {
    open spec fn obeys_from_spec() -> bool {
        true
    }

    open spec fn from_spec(guild_info: GuildInfo) -> GuildId {
        guild_info.id
    }
}

impl<'a> From<&'a GuildInfo> for GuildId {
    /// The identifier of the guild.
    fn from(guild_info: &'a GuildInfo) -> (r: GuildId) {
        guild_info.id
    }
}

impl<'a> FromSpecImpl<&'a GuildInfo> for GuildId {
    open spec fn obeys_from_spec() -> bool {
        true
    }

    open spec fn from_spec(guild_info: &'a GuildInfo) -> GuildId {
        guild_info.id
    }
}

impl From<InviteGuild> for GuildId {
    /// The identifier of the guild.
    fn from(invite_guild: InviteGuild) -> (r: GuildId) {
        invite_guild.id
    }
}

impl FromSpecImpl<InviteGuild> for GuildId {
    open spec fn obeys_from_spec() -> bool {
        true
    }

    open spec fn from_spec(invite_guild: InviteGuild) -> GuildId {
        invite_guild.id
    }
}

impl<'a> From<&'a InviteGuild> for GuildId {
    /// The identifier of the guild.
    fn from(invite_guild: &'a InviteGuild) -> (r: GuildId) {
        invite_guild.id
    }
}

impl<'a> FromSpecImpl<&'a InviteGuild> for GuildId {
    open spec fn obeys_from_spec() -> bool {
        true
    }

    open spec fn from_spec(invite_guild: &'a InviteGuild) -> GuildId {
        invite_guild.id
    }
}

impl From<Guild> for GuildId {
    /// The identifier of the guild.
    fn from(guild: Guild) -> (r: GuildId) {
        guild.id
    }
}

impl FromSpecImpl<Guild> for GuildId {
    open spec fn obeys_from_spec() -> bool {
        true
    }

    open spec fn from_spec(guild: Guild) -> GuildId {
        guild.id
    }
}

impl<'a> From<&'a Guild> for GuildId {
    /// The identifier of the guild.
    fn from(guild: &'a Guild) -> (r: GuildId) {
        guild.id
    }
}

impl<'a> FromSpecImpl<&'a Guild> for GuildId {
    open spec fn obeys_from_spec() -> bool {
        true
    }

    open spec fn from_spec(guild: &'a Guild) -> GuildId {
        guild.id
    }
}

} // verus!
