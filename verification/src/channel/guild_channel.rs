//! Text and voice channels of a guild.

use vstd::prelude::*;

use crate::channel::ChannelType;
use crate::channel::PermissionOverwrite;
use crate::id::ChannelId;
use crate::id::GuildId;
use crate::id::MessageId;
use crate::resolver::ChannelView;
use crate::text::decimal;

verus! {

/// A text or voice channel of a guild.
#[derive(Clone, Debug)]
pub struct GuildChannel {
    /// The unique identifier of the channel. The default channel has the
    /// identifier of its guild.
    pub id: ChannelId,
    /// The bitrate of a voice channel.
    pub bitrate: Option<u64>,
    /// The guild that the channel belongs to.
    pub guild_id: GuildId,
    /// The kind of the channel.
    pub kind: ChannelType,
    /// The last message sent in a text channel.
    pub last_message_id: Option<MessageId>,
    /// When a message was last pinned in a text channel.
    pub last_pin_timestamp: Option<String>,
    /// The name of the channel.
    pub name: String,
    /// The overwrites for members and roles, in the order in which they apply.
    pub permission_overwrites: Vec<PermissionOverwrite>,
    /// The position of the channel in the guild's list.
    pub position: i64,
    /// The topic of a text channel.
    pub topic: Option<String>,
    /// The greatest number of members that a voice channel takes.
    pub user_limit: Option<u64>,
}

impl View for GuildChannel {
    type V = ChannelView;

    open spec fn view(&self) -> ChannelView {
        ChannelView {
            kind: self.kind,
            overwrites: self.permission_overwrites@.map_values(|o: PermissionOverwrite| o@),
        }
    }
}

impl GuildChannel {
    /// What the channel is shown as: the mention that links to it.
    pub fn to_string(&self) -> (r: String)
        ensures
            r@ == "<#"@ + decimal(self.id.0 as nat) + ">"@,
    {
        self.id.mention().to_string()
    }
}

} // verus!
