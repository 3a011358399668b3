//! Categories of guild channels.

use vstd::prelude::*;

use crate::channel::ChannelType;
use crate::channel::PermissionOverwrite;
use crate::id::ChannelId;

verus! {

/// A category that groups channels of a guild.
#[derive(Clone, Debug)]
pub struct ChannelCategory {
    /// The unique identifier of the category.
    pub id: ChannelId,
    /// The category that this one lies in, if any.
    pub category_id: Option<ChannelId>,
    /// The position of the category in the guild's list.
    pub position: i64,
    /// The kind of the channel, which is always `ChannelType::Category`.
    pub kind: ChannelType,
    /// The name of the category.
    pub name: String,
    /// Whether the category is marked as not safe for work.
    pub nsfw: bool,
    /// The overwrites for members and roles.
    pub permission_overwrites: Vec<PermissionOverwrite>,
}

} // verus!
