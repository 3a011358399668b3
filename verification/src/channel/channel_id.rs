//! The identifier of a channel, from the channel.

use vstd::prelude::*;
use vstd::std_specs::convert::FromSpecImpl;

use crate::channel::Channel;
use crate::channel::GuildChannel;
use crate::channel::PrivateChannel;
use crate::id::ChannelId;

verus! {

impl From<Channel> for ChannelId {
    /// The identifier of the channel, whatever its kind.
    fn from(channel: Channel) -> (r: ChannelId) {
        channel.id()
    }
}

impl FromSpecImpl<Channel> for ChannelId {
    open spec fn obeys_from_spec() -> bool {
        true
    }

    open spec fn from_spec(channel: Channel) -> ChannelId {
        channel.spec_id()
    }
}

impl<'a> From<&'a Channel> for ChannelId {
    /// The identifier of the channel, whatever its kind.
    fn from(channel: &'a Channel) -> (r: ChannelId) {
        channel.id()
    }
}

impl<'a> FromSpecImpl<&'a Channel> for ChannelId {
    open spec fn obeys_from_spec() -> bool {
        true
    }

    open spec fn from_spec(channel: &'a Channel) -> ChannelId {
        channel.spec_id()
    }
}

impl From<PrivateChannel> for ChannelId {
    /// The identifier of the private channel.
    fn from(channel: PrivateChannel) -> (r: ChannelId) {
        channel.id
    }
}

impl FromSpecImpl<PrivateChannel> for ChannelId {
    open spec fn obeys_from_spec() -> bool {
        true
    }

    open spec fn from_spec(channel: PrivateChannel) -> ChannelId {
        channel.id
    }
}

impl<'a> From<&'a PrivateChannel> for ChannelId {
    /// The identifier of the private channel.
    fn from(channel: &'a PrivateChannel) -> (r: ChannelId) {
        channel.id
    }
}

impl<'a> FromSpecImpl<&'a PrivateChannel> for ChannelId {
    open spec fn obeys_from_spec() -> bool {
        true
    }

    open spec fn from_spec(channel: &'a PrivateChannel) -> ChannelId {
        channel.id
    }
}

impl From<GuildChannel> for ChannelId {
    /// The identifier of the guild channel.
    fn from(channel: GuildChannel) -> (r: ChannelId) {
        channel.id
    }
}

impl FromSpecImpl<GuildChannel> for ChannelId {
    open spec fn obeys_from_spec() -> bool {
        true
    }

    open spec fn from_spec(channel: GuildChannel) -> ChannelId {
        channel.id
    }
}

impl<'a> From<&'a GuildChannel> for ChannelId {
    /// The identifier of the guild channel.
    fn from(channel: &'a GuildChannel) -> (r: ChannelId) {
        channel.id
    }
}

impl<'a> FromSpecImpl<&'a GuildChannel> for ChannelId {
    open spec fn obeys_from_spec() -> bool {
        true
    }

    open spec fn from_spec(channel: &'a GuildChannel) -> ChannelId {
        channel.id
    }
}

} // verus!
