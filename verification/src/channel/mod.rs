//! Channels and the permission overwrites attached to them.

pub mod attachment;
pub mod channel_category;
pub mod channel_id;
pub mod embed;
pub mod group;
pub mod guild_channel;
pub mod message;
pub mod private_channel;
pub mod reaction;

pub use self::attachment::Attachment;
pub use self::channel_category::ChannelCategory;
pub use self::embed::Embed;
pub use self::embed::EmbedAuthor;
pub use self::embed::EmbedField;
pub use self::embed::EmbedFooter;
pub use self::embed::EmbedImage;
pub use self::embed::EmbedProvider;
pub use self::embed::EmbedThumbnail;
pub use self::embed::EmbedVideo;
pub use self::group::Group;
pub use self::guild_channel::GuildChannel;
pub use self::message::Message;
pub use self::message::MessageReaction;
pub use self::message::MessageType;
pub use self::private_channel::PrivateChannel;
pub use self::reaction::Reaction;
pub use self::reaction::ReactionRemoval;
pub use self::reaction::ReactionType;

use vstd::prelude::*;

use crate::id::ChannelId;
use crate::id::RoleId;
use crate::id::UserId;
use crate::permissions::Permissions;
use crate::resolver::OverwriteView;
use crate::resolver::apply_overwrite;
use crate::text::decimal;
use crate::text::same_text;

verus! {

/// The kind of a channel.
#[derive(Clone, Copy, Debug, PartialEq, Eq, Hash, PartialOrd, Ord, Structural)]
pub enum ChannelType {
    /// A text channel of a guild.
    Text,
    /// A private channel between two users.
    Private,
    /// A voice channel of a guild.
    Voice,
    /// The channel of a group.
    Group,
    /// A category of guild channels.
    Category,
}

impl ChannelType {
    /// The name of the kind, as the platform writes it.
    pub open spec fn spec_name(self) -> Seq<char> {
        match self {
            ChannelType::Group => "group"@,
            ChannelType::Private => "private"@,
            ChannelType::Text => "text"@,
            ChannelType::Voice => "voice"@,
            ChannelType::Category => "category"@,
        }
    }

    /// The name of the kind, as the platform writes it.
    pub fn name(&self) -> (r: &str)
        ensures
            r@ == self.spec_name(),
    {
        match *self {
            ChannelType::Group => "group",
            ChannelType::Private => "private",
            ChannelType::Text => "text",
            ChannelType::Voice => "voice",
            ChannelType::Category => "category",
        }
    }

    /// The number that stands for the kind on the wire.
    pub open spec fn spec_num(self) -> u64 {
        match self {
            ChannelType::Text => 0,
            ChannelType::Private => 1,
            ChannelType::Voice => 2,
            ChannelType::Group => 3,
            ChannelType::Category => 4,
        }
    }

    /// The number that stands for the kind on the wire.
    pub fn num(&self) -> (r: u64)
        ensures
            r == self.spec_num(),
    {
        match *self {
            ChannelType::Text => 0,
            ChannelType::Private => 1,
            ChannelType::Voice => 2,
            ChannelType::Group => 3,
            ChannelType::Category => 4,
        }
    }

    /// The kind that a number stands for, if it stands for one.
    pub fn from_num(value: u64) -> (r: Option<ChannelType>)
        ensures
            match r {
                Some(kind) => kind.spec_num() == value,
                None => forall|kind: ChannelType| kind.spec_num() != value,
            },
    {
        match value {
            0 => Some(ChannelType::Text),
            1 => Some(ChannelType::Private),
            2 => Some(ChannelType::Voice),
            3 => Some(ChannelType::Group),
            4 => Some(ChannelType::Category),
            _ => None,
        }
    }
}

/// A channel of any kind.
#[derive(Clone, Debug)]
pub enum Channel {
    /// A group, which has one channel.
    Group(Group),
    /// A text or voice channel of a guild.
    Guild(GuildChannel),
    /// A private channel to one other user.
    Private(PrivateChannel),
    /// A category of guild channels.
    Category(ChannelCategory),
}

/// The variant of `Channel` that a channel of a given kind is held in.
#[derive(Clone, Copy, Debug, PartialEq, Eq, Structural)]
pub enum ChannelVariant {
    Group,
    Guild,
    Private,
    Category,
}

impl Channel {
    /// The identifier of the channel, whatever its kind.
    pub open spec fn spec_id(self) -> ChannelId {
        match self {
            Channel::Group(group) => group.channel_id,
            Channel::Guild(channel) => channel.id,
            Channel::Private(channel) => channel.id,
            Channel::Category(channel) => channel.id,
        }
    }

    /// The identifier of the channel, whatever its kind.
    pub fn id(&self) -> (r: ChannelId)
        ensures
            r == self.spec_id(),
    {
        match self {
            Channel::Group(group) => group.channel_id,
            Channel::Guild(channel) => channel.id,
            Channel::Private(channel) => channel.id,
            Channel::Category(channel) => channel.id,
        }
    }

    /// What the channel is shown as: a group by its name, a guild channel by
    /// the mention that links to it, a private channel by the name of the
    /// user at the other end, and a category by its name.
    pub fn to_string(&self) -> (r: String)
        ensures
            match *self {
                Channel::Group(group) => group.is_name(r@),
                Channel::Guild(channel) => r@ == "<#"@ + decimal(channel.id.0 as nat) + ">"@,
                Channel::Private(channel) => r@ == channel.recipient.name@,
                Channel::Category(category) => r@ == category.name@,
            },
    {
        match self {
            Channel::Group(group) => group.name(),
            Channel::Guild(channel) => channel.to_string(),
            Channel::Private(channel) => channel.to_string(),
            Channel::Category(category) => category.name.clone(),
        }
    }

    /// The variant that the number of a channel's kind selects: text and
    /// voice channels are guild channels, and a number that stands for no
    /// kind selects nothing.
    pub fn variant_of(kind: u64) -> (r: Option<ChannelVariant>)
        ensures
            r == match kind {
                0 | 2 => Some(ChannelVariant::Guild),
                1 => Some(ChannelVariant::Private),
                3 => Some(ChannelVariant::Group),
                4 => Some(ChannelVariant::Category),
                _ => None,
            },
    {
        match kind {
            0 | 2 => Some(ChannelVariant::Guild),
            1 => Some(ChannelVariant::Private),
            3 => Some(ChannelVariant::Group),
            4 => Some(ChannelVariant::Category),
            _ => None,
        }
    }
}

/// Whom a permission overwrite is for.
#[derive(Clone, Copy, Debug, PartialEq, Eq, Structural)]
pub enum PermissionOverwriteType {
    /// A single member of the guild.
    Member(UserId),
    /// Every member that holds a role.
    Role(RoleId),
}

/// A channel's exception to the permissions that roles grant: flags that it
/// allows and flags that it denies, for one role or one member.
#[derive(Clone, Debug)]
pub struct PermissionOverwrite {
    pub allow: Permissions,
    pub deny: Permissions,
    pub kind: PermissionOverwriteType,
}

impl View for PermissionOverwrite {
    type V = OverwriteView;

    open spec fn view(&self) -> OverwriteView {
        OverwriteView { kind: self.kind, allow: self.allow@, deny: self.deny@ }
    }
}

impl PermissionOverwriteType {
    /// Whom an overwrite is for, from the way the platform writes it: the
    /// word `member` or `role`, and an identifier. Any other word stands for
    /// nothing.
    pub fn from_kind(kind: &str, id: u64) -> (r: Option<PermissionOverwriteType>)
        ensures
            r == if kind@ == "member"@ {
                Some(PermissionOverwriteType::Member(UserId(id)))
            } else if kind@ == "role"@ {
                Some(PermissionOverwriteType::Role(RoleId(id)))
            } else {
                None
            },
    {
        if same_text(kind, "member") {
            Some(PermissionOverwriteType::Member(UserId(id)))
        } else if same_text(kind, "role") {
            Some(PermissionOverwriteType::Role(RoleId(id)))
        } else {
            None
        }
    }
}

impl PermissionOverwrite {
    /// An overwrite from the way the platform writes it: what it allows and
    /// denies, an identifier, and the word `member` or `role`. Any other
    /// word is rejected.
    pub fn from_data(allow: Permissions, deny: Permissions, id: u64, kind: &str) -> (r: Option<
        PermissionOverwrite,
    >)
        ensures
            r.is_some() == (kind@ == "member"@ || kind@ == "role"@),
            r.is_some() ==> r.unwrap().allow == allow && r.unwrap().deny == deny && Some(
                r.unwrap().kind,
            ) == (if kind@ == "member"@ {
                Some(PermissionOverwriteType::Member(UserId(id)))
            } else {
                Some(PermissionOverwriteType::Role(RoleId(id)))
            }),
    {
        match PermissionOverwriteType::from_kind(kind, id) {
            Some(kind) => Some(PermissionOverwrite { allow, deny, kind }),
            None => None,
        }
    }

    /// The mask after this overwrite: what it denies is cleared, then what it
    /// allows is set.
    pub fn apply_to(&self, mask: Permissions) -> (r: Permissions)
        ensures
            r@ == apply_overwrite(mask@, self@),
    {
        mask.subtract(self.deny).union(self.allow)
    }
}

} // verus!
