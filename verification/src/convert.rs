//! Identifiers, from what they identify.

use vstd::prelude::*;
use vstd::std_specs::convert::FromSpecImpl;

use crate::channel::Message;
use crate::guild::Emoji;
use crate::guild::GuildContainer;
use crate::guild::Member;
use crate::guild::PartialGuild;
use crate::guild::Role;
use crate::id::EmojiId;
use crate::id::GuildId;
use crate::id::MessageId;
use crate::id::RoleId;
use crate::id::UserId;
use crate::user::CurrentUser;
use crate::user::User;

verus! {

impl From<Emoji> for EmojiId {
    /// The identifier of the emoji.
    fn from(emoji: Emoji) -> (r: EmojiId) {
        emoji.id
    }
}

impl FromSpecImpl<Emoji> for EmojiId {
    open spec fn obeys_from_spec() -> bool {
        true
    }

    open spec fn from_spec(emoji: Emoji) -> EmojiId {
        emoji.id
    }
}

impl<'a> From<&'a Emoji> for EmojiId {
    /// The identifier of the emoji.
    fn from(emoji: &'a Emoji) -> (r: EmojiId) {
        emoji.id
    }
}

impl<'a> FromSpecImpl<&'a Emoji> for EmojiId {
    open spec fn obeys_from_spec() -> bool {
        true
    }

    open spec fn from_spec(emoji: &'a Emoji) -> EmojiId {
        emoji.id
    }
}

impl From<Message> for MessageId {
    /// The identifier of the message.
    fn from(message: Message) -> (r: MessageId) {
        message.id
    }
}

impl FromSpecImpl<Message> for MessageId {
    open spec fn obeys_from_spec() -> bool {
        true
    }

    open spec fn from_spec(message: Message) -> MessageId {
        message.id
    }
}

impl<'a> From<&'a Message> for MessageId {
    /// The identifier of the message.
    fn from(message: &'a Message) -> (r: MessageId) {
        message.id
    }
}

impl<'a> FromSpecImpl<&'a Message> for MessageId {
    open spec fn obeys_from_spec() -> bool {
        true
    }

    open spec fn from_spec(message: &'a Message) -> MessageId {
        message.id
    }
}

impl From<Role> for RoleId {
    /// The identifier of the role.
    fn from(role: Role) -> (r: RoleId) {
        role.id
    }
}

impl FromSpecImpl<Role> for RoleId {
    open spec fn obeys_from_spec() -> bool {
        true
    }

    open spec fn from_spec(role: Role) -> RoleId {
        role.id
    }
}

impl<'a> From<&'a Role> for RoleId {
    /// The identifier of the role.
    fn from(role: &'a Role) -> (r: RoleId) {
        role.id
    }
}

impl<'a> FromSpecImpl<&'a Role> for RoleId {
    open spec fn obeys_from_spec() -> bool {
        true
    }

    open spec fn from_spec(role: &'a Role) -> RoleId {
        role.id
    }
}

impl From<CurrentUser> for UserId {
    /// The identifier of the current user.
    fn from(current_user: CurrentUser) -> (r: UserId) {
        current_user.id
    }
}

impl FromSpecImpl<CurrentUser> for UserId {
    open spec fn obeys_from_spec() -> bool {
        true
    }

    open spec fn from_spec(current_user: CurrentUser) -> UserId {
        current_user.id
    }
}

impl<'a> From<&'a CurrentUser> for UserId {
    /// The identifier of the current user.
    fn from(current_user: &'a CurrentUser) -> (r: UserId) {
        current_user.id
    }
}

impl<'a> FromSpecImpl<&'a CurrentUser> for UserId {
    open spec fn obeys_from_spec() -> bool {
        true
    }

    open spec fn from_spec(current_user: &'a CurrentUser) -> UserId {
        current_user.id
    }
}

impl From<Member> for UserId {
    /// The identifier of the user behind the member.
    fn from(member: Member) -> (r: UserId) {
        member.user.id
    }
}

impl FromSpecImpl<Member> for UserId {
    open spec fn obeys_from_spec() -> bool {
        true
    }

    open spec fn from_spec(member: Member) -> UserId {
        member.user.id
    }
}

impl<'a> From<&'a Member> for UserId {
    /// The identifier of the user behind the member.
    fn from(member: &'a Member) -> (r: UserId) {
        member.user.id
    }
}

impl<'a> FromSpecImpl<&'a Member> for UserId {
    open spec fn obeys_from_spec() -> bool {
        true
    }

    open spec fn from_spec(member: &'a Member) -> UserId {
        member.user.id
    }
}

impl From<User> for UserId {
    /// The identifier of the user.
    fn from(user: User) -> (r: UserId) {
        user.id
    }
}

impl FromSpecImpl<User> for UserId {
    open spec fn obeys_from_spec() -> bool {
        true
    }

    open spec fn from_spec(user: User) -> UserId {
        user.id
    }
}

impl<'a> From<&'a User> for UserId {
    /// The identifier of the user.
    fn from(user: &'a User) -> (r: UserId) {
        user.id
    }
}

impl<'a> FromSpecImpl<&'a User> for UserId {
    open spec fn obeys_from_spec() -> bool {
        true
    }

    open spec fn from_spec(user: &'a User) -> UserId {
        user.id
    }
}

impl From<PartialGuild> for GuildContainer {
    /// The guild itself.
    fn from(guild: PartialGuild) -> (r: GuildContainer) {
        GuildContainer::Guild(guild)
    }
}

impl FromSpecImpl<PartialGuild> for GuildContainer {
    open spec fn obeys_from_spec() -> bool {
        true
    }

    open spec fn from_spec(guild: PartialGuild) -> GuildContainer {
        GuildContainer::Guild(guild)
    }
}

impl From<GuildId> for GuildContainer {
    /// The identifier of a guild.
    fn from(guild_id: GuildId) -> (r: GuildContainer) {
        GuildContainer::Id(guild_id)
    }
}

impl FromSpecImpl<GuildId> for GuildContainer {
    open spec fn obeys_from_spec() -> bool {
        true
    }

    open spec fn from_spec(guild_id: GuildId) -> GuildContainer {
        GuildContainer::Id(guild_id)
    }
}

impl From<u64> for GuildContainer {
    /// The identifier of a guild, as a number.
    fn from(id: u64) -> (r: GuildContainer) {
        GuildContainer::Id(GuildId(id))
    }
}

impl FromSpecImpl<u64> for GuildContainer {
    open spec fn obeys_from_spec() -> bool {
        true
    }

    open spec fn from_spec(id: u64) -> GuildContainer {
        GuildContainer::Id(GuildId(id))
    }
}

} // verus!
