//! Identifiers of the platform's entities, and the mentions made from them.

use std::collections::HashMap;
use vstd::prelude::*;
use vstd::string::StringExecFns;

use crate::guild::Guild;
use crate::guild::Role;

use crate::text::decimal;
use crate::text::decimal_string;

verus! {

/// The identifier of an entry of an audit log.
#[derive(Clone, Copy, Debug, Default, PartialEq, Eq, Hash, PartialOrd, Ord, Structural)]
pub struct AuditLogEntryId(pub u64);

/// The identifier of a channel.
#[derive(Clone, Copy, Debug, Default, PartialEq, Eq, Hash, PartialOrd, Ord, Structural)]
pub struct ChannelId(pub u64);

/// The identifier of a custom emoji.
#[derive(Clone, Copy, Debug, Default, PartialEq, Eq, Hash, PartialOrd, Ord, Structural)]
pub struct EmojiId(pub u64);

/// The identifier of a guild.
#[derive(Clone, Copy, Debug, Default, PartialEq, Eq, Hash, PartialOrd, Ord, Structural)]
pub struct GuildId(pub u64);

/// The identifier of a message.
#[derive(Clone, Copy, Debug, Default, PartialEq, Eq, Hash, PartialOrd, Ord, Structural)]
pub struct MessageId(pub u64);

/// The identifier of a role.
#[derive(Clone, Copy, Debug, Default, PartialEq, Eq, Hash, PartialOrd, Ord, Structural)]
pub struct RoleId(pub u64);

/// The identifier of a user.
#[derive(Clone, Copy, Debug, Default, PartialEq, Eq, Hash, PartialOrd, Ord, Structural)]
pub struct UserId(pub u64);

/// The identifier of a webhook.
#[derive(Clone, Copy, Debug, Default, PartialEq, Eq, Hash, PartialOrd, Ord, Structural)]
pub struct WebhookId(pub u64);

/// A reference to an entity that the platform's clients render as a link:
/// the prefix, the identifier in decimal, and a closing `>`.
#[derive(Clone, Copy, Debug)]
pub struct Mention {
    pub id: u64,
    pub prefix: &'static str,
}

impl Mention {
    /// The mention as the platform reads it.
    pub open spec fn spec_text(self) -> Seq<char> {
        self.prefix@ + decimal(self.id as nat) + ">"@
    }

    /// The mention as the platform reads it: the prefix, the identifier in
    /// decimal, and a closing `>`.
    pub fn to_string(&self) -> (r: String)
        ensures
            r@ == self.spec_text(),
    {
        let mut text = String::from_str(self.prefix);
        let number = decimal_string(self.id);
        text.append(number.as_str());
        text.append(">");
        text
    }
}

impl ChannelId {
    /// The mention that links to the channel.
    pub fn mention(&self) -> (r: Mention)
        ensures
            r.id == self.0,
            r.prefix@ == "<#"@,
    {
        Mention { id: self.0, prefix: "<#" }
    }
}

impl GuildId {
    /// The mention that links to the guild's default channel.
    pub fn mention(&self) -> (r: Mention)
        ensures
            r.id == self.0,
            r.prefix@ == "<#"@,
    {
        Mention { id: self.0, prefix: "<#" }
    }

    /// The identifier of the guild's default channel, which is the guild's own.
    pub fn to_channel(&self) -> (r: ChannelId)
        ensures
            r.0 == self.0,
    {
        ChannelId(self.0)
    }
}

impl RoleId {
    /// The role in whichever of the guilds has it, if one of them does.
    pub fn find_in<'a>(&self, guilds: &'a HashMap<u64, Guild>) -> (r: Option<&'a Role>)
        ensures
            match r {
                Some(role) => exists|guild: u64|
                    #![trigger guilds@[guild]]
                    guilds@.contains_key(guild) && guilds@[guild].roles@.contains_key(self.0)
                        && guilds@[guild].roles@[self.0] == *role,
                None => forall|guild: u64| #[trigger]
                    guilds@.contains_key(guild) ==> !guilds@[guild].roles@.contains_key(self.0),
            },
    {
        broadcast use vstd::std_specs::hash::group_hash_axioms;

        for pair in it: guilds.iter()
            invariant
                forall|i: int|
                    0 <= i < it.seq().len() ==> guilds@.contains_key(*(#[trigger] it.seq()[i]).0)
                        && guilds@[*it.seq()[i].0] == *it.seq()[i].1,
                forall|key: u64| #[trigger]
                    guilds@.contains_key(key) ==> exists|i: int|
                        0 <= i < it.seq().len() && *(#[trigger] it.seq()[i]).0 == key,
                forall|i: int|
                    0 <= i < it.index() ==> !(#[trigger] it.seq()[i]).1.roles@.contains_key(
                        self.0,
                    ),
        {
            let guild: &'a Guild = pair.1;
            match guild.roles.get(&self.0) {
                Some(role) => {
                    assert(guilds@[*pair.0] == *guild);
                    return Some(role);
                },
                None => {},
            }
        }
        None
    }

    /// The mention that pings the members of the role.
    pub fn mention(&self) -> (r: Mention)
        ensures
            r.id == self.0,
            r.prefix@ == "<@&"@,
    {
        Mention { id: self.0, prefix: "<@&" }
    }
}

impl UserId {
    /// The mention that pings the user.
    pub fn mention(&self) -> (r: Mention)
        ensures
            r.id == self.0,
            r.prefix@ == "<@"@,
    {
        Mention { id: self.0, prefix: "<@" }
    }
}

} // verus!
