//! Reactions to messages.

use vstd::prelude::*;
use vstd::std_specs::convert::FromSpecImpl;
use vstd::string::StringExecFns;

use crate::guild::Emoji;
use crate::id::ChannelId;
use crate::id::EmojiId;
use crate::id::MessageId;
use crate::id::UserId;
use crate::permissions::Permissions;
use crate::permissions::MANAGE_MESSAGES;
use crate::text::decimal;
use crate::text::decimal_string;

verus! {

/// A reaction of one user to one message.
#[derive(Clone, Debug)]
pub struct Reaction {
    /// The channel of the message.
    pub channel_id: ChannelId,
    /// What the user reacted with.
    pub emoji: ReactionType,
    /// The message that was reacted to.
    pub message_id: MessageId,
    /// The user that reacted.
    pub user_id: UserId,
}

/// What is to be done when a reaction is to be deleted.
#[derive(Clone, Copy, Debug, PartialEq, Eq, Structural)]
pub enum ReactionRemoval {
    /// Nothing: the current user lacks the permissions held here.
    Refused(Permissions),
    /// The request goes out, for the current user's own reaction (`None`) or
    /// for that of the user named.
    Request(Option<u64>),
}

impl Reaction {
    /// What is to be done when the current user wants the reaction deleted.
    ///
    /// One's own reaction can always be deleted. Another user's reaction
    /// takes `MANAGE_MESSAGES` in the channel; whether the current user has
    /// it is `manages_messages`, and where that is not known the request
    /// goes out all the same.
    pub fn removal(&self, current_user: UserId, manages_messages: Option<bool>) -> (r:
        ReactionRemoval)
        ensures
            r == if self.user_id == current_user {
                ReactionRemoval::Request(None)
            } else if manages_messages == Some(false) {
                ReactionRemoval::Refused(Permissions::truncated(MANAGE_MESSAGES))
            } else {
                ReactionRemoval::Request(Some(self.user_id.0))
            },
    {
        let required = Permissions::from_bits_truncate(MANAGE_MESSAGES);
        if self.user_id.0 == current_user.0 {
            ReactionRemoval::Request(None)
        } else {
            match manages_messages {
                Some(false) => ReactionRemoval::Refused(required),
                _ => ReactionRemoval::Request(Some(self.user_id.0)),
            }
        }
    }

    /// How many users to ask for, and after which one, when the users that
    /// reacted are listed: fifty unless a limit is given.
    pub fn users_request(limit: Option<u8>, after: Option<UserId>) -> (r: (u8, Option<u64>))
        ensures
            r.0 == match limit {
                Some(limit) => limit,
                None => 50u8,
            },
            r.1 == match after {
                Some(user) => Some(user.0),
                None => None,
            },
    {
        let limit = match limit {
            Some(limit) => limit,
            None => 50,
        };
        let after = match after {
            Some(user) => Some(user.0),
            None => None,
        };
        (limit, after)
    }
}

/// What a user reacted with.
#[derive(Clone, Debug)]
pub enum ReactionType {
    /// A custom emoji of a guild.
    Custom {
        /// The identifier of the emoji.
        id: EmojiId,
        /// The name of the emoji.
        name: String,
    },
    /// An emoji of Unicode.
    Unicode(String),
}

impl ReactionType {
    /// The reaction as it is written in requests.
    pub open spec fn spec_data(self) -> Seq<char> {
        match self {
            ReactionType::Custom { id, name } => name@ + ":"@ + decimal(id.0 as nat),
            ReactionType::Unicode(unicode) => unicode@,
        }
    }

    /// The reaction as it is written in requests: the name, a colon and the
    /// identifier of a custom emoji, or the emoji of Unicode itself.
    pub fn as_data(&self) -> (r: String)
        ensures
            r@ == self.spec_data(),
    {
        match self {
            ReactionType::Custom { id, name } => {
                let mut text = name.clone();
                text.append(":");
                let number = decimal_string(id.0);
                text.append(number.as_str());
                text
            },
            ReactionType::Unicode(unicode) => unicode.clone(),
        }
    }

    /// The reaction as the platform's clients render it.
    pub open spec fn spec_text(self) -> Seq<char> {
        match self {
            ReactionType::Custom { id, name } => "<:"@ + name@ + ":"@ + decimal(id.0 as nat)
                + ">"@,
            ReactionType::Unicode(unicode) => unicode@,
        }
    }

    /// The reaction as the platform's clients render it: a custom emoji as
    /// `<:`, the name, a colon, the identifier and `>`, an emoji of Unicode
    /// as itself.
    pub fn to_string(&self) -> (r: String)
        ensures
            r@ == self.spec_text(),
    {
        match self {
            ReactionType::Custom { id, name } => {
                let mut text = String::from_str("<:");
                text.append(name.as_str());
                text.append(":");
                let number = decimal_string(id.0);
                text.append(number.as_str());
                text.append(">");
                text
            },
            ReactionType::Unicode(unicode) => unicode.clone(),
        }
    }

    /// The reaction that a name and, for a custom emoji, an identifier
    /// stand for: only custom emojis have an identifier.
    pub fn from_parts(name: String, id: Option<EmojiId>) -> (r: ReactionType)
        ensures
            r == match id {
                Some(id) => (ReactionType::Custom { id, name }),
                None => ReactionType::Unicode(name),
            },
    {
        match id {
            Some(id) => ReactionType::Custom { id, name },
            None => ReactionType::Unicode(name),
        }
    }
}

impl From<Emoji> for ReactionType {
    fn from(emoji: Emoji) -> (r: ReactionType) {
        ReactionType::Custom { id: emoji.id, name: emoji.name }
    }
}

impl FromSpecImpl<Emoji> for ReactionType {
    open spec fn obeys_from_spec() -> bool {
        true
    }

    open spec fn from_spec(emoji: Emoji) -> ReactionType {
        ReactionType::Custom { id: emoji.id, name: emoji.name }
    }
}

impl From<String> for ReactionType {
    fn from(unicode: String) -> (r: ReactionType) {
        ReactionType::Unicode(unicode)
    }
}

impl FromSpecImpl<String> for ReactionType {
    open spec fn obeys_from_spec() -> bool {
        true
    }

    open spec fn from_spec(unicode: String) -> ReactionType {
        ReactionType::Unicode(unicode)
    }
}

} // verus!
