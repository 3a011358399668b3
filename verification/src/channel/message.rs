//! Messages.

use vstd::prelude::*;
use vstd::string::StringExecFns;
use vstd::string::StringSliceAdditionalSpecFns;
use vstd::utf8::encode_utf8;

use crate::channel::Attachment;
use crate::channel::Embed;
use crate::channel::ReactionType;
use crate::id::ChannelId;
use crate::id::MessageId;
use crate::id::RoleId;
use crate::id::WebhookId;
use crate::text::contains;
use crate::text::decimal;
use crate::text::replace;
use crate::text::replaced;
use crate::timestamp::Timestamp;
use crate::user::User;

verus! {

/// What kind of message a message is.
#[derive(Clone, Copy, Debug, PartialEq, Eq, Hash, PartialOrd, Ord, Structural)]
pub enum MessageType {
    /// A message that a user wrote.
    Regular,
    /// The author added someone to the group.
    GroupRecipientAddition,
    /// The author removed someone from the group.
    GroupRecipientRemoval,
    /// The author started a call.
    GroupCallCreation,
    /// The author changed the name of the group.
    GroupNameUpdate,
    /// The author changed the icon of the group.
    GroupIconUpdate,
    /// The author pinned a message.
    PinsAdd,
    /// The author joined the guild.
    MemberJoin,
}

impl MessageType {
    /// The number that stands for the kind on the wire.
    pub open spec fn spec_num(self) -> u64 {
        match self {
            MessageType::Regular => 0,
            MessageType::GroupRecipientAddition => 1,
            MessageType::GroupRecipientRemoval => 2,
            MessageType::GroupCallCreation => 3,
            MessageType::GroupNameUpdate => 4,
            MessageType::GroupIconUpdate => 5,
            MessageType::PinsAdd => 6,
            MessageType::MemberJoin => 7,
        }
    }

    /// The number that stands for the kind on the wire.
    pub fn num(&self) -> (r: u64)
        ensures
            r == self.spec_num(),
    {
        match *self {
            MessageType::Regular => 0,
            MessageType::GroupRecipientAddition => 1,
            MessageType::GroupRecipientRemoval => 2,
            MessageType::GroupCallCreation => 3,
            MessageType::GroupNameUpdate => 4,
            MessageType::GroupIconUpdate => 5,
            MessageType::PinsAdd => 6,
            MessageType::MemberJoin => 7,
        }
    }

    /// The kind that a number stands for, if it stands for one.
    pub fn from_num(value: u64) -> (r: Option<MessageType>)
        ensures
            match r {
                Some(kind) => kind.spec_num() == value,
                None => forall|kind: MessageType| kind.spec_num() != value,
            },
    {
        match value {
            0 => Some(MessageType::Regular),
            1 => Some(MessageType::GroupRecipientAddition),
            2 => Some(MessageType::GroupRecipientRemoval),
            3 => Some(MessageType::GroupCallCreation),
            4 => Some(MessageType::GroupNameUpdate),
            5 => Some(MessageType::GroupIconUpdate),
            6 => Some(MessageType::PinsAdd),
            7 => Some(MessageType::MemberJoin),
            _ => None,
        }
    }
}

/// A message in a channel.
#[derive(Clone, Debug)]
pub struct Message {
    /// The unique identifier of the message.
    pub id: MessageId,
    /// The files that came with the message.
    pub attachments: Vec<Attachment>,
    /// The user that sent the message.
    pub author: User,
    /// The channel that the message was sent to.
    pub channel_id: ChannelId,
    /// The text of the message.
    pub content: String,
    /// When the message was last edited, if it was.
    pub edited_timestamp: Option<Timestamp>,
    /// The rich content embedded in the message.
    pub embeds: Vec<Embed>,
    /// What kind of message it is.
    pub kind: MessageType,
    /// Whether the message mentions everyone.
    pub mention_everyone: bool,
    /// The roles that the message mentions.
    pub mention_roles: Vec<RoleId>,
    /// The users that the message mentions.
    pub mentions: Vec<User>,
    /// The number or text by which the sender keeps its messages in order,
    /// as the platform wrote it; `None` where it wrote none.
    pub nonce: Option<String>,
    /// Whether the message is pinned.
    pub pinned: bool,
    /// The reactions to the message.
    pub reactions: Vec<MessageReaction>,
    /// When the message was sent.
    pub timestamp: Timestamp,
    /// Whether the message is to be read out.
    pub tts: bool,
    /// The webhook that sent the message, if one did.
    pub webhook_id: Option<WebhookId>,
}

/// How often a message was reacted to in one way.
#[derive(Clone, Debug)]
pub struct MessageReaction {
    /// How many users reacted in this way.
    pub count: u64,
    /// Whether the current user is one of them.
    pub me: bool,
    /// What they reacted with.
    pub reaction_type: ReactionType,
}

/// Which of `count` greetings a member who joined at `seconds` is given.
pub open spec fn join_message_index(seconds: i64, count: nat) -> int {
    (seconds as usize) as int % count as int
}

impl Message {
    /// Writes the text of a message that the platform sends without one.
    ///
    /// A message that tells of a pin reads that its author pinned a message.
    /// A message that tells of a member who joined is given one of
    /// `join_messages`, chosen by the second at which it was sent, with the
    /// author's mention wherever the greeting says `$user`. Any other
    /// message stays as it is.
    pub fn transform_content(&mut self, join_messages: &[&str])
        requires
            join_messages@.len() > 0,
        ensures
            *final(self) == (Message { content: final(self).content, ..*old(self) }),
            match old(self).kind {
                MessageType::PinsAdd => final(self).content@ == "<@"@ + decimal(
                    old(self).author.id.0 as nat,
                ) + ">"@ + " pinned a message to this channel. See all the pins."@,
                MessageType::MemberJoin => encode_utf8(final(self).content@) == replaced(
                    join_messages@[join_message_index(
                        old(self).timestamp.seconds,
                        join_messages@.len(),
                    )].spec_bytes(),
                    "$user".spec_bytes(),
                    encode_utf8("<@"@ + decimal(old(self).author.id.0 as nat) + ">"@),
                ),
                _ => final(self).content == old(self).content,
            },
    {
        match self.kind {
            MessageType::PinsAdd => {
                let mut text = self.author.to_string();
                text.append(" pinned a message to this channel. See all the pins.");
                self.content = text;
            },
            MessageType::MemberJoin => {
                let seconds = #[verifier::truncate]
                (self.timestamp.timestamp() as usize);
                let chosen = join_messages[seconds % join_messages.len()];
                proof {
                    reveal_strlit("$user");
                }
                self.content = if contains(chosen, "$user") {
                    let mention = self.author.to_string();
                    replace(chosen, "$user", mention.as_str())
                } else {
                    String::from_str(chosen)
                };
            },
            _ => {},
        }
    }
}

} // verus!
