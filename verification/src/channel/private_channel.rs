//! Private channels.

use vstd::prelude::*;

use crate::channel::ChannelType;
use crate::id::ChannelId;
use crate::id::MessageId;
use crate::timestamp::Timestamp;
use crate::user::User;

verus! {

/// A text channel between the current user and one other user.
#[derive(Clone, Debug)]
pub struct PrivateChannel {
    /// The unique identifier of the channel.
    pub id: ChannelId,
    /// The last message sent.
    pub last_message_id: Option<MessageId>,
    /// When a message was last pinned.
    pub last_pin_timestamp: Option<Timestamp>,
    /// The kind of the channel, which is always `ChannelType::Private`.
    pub kind: ChannelType,
    /// The user at the other end.
    pub recipient: User,
}

impl PrivateChannel {
    /// What the channel is shown as: the name of the user at the other end.
    pub fn to_string(&self) -> (r: String)
        ensures
            r@ == self.recipient.name@,
    {
        self.recipient.name.clone()
    }
}

} // verus!
