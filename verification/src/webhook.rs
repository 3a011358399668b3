//! Webhooks.

use vstd::prelude::*;

use crate::id::ChannelId;
use crate::id::GuildId;
use crate::id::WebhookId;
use crate::user::User;

verus! {

/// A way to post messages to a channel without logging in.
#[derive(Clone, Debug)]
pub struct Webhook {
    /// The unique identifier of the webhook.
    pub id: WebhookId,
    /// The avatar that its messages are shown with.
    pub avatar: Option<String>,
    /// The channel that it posts to.
    pub channel_id: ChannelId,
    /// The guild of that channel.
    pub guild_id: Option<GuildId>,
    /// The name that its messages are shown with.
    pub name: Option<String>,
    /// The secret that it is used with.
    pub token: String,
    /// The user that made it.
    pub user: Option<User>,
}

} // verus!
