//! Voice connections.

use vstd::prelude::*;

use crate::id::ChannelId;
use crate::id::UserId;

verus! {

/// How a user is connected to voice.
#[derive(Clone, Debug)]
pub struct VoiceState {
    /// The voice channel that the user is in, if any.
    pub channel_id: Option<ChannelId>,
    /// Whether the guild has deafened the user.
    pub deaf: bool,
    /// Whether the guild has muted the user.
    pub mute: bool,
    /// Whether the user has deafened themselves.
    pub self_deaf: bool,
    /// Whether the user has muted themselves.
    pub self_mute: bool,
    /// The session of the connection.
    pub session_id: String,
    /// Whether the user may not speak.
    pub suppress: bool,
    /// The secret of the connection.
    pub token: Option<String>,
    /// The user that is connected.
    pub user_id: UserId,
}

} // verus!
