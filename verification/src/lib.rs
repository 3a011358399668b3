//! Data model of a chat platform's guilds, channels, roles and members,
//! together with the resolution of a user's effective permissions.

pub mod channel;
pub mod convert;
pub mod guild;
pub mod id;
pub mod invite;
pub mod laws;
pub mod permissions;
pub mod resolver;
pub mod text;
pub mod timestamp;
pub mod user;
pub mod voice;
pub mod webhook;
