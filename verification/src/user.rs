//! Users and their presence.

use vstd::prelude::*;
use vstd::std_specs::cmp::PartialEqSpecImpl;

use crate::id::UserId;
use crate::text::decimal;

verus! {

/// Information about the user that the library is logged in as.
#[derive(Clone, Debug, Default)]
pub struct CurrentUser {
    pub id: UserId,
    pub avatar: Option<String>,
    pub bot: bool,
    pub discriminator: u16,
    pub email: Option<String>,
    pub mfa_enabled: bool,
    pub name: String,
    pub verified: bool,
}

/// One of the avatars that a user without an avatar of their own is shown
/// with.
#[derive(Clone, Copy, Debug, PartialEq, Eq, Hash, PartialOrd, Ord, Structural)]
pub enum DefaultAvatar {
    Blurple,
    Grey,
    Green,
    Orange,
    Red,
}

impl DefaultAvatar {
    /// The name of the avatar, as the platform writes it.
    pub open spec fn spec_name(self) -> Seq<char> {
        match self {
            DefaultAvatar::Blurple => "6debd47ed13483642cf09e832ed0bc1b"@,
            DefaultAvatar::Grey => "322c936a8c8be1b803cd94861bdfa868"@,
            DefaultAvatar::Green => "dd4dbc0016779df1378e7812eabaa04d"@,
            DefaultAvatar::Orange => "0e291f67c9274a1abdddeb3fd919cbaa"@,
            DefaultAvatar::Red => "1cbd08c76f8af6dddce02c5138971129"@,
        }
    }

    /// The name of the avatar, as the platform writes it.
    pub fn name(&self) -> (r: &'static str)
        ensures
            r@ == self.spec_name(),
    {
        match *self {
            DefaultAvatar::Blurple => "6debd47ed13483642cf09e832ed0bc1b",
            DefaultAvatar::Grey => "322c936a8c8be1b803cd94861bdfa868",
            DefaultAvatar::Green => "dd4dbc0016779df1378e7812eabaa04d",
            DefaultAvatar::Orange => "0e291f67c9274a1abdddeb3fd919cbaa",
            DefaultAvatar::Red => "1cbd08c76f8af6dddce02c5138971129",
        }
    }
}

/// How much of a channel's activity a user is notified of.
#[derive(Clone, Copy, Debug, PartialEq, Eq, Hash, PartialOrd, Ord, Structural)]
pub enum NotificationLevel {
    /// Every message.
    All,
    /// Mentions only.
    Mentions,
    /// Nothing.
    Nothing,
    /// Whatever the parent setting says.
    Parent,
}

impl NotificationLevel {
    /// The number that stands for the level on the wire.
    pub open spec fn spec_num(self) -> u64 {
        match self {
            NotificationLevel::All => 0,
            NotificationLevel::Mentions => 1,
            NotificationLevel::Nothing => 2,
            NotificationLevel::Parent => 3,
        }
    }

    /// The number that stands for the level on the wire.
    pub fn num(&self) -> (r: u64)
        ensures
            r == self.spec_num(),
    {
        match *self {
            NotificationLevel::All => 0,
            NotificationLevel::Mentions => 1,
            NotificationLevel::Nothing => 2,
            NotificationLevel::Parent => 3,
        }
    }

    /// The level that a number stands for, if it stands for one.
    pub fn from_num(value: u64) -> (r: Option<NotificationLevel>)
        ensures
            match r {
                Some(level) => level.spec_num() == value,
                None => forall|level: NotificationLevel| level.spec_num() != value,
            },
    {
        match value {
            0 => Some(NotificationLevel::All),
            1 => Some(NotificationLevel::Mentions),
            2 => Some(NotificationLevel::Nothing),
            3 => Some(NotificationLevel::Parent),
            _ => None,
        }
    }
}

/// Whether a user is there, and how.
#[derive(Clone, Copy, Debug, PartialEq, Eq, Hash, PartialOrd, Ord, Structural)]
pub enum OnlineStatus {
    DoNotDisturb,
    Idle,
    Invisible,
    Offline,
    Online,
}

impl OnlineStatus {
    /// The name of the status, as the platform writes it.
    pub open spec fn spec_name(self) -> Seq<char> {
        match self {
            OnlineStatus::DoNotDisturb => "dnd"@,
            OnlineStatus::Idle => "idle"@,
            OnlineStatus::Invisible => "invisible"@,
            OnlineStatus::Offline => "offline"@,
            OnlineStatus::Online => "online"@,
        }
    }

    /// The name of the status, as the platform writes it.
    pub fn name(&self) -> (r: &str)
        ensures
            r@ == self.spec_name(),
    {
        match *self {
            OnlineStatus::DoNotDisturb => "dnd",
            OnlineStatus::Idle => "idle",
            OnlineStatus::Invisible => "invisible",
            OnlineStatus::Offline => "offline",
            OnlineStatus::Online => "online",
        }
    }
}

impl Default for OnlineStatus {
    /// A user counts as online until the platform says otherwise.
    fn default() -> (r: OnlineStatus)
        ensures
            r == OnlineStatus::Online,
    {
        OnlineStatus::Online
    }
}

/// Information about a user.
#[derive(Clone, Debug)]
pub struct User {
    /// The unique identifier of the user.
    pub id: UserId,
    /// The hash of the user's avatar, if one is set.
    pub avatar: Option<String>,
    /// Whether the user is a bot.
    pub bot: bool,
    /// The number that tells apart users of the same name.
    pub discriminator: u16,
    /// The name of the account.
    pub name: String,
}

impl User {
    /// What the user is shown as: the mention that pings them.
    pub fn to_string(&self) -> (r: String)
        ensures
            r@ == "<@"@ + decimal(self.id.0 as nat) + ">"@,
    {
        self.id.mention().to_string()
    }
}

impl PartialEq for User {
    /// Two records are of the same user when they carry the same identifier.
    fn eq(&self, other: &User) -> (r: bool) {
        self.id.0 == other.id.0
    }
}

impl PartialEqSpecImpl for User {
    open spec fn obeys_eq_spec() -> bool {
        true
    }

    open spec fn eq_spec(&self, other: &User) -> bool {
        self.id.0 == other.id.0
    }
}

impl Eq for User {

}

impl core::hash::Hash for User {
    /// A user is hashed by the identifier alone, in keeping with `==`.
    #[verifier::external_body]
    fn hash<H: core::hash::Hasher>(&self, hasher: &mut H) {
        self.id.hash(hasher);
    }
}

} // verus!
