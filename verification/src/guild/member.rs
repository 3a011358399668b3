//! Members of a guild.

use vstd::prelude::*;

use crate::id::GuildId;
use crate::id::RoleId;
use crate::timestamp::Timestamp;
use crate::text::decimal;
use crate::user::User;

verus! {

/// What a ban can be given: the number of days of which the banned user's
/// messages are deleted, and the reason for the ban.
pub trait BanOptions {
    /// The days of messages to delete.
    spec fn spec_dmd(&self) -> u8;

    /// The reason for the ban.
    spec fn spec_reason(&self) -> Seq<char>;

    /// The days of messages to delete; none unless the value gives a number.
    fn dmd(&self) -> (r: u8)
        ensures
            r == self.spec_dmd(),
    ;

    /// The reason for the ban; empty unless the value gives a text.
    fn reason(&self) -> (r: &str)
        ensures
            r@ == self.spec_reason(),
    ;
}

impl BanOptions for u8 {
    open spec fn spec_dmd(&self) -> u8 {
        *self
    }

    open spec fn spec_reason(&self) -> Seq<char> {
        Seq::empty()
    }

    fn dmd(&self) -> (r: u8) {
        *self
    }

    fn reason(&self) -> (r: &str) {
        proof {
            reveal_strlit("");
        }
        assert(""@ =~= Seq::<char>::empty());
        ""
    }
}

impl BanOptions for str {
    open spec fn spec_dmd(&self) -> u8 {
        0
    }

    open spec fn spec_reason(&self) -> Seq<char> {
        self@
    }

    fn dmd(&self) -> (r: u8) {
        0
    }

    fn reason(&self) -> (r: &str) {
        self
    }
}

impl<'a> BanOptions for &'a str {
    open spec fn spec_dmd(&self) -> u8 {
        0
    }

    open spec fn spec_reason(&self) -> Seq<char> {
        self@
    }

    fn dmd(&self) -> (r: u8) {
        0
    }

    fn reason(&self) -> (r: &str) {
        self
    }
}

impl BanOptions for String {
    open spec fn spec_dmd(&self) -> u8 {
        0
    }

    open spec fn spec_reason(&self) -> Seq<char> {
        self@
    }

    fn dmd(&self) -> (r: u8) {
        0
    }

    fn reason(&self) -> (r: &str) {
        self.as_str()
    }
}

impl<'a> BanOptions for (u8, &'a str) {
    open spec fn spec_dmd(&self) -> u8 {
        self.0
    }

    open spec fn spec_reason(&self) -> Seq<char> {
        self.1@
    }

    fn dmd(&self) -> (r: u8) {
        self.0
    }

    fn reason(&self) -> (r: &str) {
        self.1
    }
}

impl BanOptions for (u8, String) {
    open spec fn spec_dmd(&self) -> u8 {
        self.0
    }

    open spec fn spec_reason(&self) -> Seq<char> {
        self.1@
    }

    fn dmd(&self) -> (r: u8) {
        self.0
    }

    fn reason(&self) -> (r: &str) {
        self.1.as_str()
    }
}

/// A user as a member of one guild.
#[derive(Clone, Debug)]
pub struct Member {
    /// Whether the member is deafened in voice channels.
    pub deaf: bool,
    /// The guild that the member belongs to.
    pub guild_id: GuildId,
    /// When the member joined the guild.
    pub joined_at: Option<Timestamp>,
    /// Whether the member is muted in voice channels.
    pub mute: bool,
    /// The member's nickname in the guild, if one is set.
    pub nick: Option<String>,
    /// The roles that the member holds, besides the default role.
    pub roles: Vec<RoleId>,
    /// The user behind the member.
    pub user: User,
}

impl Member {
    /// What the member is shown as: the mention that pings the user.
    pub fn to_string(&self) -> (r: String)
        ensures
            r@ == "<@"@ + decimal(self.user.id.0 as nat) + ">"@,
    {
        self.user.to_string()
    }

    /// Whether the member holds the role, the default role aside.
    pub fn holds_role(&self, role: RoleId) -> (r: bool)
        ensures
            r == self.roles@.contains(role),
    {
        let mut i: usize = 0;
        while i < self.roles.len()
            invariant
                i <= self.roles.len(),
                forall|j: int| 0 <= j < i ==> self.roles@[j] != role,
            decreases self.roles.len() - i,
        {
            if self.roles[i] == role {
                return true;
            }
            i += 1;
        }
        false
    }
}

} // verus!
