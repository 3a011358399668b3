//! Guilds, their roles and their members.

pub mod audit_log;
pub mod emoji;
pub mod guild_id;
pub mod member;
pub mod partial_guild;
pub mod role;
pub mod search;

pub use self::audit_log::Action;
pub use self::audit_log::ActionChannel;
pub use self::audit_log::ActionChannelOverwrite;
pub use self::audit_log::ActionEmoji;
pub use self::audit_log::ActionInvite;
pub use self::audit_log::ActionMember;
pub use self::audit_log::ActionRole;
pub use self::audit_log::ActionWebhook;
pub use self::audit_log::AuditLogEntry;
pub use self::audit_log::AuditLogs;
pub use self::audit_log::Change;
pub use self::audit_log::Options;
pub use self::audit_log::Target;
pub use self::emoji::Emoji;
pub use self::member::BanOptions;
pub use self::member::Member;
pub use self::partial_guild::PartialGuild;
pub use self::role::Role;

use std::collections::HashMap;
use vstd::prelude::*;

use crate::channel::ChannelType;
use crate::channel::GuildChannel;
use crate::channel::PermissionOverwriteType;
use crate::id::ChannelId;
use crate::id::GuildId;
use crate::id::RoleId;
use crate::id::UserId;
use crate::permissions::Permissions;
use crate::permissions::ADMINISTRATOR;
use crate::permissions::READ_MESSAGES;
use crate::resolver::Anomaly;
use crate::resolver::GuildView;
use crate::resolver::channel_anomalies;
use crate::resolver::dangling_roles;
use crate::resolver::dangling_roles_before_administrator;
use crate::resolver::guild_anomalies;
use crate::resolver::lemma_dangling_roles_step;
use crate::resolver::lemma_dangling_roles_stop;
use crate::resolver::lemma_union_flags;
use crate::timestamp::Timestamp;
use crate::user::OnlineStatus;
use crate::user::User;
use crate::voice::VoiceState;
use crate::resolver::VOICE_ONLY;
use crate::resolver::held_roles_mask;
use crate::resolver::lemma_flag_groups_defined;
use crate::resolver::lemma_held_roles_mask_ends;
use crate::resolver::lemma_held_roles_mask_step;
use crate::resolver::lemma_pass_ends;
use crate::resolver::lemma_pass_step;
use crate::resolver::lemma_single_flags;
use crate::resolver::member_pass;
use crate::resolver::resolve_channel_permissions;
use crate::resolver::resolve_guild_permissions;
use crate::resolver::role_pass;
use crate::resolver::suppressed;

verus! {

/// How much of itself a user has to prove before sending messages in a guild.
#[derive(Clone, Copy, Debug, PartialEq, Eq, Hash, PartialOrd, Ord, Structural)]
pub enum VerificationLevel {
    /// Nothing.
    NotRequired,
    /// A verified e-mail address.
    Low,
    /// Also an account older than five minutes.
    Medium,
    /// Also a membership older than ten minutes.
    High,
    /// Also a verified telephone number.
    Higher,
}

impl VerificationLevel {
    /// The number that stands for the level on the wire.
    pub open spec fn spec_num(self) -> u64 {
        match self {
            VerificationLevel::NotRequired => 0,
            VerificationLevel::Low => 1,
            VerificationLevel::Medium => 2,
            VerificationLevel::High => 3,
            VerificationLevel::Higher => 4,
        }
    }

    /// The number that stands for the level on the wire.
    pub fn num(&self) -> (r: u64)
        ensures
            r == self.spec_num(),
    {
        match *self {
            VerificationLevel::NotRequired => 0,
            VerificationLevel::Low => 1,
            VerificationLevel::Medium => 2,
            VerificationLevel::High => 3,
            VerificationLevel::Higher => 4,
        }
    }

    /// The level that a number stands for, if it stands for one.
    pub fn from_num(value: u64) -> (r: Option<VerificationLevel>)
        ensures
            match r {
                Some(level) => level.spec_num() == value,
                None => forall|level: VerificationLevel| level.spec_num() != value,
            },
    {
        match value {
            0 => Some(VerificationLevel::NotRequired),
            1 => Some(VerificationLevel::Low),
            2 => Some(VerificationLevel::Medium),
            3 => Some(VerificationLevel::High),
            4 => Some(VerificationLevel::Higher),
            _ => None,
        }
    }
}

/// A ban of a user from a guild.
#[derive(Clone, Debug)]
pub struct Ban {
    /// Why the user was banned, if a reason was given.
    pub reason: Option<String>,
    /// The user that was banned.
    pub user: User,
}

/// The widget that shows a guild on other sites.
#[derive(Clone, Copy, Debug)]
pub struct GuildEmbed {
    /// The channel that the widget shows.
    pub channel_id: ChannelId,
    /// Whether the widget is switched on.
    pub enabled: bool,
}

/// How many members a prune would remove.
#[derive(Clone, Copy, Debug)]
pub struct GuildPrune {
    pub pruned: u64,
}

/// The little that the platform tells of a guild in a list of guilds.
#[derive(Clone, Debug)]
pub struct GuildInfo {
    /// The unique identifier of the guild.
    pub id: GuildId,
    /// The hash of the guild's icon.
    pub icon: Option<String>,
    /// The name of the guild.
    pub name: String,
    /// Whether the current user owns the guild.
    pub owner: bool,
    /// The permissions of the current user in the guild.
    pub permissions: Permissions,
}

/// A guild that cannot be reached at the moment.
#[derive(Clone, Copy, Debug)]
pub struct GuildUnavailable {
    /// The unique identifier of the guild.
    pub id: GuildId,
    /// Whether the guild cannot be reached, which is always so.
    pub unavailable: bool,
}

/// A guild in whichever form the platform sent it.
#[derive(Clone, Debug)]
pub enum GuildStatus {
    OnlinePartialGuild(PartialGuild),
    OnlineGuild(Guild),
    Offline(GuildUnavailable),
}

/// Either a guild or its identifier.
#[derive(Clone, Debug)]
pub enum GuildContainer {
    Guild(PartialGuild),
    Id(GuildId),
}

/// How a user is present in a guild.
#[derive(Clone, Debug)]
pub struct Presence {
    /// When the presence last changed.
    pub last_modified: Option<u64>,
    /// The user's nickname in the guild, if one is set.
    pub nick: Option<String>,
    /// Whether the user is there, and how.
    pub status: OnlineStatus,
    /// The user that is present.
    pub user_id: UserId,
}

/// A guild with its channels, roles and members.
#[derive(Clone, Debug)]
pub struct Guild {
    /// The voice channel that idle members are moved to.
    pub afk_channel_id: Option<ChannelId>,
    /// The seconds of inactivity after which a member counts as idle.
    pub afk_timeout: u64,
    /// The guild's channels, by the channel's identifier.
    pub channels: HashMap<u64, GuildChannel>,
    /// Whether members are notified of every message unless they say
    /// otherwise.
    pub default_message_notifications: u64,
    /// The guild's custom emojis, by the emoji's identifier.
    pub emojis: HashMap<u64, Emoji>,
    /// The features that are switched on for the guild.
    pub features: Vec<String>,
    /// The hash of the guild's icon.
    pub icon: Option<String>,
    /// The unique identifier of the guild, which is also that of its default
    /// role and of its default channel.
    pub id: GuildId,
    /// When the current user joined the guild.
    pub joined_at: Timestamp,
    /// Whether the platform counts the guild as large.
    pub large: bool,
    /// How many members the guild has.
    pub member_count: u64,
    /// The guild's members, by the user's identifier.
    pub members: HashMap<u64, Member>,
    /// Whether those who moderate need a second factor to log in.
    pub mfa_level: u64,
    /// The name of the guild.
    pub name: String,
    /// The user that owns the guild.
    pub owner_id: UserId,
    /// How the guild's members are present, by the user's identifier.
    pub presences: HashMap<u64, Presence>,
    /// The region of the guild's voice servers.
    pub region: String,
    /// The guild's roles, by the role's identifier.
    pub roles: HashMap<u64, Role>,
    /// The hash of the guild's splash image.
    pub splash: Option<String>,
    /// How much of itself a user has to prove before sending messages.
    pub verification_level: VerificationLevel,
    /// How the guild's members are connected to voice, by the user's
    /// identifier.
    pub voice_states: HashMap<u64, VoiceState>,
}

impl View for Guild {
    type V = GuildView;

    open spec fn view(&self) -> GuildView {
        GuildView {
            id: self.id.0,
            owner_id: self.owner_id.0,
            roles: Map::new(
                |k: u64| self.roles@.contains_key(k),
                |k: u64| self.roles@[k].permissions@,
            ),
            members: Map::new(
                |k: u64| self.members@.contains_key(k),
                |k: u64| self.members@[k].roles@,
            ),
            channels: Map::new(
                |k: u64| self.channels@.contains_key(k),
                |k: u64| self.channels@[k]@,
            ),
        }
    }
}

impl Guild {
    /// The union of the masks of those of a member's roles that the guild
    /// has.
    fn held_roles_permissions(&self, held: &Vec<RoleId>) -> (r: Permissions)
        ensures
            r@ == held_roles_mask(self@.roles, held@),
    {
        broadcast use vstd::std_specs::hash::group_hash_axioms;

        let mut permissions = Permissions::empty();
        let mut i: usize = 0;
        proof {
            lemma_held_roles_mask_ends(self@.roles, held@);
        }
        while i < held.len()
            invariant
                i <= held.len(),
                permissions@ == held_roles_mask(self@.roles, held@.take(i as int)),
            decreases held.len() - i,
        {
            proof {
                lemma_held_roles_mask_step(self@.roles, held@, i as int);
            }
            if let Some(role) = self.roles.get(&held[i].0) {
                permissions = permissions.union(role.permissions);
            }
            i += 1;
        }
        proof {
            lemma_held_roles_mask_ends(self@.roles, held@);
        }
        permissions
    }

    /// The permissions of a user in the guild as a whole.
    ///
    /// The owner has every permission. Anyone else starts from the default
    /// role; a member adds the roles that they hold and the guild has, and has
    /// every permission if the default role or one of these grants
    /// `ADMINISTRATOR`. A guild without its default role grants nothing.
    pub fn member_permissions(&self, user_id: UserId) -> (r: Permissions)
        ensures
            r@ == resolve_guild_permissions(self@, user_id.0),
    {
        broadcast use vstd::std_specs::hash::group_hash_axioms;

        if user_id.0 == self.owner_id.0 {
            return Permissions::all();
        }
        let everyone = match self.roles.get(&self.id.0) {
            Some(everyone) => everyone,
            None => {
                return Permissions::empty();
            },
        };
        let member = match self.members.get(&user_id.0) {
            Some(member) => member,
            None => {
                return everyone.permissions;
            },
        };
        let base = everyone.permissions.union(self.held_roles_permissions(&member.roles));
        proof {
            lemma_flag_groups_defined();
            lemma_single_flags(base@);
        }
        if base.contains(Permissions::from_bits_truncate(ADMINISTRATOR)) {
            Permissions::all()
        } else {
            base
        }
    }

    /// The permissions of a user in one channel of the guild.
    ///
    /// The owner and administrators have every permission, and someone who
    /// is no member has those of the default role. For any other member the
    /// channel's overwrites change what the roles grant: first the
    /// overwrites for the default role and for the roles that the member
    /// holds, then the overwrites for the member in person, each in the order
    /// of the list. A text channel starts without the voice flags, the
    /// default channel can always be read, and flags that mean nothing
    /// without `SEND_MESSAGES` or `READ_MESSAGES` go at the end.
    pub fn permissions_in(&self, channel_id: ChannelId, user_id: UserId) -> (r: Permissions)
        ensures
            r@ == resolve_channel_permissions(self@, channel_id.0, user_id.0),
    {
        broadcast use vstd::std_specs::hash::group_hash_axioms;

        if user_id.0 == self.owner_id.0 {
            return Permissions::all();
        }
        let everyone = match self.roles.get(&self.id.0) {
            Some(everyone) => everyone,
            None => {
                return Permissions::empty();
            },
        };
        let member = match self.members.get(&user_id.0) {
            Some(member) => member,
            None => {
                return everyone.permissions;
            },
        };
        let mut permissions = everyone.permissions.union(
            self.held_roles_permissions(&member.roles),
        );
        proof {
            lemma_flag_groups_defined();
            lemma_single_flags(permissions@);
        }
        if permissions.contains(Permissions::from_bits_truncate(ADMINISTRATOR)) {
            return Permissions::all();
        }
        if let Some(channel) = self.channels.get(&channel_id.0) {
            if channel.kind == ChannelType::Text {
                permissions = permissions.subtract(Permissions::from_bits_truncate(VOICE_ONLY));
            }
            let ghost overwrites = self@.channels[channel_id.0].overwrites;
            let ghost start = permissions@;
            proof {
                lemma_pass_ends(self.id.0, member.roles@, user_id.0, overwrites, start);
            }
            let mut i: usize = 0;
            while i < channel.permission_overwrites.len()
                invariant
                    i <= channel.permission_overwrites.len(),
                    overwrites == channel@.overwrites,
                    permissions@ == role_pass(
                        self.id.0,
                        member.roles@,
                        overwrites.take(i as int),
                        start,
                    ),
                decreases channel.permission_overwrites.len() - i,
            {
                let overwrite = &channel.permission_overwrites[i];
                proof {
                    lemma_pass_step(
                        self.id.0,
                        member.roles@,
                        user_id.0,
                        overwrites,
                        start,
                        i as int,
                    );
                }
                if let PermissionOverwriteType::Role(role) = overwrite.kind {
                    if role.0 == self.id.0 || member.holds_role(role) {
                        permissions = overwrite.apply_to(permissions);
                    }
                }
                i += 1;
            }
            let ghost after_roles = permissions@;
            proof {
                lemma_pass_ends(self.id.0, member.roles@, user_id.0, overwrites, start);
                lemma_pass_ends(self.id.0, member.roles@, user_id.0, overwrites, after_roles);
            }
            let mut j: usize = 0;
            while j < channel.permission_overwrites.len()
                invariant
                    j <= channel.permission_overwrites.len(),
                    overwrites == channel@.overwrites,
                    permissions@ == member_pass(user_id.0, overwrites.take(j as int), after_roles),
                decreases channel.permission_overwrites.len() - j,
            {
                let overwrite = &channel.permission_overwrites[j];
                proof {
                    lemma_pass_step(
                        self.id.0,
                        member.roles@,
                        user_id.0,
                        overwrites,
                        after_roles,
                        j as int,
                    );
                }
                if overwrite.kind == PermissionOverwriteType::Member(user_id) {
                    permissions = overwrite.apply_to(permissions);
                }
                j += 1;
            }
        }
        if channel_id.0 == self.id.0 {
            permissions = permissions.union(Permissions::from_bits_truncate(READ_MESSAGES));
        }
        suppressed(permissions)
    }

    /// Whether a user has all of `required` in a channel of the guild.
    pub fn user_has_perms(&self, channel_id: ChannelId, user_id: UserId, required: Permissions) -> (r:
        bool)
        ensures
            r == (resolve_channel_permissions(self@, channel_id.0, user_id.0) & required@
                == required@),
    {
        self.permissions_in(channel_id, user_id).contains(required)
    }

    /// What `member_permissions` comes across that is amiss in the guild's
    /// data, in the order in which it comes across it: a missing default
    /// role, or roles that the member holds and the guild does not have. No
    /// role is looked at once `ADMINISTRATOR` is granted, by the default role
    /// or by a role held before.
    pub fn member_permissions_anomalies(&self, user_id: UserId) -> (r: Vec<Anomaly>)
        ensures
            r@ == guild_anomalies(self@, user_id.0),
    {
        broadcast use vstd::std_specs::hash::group_hash_axioms;

        let mut found: Vec<Anomaly> = Vec::new();
        if user_id.0 == self.owner_id.0 {
            return found;
        }
        let everyone = match self.roles.get(&self.id.0) {
            Some(everyone) => everyone,
            None => {
                found.push(Anomaly::MissingDefaultRole);
                assert(found@ =~= seq![Anomaly::MissingDefaultRole]);
                return found;
            },
        };
        let member = match self.members.get(&user_id.0) {
            Some(member) => member,
            None => {
                return found;
            },
        };
        let administrator = Permissions::from_bits_truncate(ADMINISTRATOR);
        let ghost start = everyone.permissions@;
        proof {
            lemma_flag_groups_defined();
            lemma_held_roles_mask_ends(self@.roles, member.roles@);
            lemma_union_flags(start, 0, ADMINISTRATOR);
            lemma_single_flags(start);
            assert(member.roles@.take(0) =~= Seq::<RoleId>::empty());
        }
        if everyone.permissions.contains(administrator) {
            proof {
                lemma_dangling_roles_stop(self@.roles, member.roles@, start, 0);
            }
            return found;
        }
        let mut i: usize = 0;
        while i < member.roles.len()
            invariant
                i <= member.roles.len(),
                administrator@ == ADMINISTRATOR,
                user_id.0 != self@.owner_id,
                self@.roles.contains_key(self@.id),
                self@.members.contains_key(user_id.0),
                self@.members[user_id.0] == member.roles@,
                self@.roles[self@.id] == start,
                (start | held_roles_mask(self@.roles, member.roles@.take(i as int)))
                    & ADMINISTRATOR == 0,
                found@ == dangling_roles_before_administrator(
                    self@.roles,
                    member.roles@.take(i as int),
                    start,
                ),
            decreases member.roles.len() - i,
        {
            proof {
                lemma_dangling_roles_step(self@.roles, member.roles@, start, i as int);
                lemma_held_roles_mask_step(self@.roles, member.roles@, i as int);
            }
            match self.roles.get(&member.roles[i].0) {
                Some(role) => {
                    proof {
                        let so_far = held_roles_mask(self@.roles, member.roles@.take(i as int));
                        lemma_union_flags(start | so_far, role.permissions@, ADMINISTRATOR);
                        lemma_union_flags(start, so_far, role.permissions@);
                        lemma_single_flags(role.permissions@);
                    }
                    if role.permissions.contains(administrator) {
                        proof {
                            lemma_dangling_roles_stop(self@.roles, member.roles@, start, i + 1);
                        }
                        return found;
                    }
                },
                None => {
                    found.push(Anomaly::MissingRole(member.roles[i]));
                },
            }
            i += 1;
        }
        proof {
            lemma_held_roles_mask_ends(self@.roles, member.roles@);
        }
        found
    }

    /// What `permissions_in` comes across that is amiss in the guild's data,
    /// in the order in which it comes across it: a missing default role, or
    /// roles that the member holds and the guild does not have, and then a
    /// missing channel, unless the member is an administrator.
    pub fn permissions_in_anomalies(&self, channel_id: ChannelId, user_id: UserId) -> (r: Vec<
        Anomaly,
    >)
        ensures
            r@ == channel_anomalies(self@, channel_id.0, user_id.0),
    {
        broadcast use vstd::std_specs::hash::group_hash_axioms;

        let mut found: Vec<Anomaly> = Vec::new();
        if user_id.0 == self.owner_id.0 {
            return found;
        }
        let everyone = match self.roles.get(&self.id.0) {
            Some(everyone) => everyone,
            None => {
                found.push(Anomaly::MissingDefaultRole);
                assert(found@ =~= seq![Anomaly::MissingDefaultRole]);
                return found;
            },
        };
        let member = match self.members.get(&user_id.0) {
            Some(member) => member,
            None => {
                return found;
            },
        };
        let mut i: usize = 0;
        proof {
            assert(member.roles@.take(0) =~= Seq::<RoleId>::empty());
        }
        while i < member.roles.len()
            invariant
                i <= member.roles.len(),
                found@ == dangling_roles(self@.roles, member.roles@.take(i as int)),
            decreases member.roles.len() - i,
        {
            proof {
                lemma_dangling_roles_step(self@.roles, member.roles@, 0, i as int);
            }
            if self.roles.get(&member.roles[i].0).is_none() {
                found.push(Anomaly::MissingRole(member.roles[i]));
            }
            i += 1;
        }
        proof {
            lemma_held_roles_mask_ends(self@.roles, member.roles@);
            lemma_flag_groups_defined();
        }
        let base = everyone.permissions.union(self.held_roles_permissions(&member.roles));
        proof {
            lemma_single_flags(base@);
        }
        if !base.contains(Permissions::from_bits_truncate(ADMINISTRATOR))
            && self.channels.get(&channel_id.0).is_none() {
            found.push(Anomaly::MissingChannel(channel_id));
        }
        found
    }
}

} // verus!
