//! The audit log of a guild.

use std::collections::HashMap;
use vstd::prelude::*;

use crate::id::AuditLogEntryId;
use crate::id::ChannelId;
use crate::id::UserId;
use crate::user::User;
use crate::webhook::Webhook;

verus! {

/// The kind of thing that an action was done to.
#[derive(Clone, Copy, Debug, PartialEq, Eq, Structural)]
pub enum Target {
    Guild,
    Channel,
    User,
    Role,
    Invite,
    Webhook,
    Emoji,
}

impl Target {
    /// The number that stands for the kind of target on the wire.
    pub open spec fn spec_num(self) -> u8 {
        match self {
            Target::Guild => 10,
            Target::Channel => 20,
            Target::User => 30,
            Target::Role => 40,
            Target::Invite => 50,
            Target::Webhook => 60,
            Target::Emoji => 70,
        }
    }

    /// The number that stands for the kind of target on the wire.
    pub fn num(&self) -> (r: u8)
        ensures
            r == self.spec_num(),
    {
        match *self {
            Target::Guild => 10,
            Target::Channel => 20,
            Target::User => 30,
            Target::Role => 40,
            Target::Invite => 50,
            Target::Webhook => 60,
            Target::Emoji => 70,
        }
    }
}

/// What was done.
#[derive(Clone, Copy, Debug, PartialEq, Eq, Structural)]
pub enum Action {
    GuildUpdate,
    Channel(ActionChannel),
    ChannelOverwrite(ActionChannelOverwrite),
    Member(ActionMember),
    Role(ActionRole),
    Invite(ActionInvite),
    Webhook(ActionWebhook),
    Emoji(ActionEmoji),
    MessageDelete,
}

#[derive(Clone, Copy, Debug, PartialEq, Eq, Structural)]
pub enum ActionChannel {
    Create,
    Update,
    Delete,
}

#[derive(Clone, Copy, Debug, PartialEq, Eq, Structural)]
pub enum ActionChannelOverwrite {
    Create,
    Update,
    Delete,
}

#[derive(Clone, Copy, Debug, PartialEq, Eq, Structural)]
pub enum ActionMember {
    Kick,
    Prune,
    BanAdd,
    BanRemove,
    Update,
    RoleUpdate,
}

#[derive(Clone, Copy, Debug, PartialEq, Eq, Structural)]
pub enum ActionRole {
    Create,
    Update,
    Delete,
}

#[derive(Clone, Copy, Debug, PartialEq, Eq, Structural)]
pub enum ActionInvite {
    Create,
    Update,
    Delete,
}

#[derive(Clone, Copy, Debug, PartialEq, Eq, Structural)]
pub enum ActionWebhook {
    Create,
    Update,
    Delete,
}

#[derive(Clone, Copy, Debug, PartialEq, Eq, Structural)]
pub enum ActionEmoji {
    Create,
    Delete,
    Update,
}

impl Action {
    /// The number that stands for the action on the wire.
    pub open spec fn spec_num(self) -> u8 {
        match self {
            Action::GuildUpdate => 1,
            Action::Channel(ActionChannel::Create) => 10,
            Action::Channel(ActionChannel::Update) => 11,
            Action::Channel(ActionChannel::Delete) => 12,
            Action::ChannelOverwrite(ActionChannelOverwrite::Create) => 13,
            Action::ChannelOverwrite(ActionChannelOverwrite::Update) => 14,
            Action::ChannelOverwrite(ActionChannelOverwrite::Delete) => 15,
            Action::Member(ActionMember::Kick) => 20,
            Action::Member(ActionMember::Prune) => 21,
            Action::Member(ActionMember::BanAdd) => 22,
            Action::Member(ActionMember::BanRemove) => 23,
            Action::Member(ActionMember::Update) => 24,
            Action::Member(ActionMember::RoleUpdate) => 25,
            Action::Role(ActionRole::Create) => 30,
            Action::Role(ActionRole::Update) => 31,
            Action::Role(ActionRole::Delete) => 32,
            Action::Invite(ActionInvite::Create) => 40,
            Action::Invite(ActionInvite::Update) => 41,
            Action::Invite(ActionInvite::Delete) => 42,
            Action::Webhook(ActionWebhook::Create) => 50,
            Action::Webhook(ActionWebhook::Update) => 51,
            Action::Webhook(ActionWebhook::Delete) => 52,
            Action::Emoji(ActionEmoji::Create) => 60,
            Action::Emoji(ActionEmoji::Delete) => 61,
            Action::Emoji(ActionEmoji::Update) => 62,
            Action::MessageDelete => 72,
        }
    }

    /// The number that stands for the action on the wire.
    pub fn num(&self) -> (r: u8)
        ensures
            r == self.spec_num(),
    {
        match *self {
            Action::GuildUpdate => 1,
            Action::Channel(ActionChannel::Create) => 10,
            Action::Channel(ActionChannel::Update) => 11,
            Action::Channel(ActionChannel::Delete) => 12,
            Action::ChannelOverwrite(ActionChannelOverwrite::Create) => 13,
            Action::ChannelOverwrite(ActionChannelOverwrite::Update) => 14,
            Action::ChannelOverwrite(ActionChannelOverwrite::Delete) => 15,
            Action::Member(ActionMember::Kick) => 20,
            Action::Member(ActionMember::Prune) => 21,
            Action::Member(ActionMember::BanAdd) => 22,
            Action::Member(ActionMember::BanRemove) => 23,
            Action::Member(ActionMember::Update) => 24,
            Action::Member(ActionMember::RoleUpdate) => 25,
            Action::Role(ActionRole::Create) => 30,
            Action::Role(ActionRole::Update) => 31,
            Action::Role(ActionRole::Delete) => 32,
            Action::Invite(ActionInvite::Create) => 40,
            Action::Invite(ActionInvite::Update) => 41,
            Action::Invite(ActionInvite::Delete) => 42,
            Action::Webhook(ActionWebhook::Create) => 50,
            Action::Webhook(ActionWebhook::Update) => 51,
            Action::Webhook(ActionWebhook::Delete) => 52,
            Action::Emoji(ActionEmoji::Create) => 60,
            Action::Emoji(ActionEmoji::Delete) => 61,
            Action::Emoji(ActionEmoji::Update) => 62,
            Action::MessageDelete => 72,
        }
    }
}

/// The action that a number stands for. A number that stands for none is
/// rejected: it comes back as the error.
pub fn deserialize_action(value: u8) -> (r: Result<Action, u8>)
    ensures
        match r {
            Ok(action) => action.spec_num() == value,
            Err(rejected) => rejected == value && forall|action: Action|
                action.spec_num() != value,
        },
{
    match value {
        1 => Ok(Action::GuildUpdate),
        10 => Ok(Action::Channel(ActionChannel::Create)),
        11 => Ok(Action::Channel(ActionChannel::Update)),
        12 => Ok(Action::Channel(ActionChannel::Delete)),
        13 => Ok(Action::ChannelOverwrite(ActionChannelOverwrite::Create)),
        14 => Ok(Action::ChannelOverwrite(ActionChannelOverwrite::Update)),
        15 => Ok(Action::ChannelOverwrite(ActionChannelOverwrite::Delete)),
        20 => Ok(Action::Member(ActionMember::Kick)),
        21 => Ok(Action::Member(ActionMember::Prune)),
        22 => Ok(Action::Member(ActionMember::BanAdd)),
        23 => Ok(Action::Member(ActionMember::BanRemove)),
        24 => Ok(Action::Member(ActionMember::Update)),
        25 => Ok(Action::Member(ActionMember::RoleUpdate)),
        30 => Ok(Action::Role(ActionRole::Create)),
        31 => Ok(Action::Role(ActionRole::Update)),
        32 => Ok(Action::Role(ActionRole::Delete)),
        40 => Ok(Action::Invite(ActionInvite::Create)),
        41 => Ok(Action::Invite(ActionInvite::Update)),
        42 => Ok(Action::Invite(ActionInvite::Delete)),
        50 => Ok(Action::Webhook(ActionWebhook::Create)),
        51 => Ok(Action::Webhook(ActionWebhook::Update)),
        52 => Ok(Action::Webhook(ActionWebhook::Delete)),
        60 => Ok(Action::Emoji(ActionEmoji::Create)),
        61 => Ok(Action::Emoji(ActionEmoji::Delete)),
        62 => Ok(Action::Emoji(ActionEmoji::Update)),
        72 => Ok(Action::MessageDelete),
        _ => Err(value),
    }
}

/// One thing that an action changed.
#[derive(Clone, Debug)]
pub struct Change {
    /// What was changed.
    pub name: String,
    /// The value before.
    pub old: String,
    /// The value after.
    pub new: String,
}

/// The audit log of a guild.
#[derive(Clone, Debug)]
pub struct AuditLogs {
    /// The entries, by the entry's identifier.
    pub entries: HashMap<u64, AuditLogEntry>,
    /// The webhooks that the entries speak of.
    pub webhooks: Vec<Webhook>,
    /// The users that the entries speak of.
    pub users: Vec<User>,
}

/// Whether the entry at `i` is the last one with its identifier.
pub open spec fn is_last_of_its_id(entries: Seq<AuditLogEntry>, i: int) -> bool {
    &&& 0 <= i < entries.len()
    &&& forall|j: int| i < j < entries.len() ==> (#[trigger] entries[j]).id.0 != entries[i].id.0
}

impl AuditLogs {
    /// The audit log of the given entries, each of them under its
    /// identifier. Of entries with the same identifier the last one stays.
    pub fn from_parts(entries: Vec<AuditLogEntry>, webhooks: Vec<Webhook>, users: Vec<User>) -> (r:
        AuditLogs)
        ensures
            r.webhooks == webhooks,
            r.users == users,
            forall|id: u64|
                r.entries@.contains_key(id) <==> exists|i: int|
                    0 <= i < entries@.len() && (#[trigger] entries@[i]).id.0 == id,
            forall|i: int| #[trigger]
                is_last_of_its_id(entries@, i) ==> r.entries@[entries@[i].id.0] == entries@[i],
    {
        broadcast use vstd::std_specs::hash::group_hash_axioms;

        let ghost all = entries@;
        let mut rest = entries;
        let mut by_id: HashMap<u64, AuditLogEntry> = HashMap::new();
        while rest.len() > 0
            invariant
                rest@.len() <= all.len(),
                rest@ == all.take(rest@.len() as int),
                forall|id: u64|
                    by_id@.contains_key(id) <==> exists|i: int|
                        rest@.len() <= i < all.len() && (#[trigger] all[i]).id.0 == id,
                forall|i: int|
                    rest@.len() <= i && #[trigger] is_last_of_its_id(all, i) ==> by_id@[all[i].id.0]
                        == all[i],
            decreases rest@.len(),
        {
            let ghost before = by_id@;
            let ghost at = rest@.len() - 1;
            let entry = rest.pop().unwrap();
            assert(entry == all[at]);
            let id: u64 = entry.id.0;
            if !by_id.contains_key(&id) {
                by_id.insert(id, entry);
            }
            proof {
                assert forall|other: u64|
                    by_id@.contains_key(other) <==> exists|i: int|
                        at <= i < all.len() && (#[trigger] all[i]).id.0 == other by {
                    if before.contains_key(other) {
                        let i = choose|i: int|
                            at + 1 <= i < all.len() && (#[trigger] all[i]).id.0 == other;
                        assert(at <= i);
                    }
                    if exists|i: int| at <= i < all.len() && (#[trigger] all[i]).id.0 == other {
                        let i = choose|i: int|
                            at <= i < all.len() && (#[trigger] all[i]).id.0 == other;
                        if i > at {
                            assert(before.contains_key(other));
                        }
                    }
                }
            }
        }
        AuditLogs { entries: by_id, webhooks, users }
    }
}

/// One entry of an audit log.
#[derive(Clone, Debug)]
pub struct AuditLogEntry {
    /// The thing that the action was done to.
    pub target_id: u64,
    /// What was done.
    pub action: Action,
    /// Why it was done, if a reason was given.
    pub reason: Option<String>,
    /// The user that did it.
    pub user_id: UserId,
    /// What it changed.
    pub changes: Option<Vec<Change>>,
    /// The unique identifier of the entry.
    pub id: AuditLogEntryId,
    /// What else is recorded of the action.
    pub options: Option<Options>,
}

/// What else an entry records, depending on the action.
#[derive(Clone, Debug)]
pub struct Options {
    /// The days of inactivity after which members were pruned.
    pub delete_member_days: String,
    /// How many members the prune removed.
    pub members_removed: String,
    /// The channel in which messages were deleted.
    pub channel_id: ChannelId,
    /// How many messages were deleted.
    pub count: u32,
    /// The role or member that an overwrite is for.
    pub id: u64,
    /// Whether the overwrite is for a member or for a role.
    pub kind: String,
    /// The name of the role, if the overwrite is for one.
    pub role_name: String,
}

} // verus!
