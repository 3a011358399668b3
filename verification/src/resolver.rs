//! The rules by which a user's effective permissions follow from a guild's
//! roles and a channel's overwrites.

use vstd::prelude::*;

use crate::channel::ChannelType;
use crate::channel::PermissionOverwriteType;
use crate::id::ChannelId;
use crate::id::RoleId;
use crate::id::UserId;
use crate::permissions::Permissions;
use crate::permissions::ADMINISTRATOR;
use crate::permissions::ALL_BITS;
use crate::permissions::ATTACH_FILES;
use crate::permissions::BAN_MEMBERS;
use crate::permissions::CHANGE_NICKNAME;
use crate::permissions::CONNECT;
use crate::permissions::DEAFEN_MEMBERS;
use crate::permissions::EMBED_LINKS;
use crate::permissions::KICK_MEMBERS;
use crate::permissions::MANAGE_GUILD;
use crate::permissions::MANAGE_NICKNAMES;
use crate::permissions::MENTION_EVERYONE;
use crate::permissions::MOVE_MEMBERS;
use crate::permissions::MUTE_MEMBERS;
use crate::permissions::READ_MESSAGES;
use crate::permissions::SEND_MESSAGES;
use crate::permissions::SEND_TTS_MESSAGES;
use crate::permissions::SPEAK;
use crate::permissions::USE_VAD;

verus! {

/// The flags that only mean something in a voice channel.
pub const VOICE_ONLY: u64 = CONNECT | SPEAK | MUTE_MEMBERS | DEAFEN_MEMBERS | MOVE_MEMBERS | USE_VAD;

/// The flags that are void without `SEND_MESSAGES`.
pub const SEND_DEPENDENT: u64 = SEND_TTS_MESSAGES | MENTION_EVERYONE | EMBED_LINKS | ATTACH_FILES;

/// The flags that stay with a user who cannot read the channel.
pub const KEPT_WITHOUT_READ: u64 = KICK_MEMBERS | BAN_MEMBERS | ADMINISTRATOR | MANAGE_GUILD
    | CHANGE_NICKNAME | MANAGE_NICKNAMES;

/// What the rules read of a permission overwrite.
pub struct OverwriteView {
    pub kind: PermissionOverwriteType,
    pub allow: u64,
    pub deny: u64,
}

/// What the rules read of a channel.
pub struct ChannelView {
    pub kind: ChannelType,
    pub overwrites: Seq<OverwriteView>,
}

/// What the rules read of a guild: its own identifier, its owner, the mask of
/// each role, the roles that each member holds, and its channels.
pub struct GuildView {
    pub id: u64,
    pub owner_id: u64,
    pub roles: Map<u64, u64>,
    pub members: Map<u64, Seq<RoleId>>,
    pub channels: Map<u64, ChannelView>,
}

/// The union of the masks of those of the roles `held` that the guild has.
pub open spec fn held_roles_mask(roles: Map<u64, u64>, held: Seq<RoleId>) -> u64
    decreases held.len(),
{
    if held.len() == 0 {
        0
    } else {
        let before = held_roles_mask(roles, held.drop_last());
        if roles.contains_key(held.last().0) {
            before | roles[held.last().0]
        } else {
            before
        }
    }
}

/// Whether the guild has the role and the role's mask holds one of `flags`.
pub open spec fn role_grants(roles: Map<u64, u64>, role: RoleId, flags: u64) -> bool {
    roles.contains_key(role.0) && roles[role.0] & flags != 0
}

/// A union holds one of `flags` exactly when one of its two parts does.
pub proof fn lemma_union_flags(a: u64, b: u64, flags: u64)
    by (bit_vector)
    ensures
        (a | b) & flags != 0 <==> a & flags != 0 || b & flags != 0,
        0u64 & flags == 0,
        a | 0 == a,
        (a | b) | flags == a | (b | flags),
{
}

/// Taking one more held role into account adds the mask of that role, if the
/// guild has it.
pub proof fn lemma_held_roles_mask_step(roles: Map<u64, u64>, held: Seq<RoleId>, i: int)
    requires
        0 <= i < held.len(),
    ensures
        held_roles_mask(roles, held.take(i + 1)) == if roles.contains_key(held[i].0) {
            held_roles_mask(roles, held.take(i)) | roles[held[i].0]
        } else {
            held_roles_mask(roles, held.take(i))
        },
{
    assert(held.take(i + 1).drop_last() =~= held.take(i));
}

/// No held role taken into account gives the empty mask, and all of them
/// give the mask of the whole list.
pub proof fn lemma_held_roles_mask_ends(roles: Map<u64, u64>, held: Seq<RoleId>)
    ensures
        held_roles_mask(roles, held.take(0)) == 0,
        held.take(held.len() as int) == held,
{
    assert(held.take(held.len() as int) =~= held);
}

/// The union of the held roles' masks holds one of `flags` exactly when one
/// of the held roles, which the guild has, grants one of them.
pub proof fn lemma_held_roles_mask_flags(roles: Map<u64, u64>, held: Seq<RoleId>, flags: u64)
    ensures
        held_roles_mask(roles, held) & flags != 0 <==> exists|i: int|
            0 <= i < held.len() && #[trigger] role_grants(roles, held[i], flags),
    decreases held.len(),
{
    if held.len() == 0 {
        lemma_union_flags(0, 0, flags);
    } else {
        let front = held.drop_last();
        let before = held_roles_mask(roles, front);
        lemma_held_roles_mask_flags(roles, front, flags);
        if roles.contains_key(held.last().0) {
            lemma_union_flags(before, roles[held.last().0], flags);
        }
        if held_roles_mask(roles, held) & flags != 0 {
            if before & flags != 0 {
                let i = choose|i: int|
                    0 <= i < front.len() && #[trigger] role_grants(roles, front[i], flags);
                assert(role_grants(roles, held[i], flags));
            } else {
                assert(role_grants(roles, held[held.len() - 1], flags));
            }
        }
        if exists|i: int| 0 <= i < held.len() && #[trigger] role_grants(roles, held[i], flags) {
            let i = choose|i: int|
                0 <= i < held.len() && #[trigger] role_grants(roles, held[i], flags);
            if i < held.len() - 1 {
                assert(role_grants(roles, front[i], flags));
            }
        }
    }
}

/// The permissions of a user in the guild as a whole: every flag for the
/// owner; nothing where the guild has no default role; the mask of the
/// default role for someone who is no member; and for a member the mask of
/// the default role together with the masks of the roles held, or every flag
/// if `ADMINISTRATOR` is among them.
pub open spec fn resolve_guild_permissions(guild: GuildView, user: u64) -> u64 {
    if user == guild.owner_id {
        ALL_BITS
    } else if !guild.roles.contains_key(guild.id) {
        0
    } else if !guild.members.contains_key(user) {
        guild.roles[guild.id]
    } else if base_permissions(guild, user) & ADMINISTRATOR != 0 {
        ALL_BITS
    } else {
        base_permissions(guild, user)
    }
}

/// A mask after one overwrite: what the overwrite denies is cleared, then
/// what it allows is set.
pub open spec fn apply_overwrite(mask: u64, overwrite: OverwriteView) -> u64 {
    (mask & !overwrite.deny) | overwrite.allow
}

/// Whether an overwrite is for a role that counts for a member who holds the
/// roles `held`: the default role, or one of those held.
pub open spec fn role_overwrite_applies(
    guild_id: u64,
    held: Seq<RoleId>,
    overwrite: OverwriteView,
) -> bool {
    match overwrite.kind {
        PermissionOverwriteType::Role(role) => role.0 == guild_id || held.contains(role),
        PermissionOverwriteType::Member(_) => false,
    }
}

/// Whether an overwrite is for the user in person.
pub open spec fn member_overwrite_applies(user: u64, overwrite: OverwriteView) -> bool {
    overwrite.kind == PermissionOverwriteType::Member(UserId(user))
}

/// A mask after the role overwrites that apply, taken in the order of the
/// list.
pub open spec fn role_pass(
    guild_id: u64,
    held: Seq<RoleId>,
    overwrites: Seq<OverwriteView>,
    mask: u64,
) -> u64
    decreases overwrites.len(),
{
    if overwrites.len() == 0 {
        mask
    } else {
        let before = role_pass(guild_id, held, overwrites.drop_last(), mask);
        if role_overwrite_applies(guild_id, held, overwrites.last()) {
            apply_overwrite(before, overwrites.last())
        } else {
            before
        }
    }
}

/// A mask after the overwrites for the user in person, taken in the order of
/// the list.
pub open spec fn member_pass(user: u64, overwrites: Seq<OverwriteView>, mask: u64) -> u64
    decreases overwrites.len(),
{
    if overwrites.len() == 0 {
        mask
    } else {
        let before = member_pass(user, overwrites.drop_last(), mask);
        if member_overwrite_applies(user, overwrites.last()) {
            apply_overwrite(before, overwrites.last())
        } else {
            before
        }
    }
}

/// The mask of the default role together with the masks of the roles that a
/// member holds.
pub open spec fn base_permissions(guild: GuildView, user: u64) -> u64 {
    guild.roles[guild.id] | held_roles_mask(guild.roles, guild.members[user])
}

/// The mask with which the overwrites of a channel start: the base mask,
/// without the voice flags if the channel is a text channel.
pub open spec fn channel_start_mask(channel: ChannelView, base: u64) -> u64 {
    if channel.kind == ChannelType::Text {
        base & !VOICE_ONLY
    } else {
        base
    }
}

/// The mask of a member, who is no administrator, in a channel before the
/// dependent flags are taken away: the base mask after the channel's
/// overwrites, first those for roles and then those for the member, and
/// `READ_MESSAGES` in any case if the channel is the default channel. A
/// channel that the guild does not have leaves the base mask as it is.
pub open spec fn channel_mask(guild: GuildView, channel: u64, user: u64) -> u64 {
    let base = base_permissions(guild, user);
    let merged = if guild.channels.contains_key(channel) {
        let overwrites = guild.channels[channel].overwrites;
        member_pass(
            user,
            overwrites,
            role_pass(
                guild.id,
                guild.members[user],
                overwrites,
                channel_start_mask(guild.channels[channel], base),
            ),
        )
    } else {
        base
    };
    if channel == guild.id {
        merged | READ_MESSAGES
    } else {
        merged
    }
}

/// A mask without the flags that mean nothing in it: without `SEND_MESSAGES`
/// the flags that depend on it go, and then, without `READ_MESSAGES`, all but
/// the flags that need no sight of the channel.
pub open spec fn suppress_dependent(mask: u64) -> u64 {
    let sendable = if mask & SEND_MESSAGES == 0 {
        mask & !SEND_DEPENDENT
    } else {
        mask
    };
    if sendable & READ_MESSAGES == 0 {
        sendable & KEPT_WITHOUT_READ
    } else {
        sendable
    }
}

/// The permissions of a user in one channel of the guild: as in the guild as
/// a whole for the owner, without a default role, for someone who is no
/// member and for an administrator; and for any other member the mask that
/// the channel's overwrites leave, without the flags that mean nothing in it.
pub open spec fn resolve_channel_permissions(guild: GuildView, channel: u64, user: u64) -> u64 {
    if user == guild.owner_id {
        ALL_BITS
    } else if !guild.roles.contains_key(guild.id) {
        0
    } else if !guild.members.contains_key(user) {
        guild.roles[guild.id]
    } else if base_permissions(guild, user) & ADMINISTRATOR != 0 {
        ALL_BITS
    } else {
        suppress_dependent(channel_mask(guild, channel, user))
    }
}

/// Something amiss in the data of a guild that a resolution came across.
/// None of them stops the resolution.
#[derive(Clone, Copy, Debug, PartialEq, Eq, Structural)]
pub enum Anomaly {
    /// The guild has no default role. Nobody but the owner has any
    /// permission then.
    MissingDefaultRole,
    /// A member holds a role that the guild does not have. The role grants
    /// nothing.
    MissingRole(RoleId),
    /// The guild does not have the channel. The permissions are those of the
    /// guild as a whole, without the flags that mean nothing in them.
    MissingChannel(ChannelId),
}

/// The held roles that the guild does not have, in the order in which they
/// are held.
pub open spec fn dangling_roles(roles: Map<u64, u64>, held: Seq<RoleId>) -> Seq<Anomaly>
    decreases held.len(),
{
    if held.len() == 0 {
        Seq::empty()
    } else {
        let before = dangling_roles(roles, held.drop_last());
        if roles.contains_key(held.last().0) {
            before
        } else {
            before.push(Anomaly::MissingRole(held.last()))
        }
    }
}

/// The same, but only as far as `ADMINISTRATOR` is not yet granted, by the
/// mask `start` or by a held role: once it is, no further role is looked at.
pub open spec fn dangling_roles_before_administrator(
    roles: Map<u64, u64>,
    held: Seq<RoleId>,
    start: u64,
) -> Seq<Anomaly>
    decreases held.len(),
{
    if held.len() == 0 {
        Seq::empty()
    } else {
        let before = dangling_roles_before_administrator(roles, held.drop_last(), start);
        if (start | held_roles_mask(roles, held.drop_last())) & ADMINISTRATOR != 0
            || roles.contains_key(held.last().0) {
            before
        } else {
            before.push(Anomaly::MissingRole(held.last()))
        }
    }
}

/// What a resolution for the guild as a whole comes across.
pub open spec fn guild_anomalies(guild: GuildView, user: u64) -> Seq<Anomaly> {
    if user == guild.owner_id {
        Seq::empty()
    } else if !guild.roles.contains_key(guild.id) {
        seq![Anomaly::MissingDefaultRole]
    } else if !guild.members.contains_key(user) {
        Seq::empty()
    } else {
        dangling_roles_before_administrator(
            guild.roles,
            guild.members[user],
            guild.roles[guild.id],
        )
    }
}

/// What a resolution for one channel comes across.
pub open spec fn channel_anomalies(guild: GuildView, channel: u64, user: u64) -> Seq<Anomaly> {
    if user == guild.owner_id {
        Seq::empty()
    } else if !guild.roles.contains_key(guild.id) {
        seq![Anomaly::MissingDefaultRole]
    } else if !guild.members.contains_key(user) {
        Seq::empty()
    } else {
        let dangling = dangling_roles(guild.roles, guild.members[user]);
        if base_permissions(guild, user) & ADMINISTRATOR == 0 && !guild.channels.contains_key(
            channel,
        ) {
            dangling.push(Anomaly::MissingChannel(ChannelId(channel)))
        } else {
            dangling
        }
    }
}

/// Taking one more held role into account adds it to the dangling roles, if
/// the guild does not have it.
pub proof fn lemma_dangling_roles_step(
    roles: Map<u64, u64>,
    held: Seq<RoleId>,
    start: u64,
    i: int,
)
    requires
        0 <= i < held.len(),
    ensures
        dangling_roles(roles, held.take(i + 1)) == if roles.contains_key(held[i].0) {
            dangling_roles(roles, held.take(i))
        } else {
            dangling_roles(roles, held.take(i)).push(Anomaly::MissingRole(held[i]))
        },
        dangling_roles_before_administrator(roles, held.take(i + 1), start) == if (start
            | held_roles_mask(roles, held.take(i))) & ADMINISTRATOR != 0 || roles.contains_key(
            held[i].0,
        ) {
            dangling_roles_before_administrator(roles, held.take(i), start)
        } else {
            dangling_roles_before_administrator(roles, held.take(i), start).push(
                Anomaly::MissingRole(held[i]),
            )
        },
{
    assert(held.take(i + 1).drop_last() =~= held.take(i));
}

/// Once `ADMINISTRATOR` is granted, the roles held after that add nothing
/// to what is found amiss.
pub proof fn lemma_dangling_roles_stop(
    roles: Map<u64, u64>,
    held: Seq<RoleId>,
    start: u64,
    i: int,
)
    requires
        0 <= i <= held.len(),
        (start | held_roles_mask(roles, held.take(i))) & ADMINISTRATOR != 0,
    ensures
        dangling_roles_before_administrator(roles, held, start)
            == dangling_roles_before_administrator(roles, held.take(i), start),
        dangling_roles_before_administrator(roles, held.take(0), start) == Seq::<Anomaly>::empty(),
    decreases held.len() - i,
{
    if i < held.len() {
        lemma_dangling_roles_step(roles, held, start, i);
        lemma_held_roles_mask_step(roles, held, i);
        let so_far = start | held_roles_mask(roles, held.take(i));
        if roles.contains_key(held[i].0) {
            lemma_union_flags(so_far, roles[held[i].0], ADMINISTRATOR);
            lemma_union_flags(start, held_roles_mask(roles, held.take(i)), roles[held[i].0]);
        }
        lemma_dangling_roles_stop(roles, held, start, i + 1);
    } else {
        assert(held.take(i) =~= held);
    }
}

/// Taking one more overwrite into account applies it, if it counts.
pub proof fn lemma_pass_step(
    guild_id: u64,
    held: Seq<RoleId>,
    user: u64,
    overwrites: Seq<OverwriteView>,
    mask: u64,
    i: int,
)
    requires
        0 <= i < overwrites.len(),
    ensures
        role_pass(guild_id, held, overwrites.take(i + 1), mask) == if role_overwrite_applies(
            guild_id,
            held,
            overwrites[i],
        ) {
            apply_overwrite(role_pass(guild_id, held, overwrites.take(i), mask), overwrites[i])
        } else {
            role_pass(guild_id, held, overwrites.take(i), mask)
        },
        member_pass(user, overwrites.take(i + 1), mask) == if member_overwrite_applies(
            user,
            overwrites[i],
        ) {
            apply_overwrite(member_pass(user, overwrites.take(i), mask), overwrites[i])
        } else {
            member_pass(user, overwrites.take(i), mask)
        },
{
    assert(overwrites.take(i + 1).drop_last() =~= overwrites.take(i));
}

/// No overwrite taken into account leaves the mask, and all of them give the
/// pass over the whole list.
pub proof fn lemma_pass_ends(
    guild_id: u64,
    held: Seq<RoleId>,
    user: u64,
    overwrites: Seq<OverwriteView>,
    mask: u64,
)
    ensures
        role_pass(guild_id, held, overwrites.take(0), mask) == mask,
        member_pass(user, overwrites.take(0), mask) == mask,
        overwrites.take(overwrites.len() as int) == overwrites,
{
    assert(overwrites.take(overwrites.len() as int) =~= overwrites);
}

/// The flag groups of the rules are made of defined flags.
pub proof fn lemma_flag_groups_defined()
    by (bit_vector)
    ensures
        ADMINISTRATOR & ALL_BITS == ADMINISTRATOR,
        READ_MESSAGES & ALL_BITS == READ_MESSAGES,
        SEND_MESSAGES & ALL_BITS == SEND_MESSAGES,
        VOICE_ONLY & ALL_BITS == VOICE_ONLY,
        SEND_DEPENDENT & ALL_BITS == SEND_DEPENDENT,
        KEPT_WITHOUT_READ & ALL_BITS == KEPT_WITHOUT_READ,
{
}

/// A single flag is missing from a mask exactly when the mask does not
/// contain it.
pub proof fn lemma_single_flags(mask: u64)
    by (bit_vector)
    ensures
        mask & ADMINISTRATOR != 0 <==> mask & ADMINISTRATOR == ADMINISTRATOR,
        mask & READ_MESSAGES != 0 <==> mask & READ_MESSAGES == READ_MESSAGES,
        mask & SEND_MESSAGES != 0 <==> mask & SEND_MESSAGES == SEND_MESSAGES,
{
}

/// Takes from a mask the flags that mean nothing in it: without
/// `SEND_MESSAGES` the flags that depend on it, and then, without
/// `READ_MESSAGES`, all but the flags that need no sight of the channel.
pub fn suppressed(mask: Permissions) -> (r: Permissions)
    ensures
        r@ == suppress_dependent(mask@),
{
    proof {
        lemma_flag_groups_defined();
    }
    let mut permissions = mask;
    proof {
        lemma_single_flags(permissions@);
    }
    if !permissions.contains(Permissions::from_bits_truncate(SEND_MESSAGES)) {
        permissions = permissions.subtract(Permissions::from_bits_truncate(SEND_DEPENDENT));
    }
    proof {
        lemma_single_flags(permissions@);
    }
    if !permissions.contains(Permissions::from_bits_truncate(READ_MESSAGES)) {
        permissions = permissions.intersect(Permissions::from_bits_truncate(KEPT_WITHOUT_READ));
    }
    permissions
}

} // verus!
