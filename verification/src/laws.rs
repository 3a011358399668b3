//! What holds of every resolution of permissions.

use vstd::prelude::*;

use crate::channel::ChannelType;
use crate::guild::Guild;
use crate::id::RoleId;
use crate::permissions::ADMINISTRATOR;
use crate::permissions::ALL_BITS;
use crate::permissions::ATTACH_FILES;
use crate::permissions::EMBED_LINKS;
use crate::permissions::MENTION_EVERYONE;
use crate::permissions::READ_MESSAGES;
use crate::permissions::SEND_MESSAGES;
use crate::permissions::SEND_TTS_MESSAGES;
use crate::permissions::defined_only;
use crate::resolver::GuildView;
use crate::resolver::KEPT_WITHOUT_READ;
use crate::resolver::OverwriteView;
use crate::resolver::SEND_DEPENDENT;
use crate::resolver::VOICE_ONLY;
use crate::resolver::base_permissions;
use crate::resolver::channel_mask;
use crate::resolver::channel_start_mask;
use crate::resolver::held_roles_mask;
use crate::resolver::lemma_held_roles_mask_flags;
use crate::resolver::lemma_union_flags;
use crate::resolver::member_overwrite_applies;
use crate::resolver::member_pass;
use crate::resolver::resolve_channel_permissions;
use crate::resolver::resolve_guild_permissions;
use crate::resolver::role_grants;
use crate::resolver::role_pass;
use crate::resolver::suppress_dependent;

verus! {

/// The owner of a guild has every permission, in the guild and in each
/// channel.
pub proof fn law_owner_has_every_permission(guild: GuildView, channel: u64)
    ensures
        resolve_guild_permissions(guild, guild.owner_id) == ALL_BITS,
        resolve_channel_permissions(guild, channel, guild.owner_id) == ALL_BITS,
{
}

/// A member who holds a role that grants `ADMINISTRATOR` has every
/// permission, in the guild and in each channel, provided that the guild has
/// its default role. (The default role, which every member holds without
/// its being listed, is the subject of `law_administrator_by_default_role`.)
pub proof fn law_administrator_has_every_permission(
    guild: GuildView,
    channel: u64,
    user: u64,
    i: int,
)
    requires
        guild.members.contains_key(user),
        0 <= i < guild.members[user].len(),
        role_grants(guild.roles, guild.members[user][i], ADMINISTRATOR),
        user == guild.owner_id || guild.roles.contains_key(guild.id),
    ensures
        resolve_guild_permissions(guild, user) == ALL_BITS,
        resolve_channel_permissions(guild, channel, user) == ALL_BITS,
{
    lemma_held_roles_mask_flags(guild.roles, guild.members[user], ADMINISTRATOR);
    lemma_union_flags(
        guild.roles[guild.id],
        held_roles_mask(guild.roles, guild.members[user]),
        ADMINISTRATOR,
    );
}

/// A member has every permission, in the guild and in each channel, also
/// where it is the default role that grants `ADMINISTRATOR`: every member
/// holds the default role.
pub proof fn law_administrator_by_default_role(guild: GuildView, channel: u64, user: u64)
    requires
        guild.members.contains_key(user),
        guild.roles.contains_key(guild.id),
        guild.roles[guild.id] & ADMINISTRATOR != 0,
    ensures
        resolve_guild_permissions(guild, user) == ALL_BITS,
        resolve_channel_permissions(guild, channel, user) == ALL_BITS,
{
    lemma_union_flags(
        guild.roles[guild.id],
        held_roles_mask(guild.roles, guild.members[user]),
        ADMINISTRATOR,
    );
}

/// What is resolved depends on nothing but what the rules read of a guild:
/// guilds with the same view give the same permissions, call after call.
pub proof fn law_resolution_is_a_function_of_the_view(a: Guild, b: Guild, channel: u64, user: u64)
    requires
        a@ == b@,
    ensures
        resolve_guild_permissions(a@, user) == resolve_guild_permissions(b@, user),
        resolve_channel_permissions(a@, channel, user) == resolve_channel_permissions(
            b@,
            channel,
            user,
        ),
{
}

/// Masks that agree on `flags` still agree on them after the same overwrite,
/// and an overwrite that allows `flags` sets them in any mask.
proof fn lemma_overwrite_bitwise(a: u64, b: u64, allow: u64, deny: u64, flags: u64)
    by (bit_vector)
    ensures
        a & flags == b & flags ==> ((a & !deny) | allow) & flags == ((b & !deny) | allow) & flags,
        allow & flags == flags ==> ((a & !deny) | allow) & flags == flags,
{
}

/// The role overwrites leave masks that agree on `flags` in agreement on
/// them.
proof fn lemma_role_pass_bitwise(
    guild_id: u64,
    held: Seq<RoleId>,
    overwrites: Seq<OverwriteView>,
    a: u64,
    b: u64,
    flags: u64,
)
    requires
        a & flags == b & flags,
    ensures
        role_pass(guild_id, held, overwrites, a) & flags == role_pass(
            guild_id,
            held,
            overwrites,
            b,
        ) & flags,
    decreases overwrites.len(),
{
    if overwrites.len() > 0 {
        let front = overwrites.drop_last();
        lemma_role_pass_bitwise(guild_id, held, front, a, b, flags);
        lemma_overwrite_bitwise(
            role_pass(guild_id, held, front, a),
            role_pass(guild_id, held, front, b),
            overwrites.last().allow,
            overwrites.last().deny,
            flags,
        );
    }
}

/// The overwrites for a member leave masks that agree on `flags` in
/// agreement on them.
proof fn lemma_member_pass_bitwise(
    user: u64,
    overwrites: Seq<OverwriteView>,
    a: u64,
    b: u64,
    flags: u64,
)
    requires
        a & flags == b & flags,
    ensures
        member_pass(user, overwrites, a) & flags == member_pass(user, overwrites, b) & flags,
    decreases overwrites.len(),
{
    if overwrites.len() > 0 {
        let front = overwrites.drop_last();
        lemma_member_pass_bitwise(user, front, a, b, flags);
        lemma_overwrite_bitwise(
            member_pass(user, front, a),
            member_pass(user, front, b),
            overwrites.last().allow,
            overwrites.last().deny,
            flags,
        );
    }
}

/// Where one of the overwrites for a member allows `flags`, what the
/// overwrites for the member leave of `flags` does not depend on the mask
/// that they started from.
proof fn lemma_member_pass_decides(
    user: u64,
    overwrites: Seq<OverwriteView>,
    j: int,
    a: u64,
    b: u64,
    flags: u64,
)
    requires
        0 <= j < overwrites.len(),
        member_overwrite_applies(user, overwrites[j]),
        overwrites[j].allow & flags == flags,
    ensures
        member_pass(user, overwrites, a) & flags == member_pass(user, overwrites, b) & flags,
    decreases overwrites.len(),
{
    let front = overwrites.drop_last();
    let last = overwrites.last();
    if j < overwrites.len() - 1 {
        lemma_member_pass_decides(user, front, j, a, b, flags);
    }
    lemma_overwrite_bitwise(
        member_pass(user, front, a),
        member_pass(user, front, b),
        last.allow,
        last.deny,
        flags,
    );
    lemma_overwrite_bitwise(
        member_pass(user, front, b),
        member_pass(user, front, a),
        last.allow,
        last.deny,
        flags,
    );
}

/// How `suppress_dependent` treats a set of flags and the voice flags.
proof fn lemma_suppress_bitwise(mask: u64, flags: u64)
    by (bit_vector)
    ensures
        suppress_dependent(mask) & flags == flags <==> mask & flags == flags && (flags
            & SEND_DEPENDENT == 0 || mask & SEND_MESSAGES != 0) && (mask & READ_MESSAGES != 0
            || flags & !KEPT_WITHOUT_READ == 0),
        suppress_dependent(mask) & VOICE_ONLY == if mask & READ_MESSAGES != 0 {
            mask & VOICE_ONLY
        } else {
            0
        },
        (mask | READ_MESSAGES) & VOICE_ONLY == mask & VOICE_ONLY,
        (mask & !VOICE_ONLY) & VOICE_ONLY == 0u64 & VOICE_ONLY,
        0u64 & VOICE_ONLY == 0,
        ALL_BITS & VOICE_ONLY != 0,
        mask & READ_MESSAGES != 0 ==> suppress_dependent(mask) & READ_MESSAGES == READ_MESSAGES,
        (mask | READ_MESSAGES) & READ_MESSAGES != 0,
        ALL_BITS & READ_MESSAGES == READ_MESSAGES,
        mask & SEND_MESSAGES == 0 ==> suppress_dependent(mask) & SEND_DEPENDENT == 0,
        SEND_DEPENDENT == ATTACH_FILES | MENTION_EVERYONE | SEND_TTS_MESSAGES | EMBED_LINKS,
        mask & flags == flags ==> (mask | READ_MESSAGES) & flags == flags,
        defined_only(flags) ==> ALL_BITS & flags == flags,
{
}

/// `READ_MESSAGES` where the channel is the guild's default channel, and
/// nothing elsewhere: what a channel grants to every member whatever its
/// overwrites say.
pub open spec fn granted_by_default_channel(guild: GuildView, channel: u64) -> u64 {
    if channel == guild.id {
        READ_MESSAGES
    } else {
        0
    }
}

/// Whether, on a channel where an overwrite for the user in person allows
/// `flags`, nothing takes `flags` away again. That is so for the owner and
/// for an administrator, and for someone who is no member where the default
/// role holds `flags`. For any other member it asks three things: that the
/// overwrites for the member, taken in order from the empty mask, leave
/// `flags` allowed (but for what the default channel grants anyway); that
/// those of the flags that depend on `SEND_MESSAGES` have it; and that those
/// that need sight of the channel have `READ_MESSAGES`. A guild without its
/// default role grants nothing to anyone but the owner.
pub open spec fn member_overwrite_prevails(
    guild: GuildView,
    channel: u64,
    user: u64,
    flags: u64,
) -> bool {
    if user == guild.owner_id {
        true
    } else if !guild.roles.contains_key(guild.id) {
        false
    } else if !guild.members.contains_key(user) {
        guild.roles[guild.id] & flags == flags
    } else if base_permissions(guild, user) & ADMINISTRATOR != 0 {
        true
    } else {
        let mask = channel_mask(guild, channel, user);
        let allowed = member_pass(user, guild.channels[channel].overwrites, 0)
            | granted_by_default_channel(guild, channel);
        &&& allowed & flags == flags
        &&& flags & SEND_DEPENDENT == 0 || mask & SEND_MESSAGES != 0
        &&& mask & READ_MESSAGES != 0 || flags & !KEPT_WITHOUT_READ == 0
    }
}

/// On a channel where an overwrite for the user in person allows `flags`,
/// a member who is neither owner nor administrator has `flags` exactly when
/// the three conditions of `member_overwrite_prevails` hold.
proof fn lemma_member_overwrite_decides(
    guild: GuildView,
    channel: u64,
    user: u64,
    flags: u64,
    j: int,
)
    requires
        guild.channels.contains_key(channel),
        0 <= j < guild.channels[channel].overwrites.len(),
        member_overwrite_applies(user, guild.channels[channel].overwrites[j]),
        guild.channels[channel].overwrites[j].allow & flags == flags,
    ensures
        suppress_dependent(channel_mask(guild, channel, user)) & flags == flags <==> {
            let mask = channel_mask(guild, channel, user);
            let allowed = member_pass(user, guild.channels[channel].overwrites, 0)
                | granted_by_default_channel(guild, channel);
            &&& allowed & flags == flags
            &&& flags & SEND_DEPENDENT == 0 || mask & SEND_MESSAGES != 0
            &&& mask & READ_MESSAGES != 0 || flags & !KEPT_WITHOUT_READ == 0
        },
{
    let overwrites = guild.channels[channel].overwrites;
    let after_roles = role_pass(
        guild.id,
        guild.members[user],
        overwrites,
        channel_start_mask(guild.channels[channel], base_permissions(guild, user)),
    );
    let merged = member_pass(user, overwrites, after_roles);
    let from_empty = member_pass(user, overwrites, 0);
    let extra = granted_by_default_channel(guild, channel);
    let mask = channel_mask(guild, channel, user);
    lemma_member_pass_decides(user, overwrites, j, after_roles, 0, flags);
    lemma_same_flags_after_union(merged, from_empty, extra, flags);
    assert(mask == merged | extra) by {
        lemma_same_flags_after_union(merged, merged, 0, flags);
    }
    lemma_suppress_bitwise(mask, flags);
}

/// Masks that agree on `flags` still agree on them after a union with the
/// same mask, and a union with nothing changes nothing.
proof fn lemma_same_flags_after_union(a: u64, b: u64, extra: u64, flags: u64)
    by (bit_vector)
    ensures
        a & flags == b & flags ==> (a | extra) & flags == (b | extra) & flags,
        a | 0 == a,
        flags != 0 ==> 0u64 & flags != flags,
{
}

/// An overwrite for a member wins over an overwrite for a role: where a
/// channel has a role overwrite that denies `flags` and an overwrite for the
/// user in person that allows them, the user has `flags` in the channel,
/// wherever in the list the two stand, as long as nothing takes them away
/// again (`member_overwrite_prevails`).
pub proof fn law_member_overwrite_wins(
    guild: GuildView,
    channel: u64,
    user: u64,
    flags: u64,
    i: int,
    j: int,
)
    requires
        defined_only(flags),
        guild.channels.contains_key(channel),
        0 <= i < guild.channels[channel].overwrites.len(),
        guild.channels[channel].overwrites[i].kind is Role,
        guild.channels[channel].overwrites[i].deny & flags == flags,
        0 <= j < guild.channels[channel].overwrites.len(),
        member_overwrite_applies(user, guild.channels[channel].overwrites[j]),
        guild.channels[channel].overwrites[j].allow & flags == flags,
        member_overwrite_prevails(guild, channel, user, flags),
    ensures
        resolve_channel_permissions(guild, channel, user) & flags == flags,
{
    lemma_member_overwrite_decides(guild, channel, user, flags, j);
    lemma_suppress_bitwise(0, flags);
}

/// The other direction of `law_member_overwrite_wins`: where the user has
/// the flags in such a channel, `member_overwrite_prevails` holds, so that
/// law leaves out no case in which the flags are there.
pub proof fn law_member_overwrite_wins_only_then(
    guild: GuildView,
    channel: u64,
    user: u64,
    flags: u64,
    j: int,
)
    requires
        flags != 0,
        guild.channels.contains_key(channel),
        0 <= j < guild.channels[channel].overwrites.len(),
        member_overwrite_applies(user, guild.channels[channel].overwrites[j]),
        guild.channels[channel].overwrites[j].allow & flags == flags,
        resolve_channel_permissions(guild, channel, user) & flags == flags,
    ensures
        member_overwrite_prevails(guild, channel, user, flags),
{
    lemma_member_overwrite_decides(guild, channel, user, flags, j);
    lemma_same_flags_after_union(0, 0, 0, flags);
}

/// Whether voice flags reach a user in a text channel after all: the owner
/// and an administrator have every flag, someone who is no member has what
/// the default role holds, and for any other member the channel's own
/// overwrites may allow a voice flag, which stays if the member can read the
/// channel.
pub open spec fn voice_flags_reach_text_channel(guild: GuildView, channel: u64, user: u64) -> bool {
    if user == guild.owner_id {
        true
    } else if !guild.roles.contains_key(guild.id) {
        false
    } else if !guild.members.contains_key(user) {
        guild.roles[guild.id] & VOICE_ONLY != 0
    } else if base_permissions(guild, user) & ADMINISTRATOR != 0 {
        true
    } else {
        let overwrites = guild.channels[channel].overwrites;
        let from_empty = member_pass(
            user,
            overwrites,
            role_pass(guild.id, guild.members[user], overwrites, 0),
        );
        from_empty & VOICE_ONLY != 0 && channel_mask(guild, channel, user) & READ_MESSAGES != 0
    }
}

/// In a text channel no voice flag comes from a role: a member who is
/// neither owner nor administrator has none, unless the channel's own
/// overwrites allow one (`voice_flags_reach_text_channel`).
pub proof fn law_text_channel_has_no_voice_flags(guild: GuildView, channel: u64, user: u64)
    requires
        guild.channels.contains_key(channel),
        guild.channels[channel].kind == ChannelType::Text,
        !voice_flags_reach_text_channel(guild, channel, user),
    ensures
        resolve_channel_permissions(guild, channel, user) & VOICE_ONLY == 0,
{
    lemma_voice_flags_in_text_channel(guild, channel, user);
    lemma_suppress_bitwise(0, 0);
}

/// The other direction of `law_text_channel_has_no_voice_flags`: in each of
/// the cases that it leaves out, the user does have a voice flag.
pub proof fn law_text_channel_voice_flags_only_then(guild: GuildView, channel: u64, user: u64)
    requires
        guild.channels.contains_key(channel),
        guild.channels[channel].kind == ChannelType::Text,
        voice_flags_reach_text_channel(guild, channel, user),
    ensures
        resolve_channel_permissions(guild, channel, user) & VOICE_ONLY != 0,
{
    lemma_voice_flags_in_text_channel(guild, channel, user);
    lemma_suppress_bitwise(0, 0);
}

/// The voice flags that the overwrites of a text channel leave are those
/// that they would leave of the empty mask, and they stay exactly when the
/// channel can be read.
proof fn lemma_voice_flags_in_text_channel(guild: GuildView, channel: u64, user: u64)
    requires
        guild.channels.contains_key(channel),
        guild.channels[channel].kind == ChannelType::Text,
    ensures
        suppress_dependent(channel_mask(guild, channel, user)) & VOICE_ONLY == if channel_mask(
            guild,
            channel,
            user,
        ) & READ_MESSAGES != 0 {
            member_pass(
                user,
                guild.channels[channel].overwrites,
                role_pass(guild.id, guild.members[user], guild.channels[channel].overwrites, 0),
            ) & VOICE_ONLY
        } else {
            0
        },
{
    let overwrites = guild.channels[channel].overwrites;
    let held = guild.members[user];
    let start = channel_start_mask(guild.channels[channel], base_permissions(guild, user));
    let after_roles = role_pass(guild.id, held, overwrites, start);
    let merged = member_pass(user, overwrites, after_roles);
    let mask = channel_mask(guild, channel, user);
    lemma_suppress_bitwise(base_permissions(guild, user), 0);
    lemma_role_pass_bitwise(guild.id, held, overwrites, start, 0, VOICE_ONLY);
    lemma_member_pass_bitwise(
        user,
        overwrites,
        after_roles,
        role_pass(guild.id, held, overwrites, 0),
        VOICE_ONLY,
    );
    lemma_suppress_bitwise(merged, 0);
    lemma_suppress_bitwise(mask, 0);
}

/// The default channel can always be read: in the channel that has the
/// guild's own identifier, the owner and every member have `READ_MESSAGES`,
/// whatever the overwrites deny, provided that the guild has its default
/// role.
pub proof fn law_default_channel_is_readable(guild: GuildView, user: u64)
    requires
        user == guild.owner_id || guild.members.contains_key(user),
        user == guild.owner_id || guild.roles.contains_key(guild.id),
    ensures
        resolve_channel_permissions(guild, guild.id, user) & READ_MESSAGES == READ_MESSAGES,
{
    let overwrites = guild.channels[guild.id].overwrites;
    let merged = if guild.channels.contains_key(guild.id) {
        member_pass(
            user,
            overwrites,
            role_pass(
                guild.id,
                guild.members[user],
                overwrites,
                channel_start_mask(guild.channels[guild.id], base_permissions(guild, user)),
            ),
        )
    } else {
        base_permissions(guild, user)
    };
    lemma_suppress_bitwise(merged, 0);
    lemma_suppress_bitwise(merged | READ_MESSAGES, 0);
}

/// Without `SEND_MESSAGES` the flags that depend on it go: a mask that
/// lacks it has, after `suppress_dependent`, none of `ATTACH_FILES`,
/// `MENTION_EVERYONE`, `SEND_TTS_MESSAGES` and `EMBED_LINKS`.
pub proof fn law_dependent_flags_need_send(mask: u64)
    requires
        mask & SEND_MESSAGES == 0,
    ensures
        suppress_dependent(mask) & (ATTACH_FILES | MENTION_EVERYONE | SEND_TTS_MESSAGES
            | EMBED_LINKS) == 0,
{
    lemma_suppress_bitwise(mask, 0);
}

/// The same of a whole resolution: a member who is neither owner nor
/// administrator, and whose mask in the channel lacks `SEND_MESSAGES` before
/// the dependent flags are taken away, ends without any of the four.
pub proof fn law_resolved_dependent_flags_need_send(guild: GuildView, channel: u64, user: u64)
    requires
        user != guild.owner_id,
        guild.roles.contains_key(guild.id),
        guild.members.contains_key(user),
        base_permissions(guild, user) & ADMINISTRATOR == 0,
        channel_mask(guild, channel, user) & SEND_MESSAGES == 0,
    ensures
        resolve_channel_permissions(guild, channel, user) & (ATTACH_FILES | MENTION_EVERYONE
            | SEND_TTS_MESSAGES | EMBED_LINKS) == 0,
{
    law_dependent_flags_need_send(channel_mask(guild, channel, user));
}

} // verus!
