use std::collections::HashMap;

use serenity_model::channel::ChannelType;
use serenity_model::channel::GuildChannel;
use serenity_model::channel::PermissionOverwrite;
use serenity_model::channel::PermissionOverwriteType;
use serenity_model::guild::Guild;
use serenity_model::guild::Member;
use serenity_model::guild::Role;
use serenity_model::guild::VerificationLevel;
use serenity_model::id::ChannelId;
use serenity_model::id::GuildId;
use serenity_model::id::RoleId;
use serenity_model::id::UserId;
use serenity_model::permissions::Permissions;
use serenity_model::permissions::ADMINISTRATOR;
use serenity_model::permissions::ALL_BITS;
use serenity_model::permissions::ATTACH_FILES;
use serenity_model::permissions::BAN_MEMBERS;
use serenity_model::permissions::CONNECT;
use serenity_model::permissions::EMBED_LINKS;
use serenity_model::permissions::KICK_MEMBERS;
use serenity_model::permissions::MANAGE_MESSAGES;
use serenity_model::permissions::MENTION_EVERYONE;
use serenity_model::permissions::READ_MESSAGES;
use serenity_model::permissions::SEND_MESSAGES;
use serenity_model::permissions::SEND_TTS_MESSAGES;
use serenity_model::permissions::SPEAK;
use serenity_model::resolver::suppressed;
use serenity_model::resolver::Anomaly;
use serenity_model::timestamp::Timestamp;
use serenity_model::user::User;

fn mask(bits: u64) -> Permissions {
    Permissions::from_bits(bits).unwrap()
}

fn role(id: u64, bits: u64) -> Role {
    Role {
        id: RoleId(id),
        colour: 0,
        hoist: false,
        managed: false,
        mentionable: false,
        name: format!("role {}", id),
        permissions: mask(bits),
        position: 0,
    }
}

fn member(guild: u64, user: u64, roles: &[u64]) -> Member {
    Member {
        deaf: false,
        guild_id: GuildId(guild),
        joined_at: None,
        mute: false,
        nick: None,
        roles: roles.iter().map(|r| RoleId(*r)).collect(),
        user: User {
            id: UserId(user),
            avatar: None,
            bot: false,
            discriminator: 1,
            name: format!("user {}", user),
        },
    }
}

fn channel(guild: u64, id: u64, kind: ChannelType, overwrites: Vec<PermissionOverwrite>) -> GuildChannel {
    GuildChannel {
        id: ChannelId(id),
        bitrate: None,
        guild_id: GuildId(guild),
        kind,
        last_message_id: None,
        last_pin_timestamp: None,
        name: format!("channel {}", id),
        permission_overwrites: overwrites,
        position: 0,
        topic: None,
        user_limit: None,
    }
}

fn for_role(role: u64, allow: u64, deny: u64) -> PermissionOverwrite {
    PermissionOverwrite {
        allow: mask(allow),
        deny: mask(deny),
        kind: PermissionOverwriteType::Role(RoleId(role)),
    }
}

fn for_member(user: u64, allow: u64, deny: u64) -> PermissionOverwrite {
    PermissionOverwrite {
        allow: mask(allow),
        deny: mask(deny),
        kind: PermissionOverwriteType::Member(UserId(user)),
    }
}

fn guild_of(
    id: u64,
    owner: u64,
    roles: Vec<Role>,
    members: Vec<Member>,
    channels: Vec<GuildChannel>,
) -> Guild {
    let mut role_map = HashMap::new();
    for r in roles {
        role_map.insert(r.id.0, r);
    }
    let mut member_map = HashMap::new();
    for m in members {
        member_map.insert(m.user.id.0, m);
    }
    let mut channel_map = HashMap::new();
    for c in channels {
        channel_map.insert(c.id.0, c);
    }
    Guild {
        afk_channel_id: None,
        afk_timeout: 300,
        channels: channel_map,
        default_message_notifications: 0,
        emojis: HashMap::new(),
        features: vec![],
        icon: None,
        id: GuildId(id),
        joined_at: Timestamp { seconds: 1_500_000_000, nanoseconds: 0, offset: 0 },
        large: false,
        member_count: 2,
        members: member_map,
        mfa_level: 0,
        name: String::from("guild"),
        owner_id: UserId(owner),
        presences: HashMap::new(),
        region: String::from("eu"),
        roles: role_map,
        splash: None,
        verification_level: VerificationLevel::NotRequired,
        voice_states: HashMap::new(),
    }
}

/// Guild 1, owned by user 1; the default role reads, role 2 reads and sends;
/// user 2 holds role 2.
fn scenario(channels: Vec<GuildChannel>) -> Guild {
    guild_of(
        1,
        1,
        vec![role(1, READ_MESSAGES), role(2, READ_MESSAGES | SEND_MESSAGES)],
        vec![member(1, 2, &[2])],
        channels,
    )
}

#[test]
fn default_channel_scenario_gives_read_and_send() {
    let g = scenario(vec![channel(1, 1, ChannelType::Text, vec![])]);
    let got = g.permissions_in(ChannelId(1), UserId(2));
    assert_eq!(got.bits(), READ_MESSAGES | SEND_MESSAGES);
}

#[test]
fn member_overwrite_overrides_role_overwrite() {
    let g = scenario(vec![channel(
        1,
        3,
        ChannelType::Text,
        vec![for_role(2, 0, SEND_MESSAGES), for_member(2, SEND_MESSAGES, 0)],
    )]);
    let got = g.permissions_in(ChannelId(3), UserId(2));
    assert!(got.contains(mask(SEND_MESSAGES)));
    assert_eq!(got.bits(), READ_MESSAGES | SEND_MESSAGES);
}

#[test]
fn member_overwrite_wins_wherever_it_stands_in_the_list() {
    let g = scenario(vec![channel(
        1,
        3,
        ChannelType::Text,
        vec![for_member(2, SEND_MESSAGES, 0), for_role(2, 0, SEND_MESSAGES)],
    )]);
    assert_eq!(g.permissions_in(ChannelId(3), UserId(2)).bits(), READ_MESSAGES | SEND_MESSAGES);
}

#[test]
fn role_overwrite_alone_denies() {
    let g = scenario(vec![channel(1, 3, ChannelType::Text, vec![for_role(2, 0, SEND_MESSAGES)])]);
    assert_eq!(g.permissions_in(ChannelId(3), UserId(2)).bits(), READ_MESSAGES);
}

#[test]
fn later_member_overwrite_takes_the_flag_away_again() {
    let g = scenario(vec![channel(
        1,
        3,
        ChannelType::Text,
        vec![
            for_role(2, 0, SEND_MESSAGES),
            for_member(2, SEND_MESSAGES, 0),
            for_member(2, 0, SEND_MESSAGES),
        ],
    )]);
    assert_eq!(g.permissions_in(ChannelId(3), UserId(2)).bits(), READ_MESSAGES);
}

#[test]
fn allow_wins_over_deny_within_one_overwrite() {
    let g = scenario(vec![channel(
        1,
        3,
        ChannelType::Text,
        vec![for_member(2, MANAGE_MESSAGES, MANAGE_MESSAGES)],
    )]);
    assert_eq!(
        g.permissions_in(ChannelId(3), UserId(2)).bits(),
        READ_MESSAGES | SEND_MESSAGES | MANAGE_MESSAGES
    );
}

#[test]
fn later_role_overwrite_grants_again() {
    let g = guild_of(
        1,
        1,
        vec![role(1, READ_MESSAGES | SEND_MESSAGES), role(2, 0), role(3, 0)],
        vec![member(1, 2, &[2, 3])],
        vec![channel(
            1,
            5,
            ChannelType::Text,
            vec![for_role(2, 0, SEND_MESSAGES), for_role(3, SEND_MESSAGES, 0)],
        )],
    );
    assert_eq!(g.permissions_in(ChannelId(5), UserId(2)).bits(), READ_MESSAGES | SEND_MESSAGES);
}

#[test]
fn overwrite_for_a_role_not_held_is_skipped() {
    let g = scenario(vec![channel(1, 3, ChannelType::Text, vec![for_role(9, MANAGE_MESSAGES, READ_MESSAGES)])]);
    assert_eq!(g.permissions_in(ChannelId(3), UserId(2)).bits(), READ_MESSAGES | SEND_MESSAGES);
}

#[test]
fn overwrite_for_the_default_role_applies_to_every_member() {
    let g = scenario(vec![channel(1, 3, ChannelType::Text, vec![for_role(1, MANAGE_MESSAGES, 0)])]);
    assert_eq!(
        g.permissions_in(ChannelId(3), UserId(2)).bits(),
        READ_MESSAGES | SEND_MESSAGES | MANAGE_MESSAGES
    );
}

#[test]
fn overwrite_for_another_member_is_skipped() {
    let g = scenario(vec![channel(1, 3, ChannelType::Text, vec![for_member(7, MANAGE_MESSAGES, SEND_MESSAGES)])]);
    assert_eq!(g.permissions_in(ChannelId(3), UserId(2)).bits(), READ_MESSAGES | SEND_MESSAGES);
}

#[test]
fn owner_has_every_permission() {
    let g = scenario(vec![channel(1, 3, ChannelType::Text, vec![for_member(1, 0, ALL_BITS)])]);
    assert_eq!(g.member_permissions(UserId(1)), Permissions::all());
    assert_eq!(g.permissions_in(ChannelId(3), UserId(1)), Permissions::all());
    assert_eq!(g.permissions_in(ChannelId(99), UserId(1)).bits(), ALL_BITS);
}

#[test]
fn owner_has_every_permission_without_a_default_role() {
    let g = guild_of(1, 1, vec![], vec![], vec![]);
    assert_eq!(g.member_permissions(UserId(1)).bits(), ALL_BITS);
    assert_eq!(g.permissions_in(ChannelId(1), UserId(1)).bits(), ALL_BITS);
}

#[test]
fn missing_default_role_grants_nothing() {
    let g = guild_of(1, 1, vec![role(2, ADMINISTRATOR)], vec![member(1, 2, &[2])], vec![]);
    assert_eq!(g.member_permissions(UserId(2)), Permissions::empty());
    assert_eq!(g.permissions_in(ChannelId(1), UserId(2)), Permissions::empty());
    assert_eq!(g.member_permissions_anomalies(UserId(2)), vec![Anomaly::MissingDefaultRole]);
    assert_eq!(g.permissions_in_anomalies(ChannelId(1), UserId(2)), vec![Anomaly::MissingDefaultRole]);
}

#[test]
fn someone_who_is_no_member_has_the_default_role() {
    let g = guild_of(
        1,
        1,
        vec![role(1, READ_MESSAGES | ATTACH_FILES | CONNECT)],
        vec![],
        vec![channel(1, 3, ChannelType::Text, vec![for_member(5, SEND_MESSAGES, READ_MESSAGES)])],
    );
    assert_eq!(g.member_permissions(UserId(5)).bits(), READ_MESSAGES | ATTACH_FILES | CONNECT);
    assert_eq!(g.permissions_in(ChannelId(3), UserId(5)).bits(), READ_MESSAGES | ATTACH_FILES | CONNECT);
}

#[test]
fn administrator_role_gives_every_permission() {
    let g = guild_of(
        1,
        1,
        vec![role(1, 0), role(2, ADMINISTRATOR)],
        vec![member(1, 2, &[2])],
        vec![channel(1, 3, ChannelType::Text, vec![for_member(2, 0, ALL_BITS)])],
    );
    assert_eq!(g.member_permissions(UserId(2)).bits(), ALL_BITS);
    assert_eq!(g.permissions_in(ChannelId(3), UserId(2)).bits(), ALL_BITS);
}

#[test]
fn administrator_by_default_role_gives_every_permission() {
    let g = guild_of(
        1,
        1,
        vec![role(1, ADMINISTRATOR), role(2, READ_MESSAGES)],
        vec![member(1, 2, &[2])],
        vec![channel(1, 3, ChannelType::Text, vec![])],
    );
    assert_eq!(g.member_permissions(UserId(2)).bits(), ALL_BITS);
    assert_eq!(g.permissions_in(ChannelId(3), UserId(2)).bits(), ALL_BITS);
    let alone = guild_of(1, 1, vec![role(1, ADMINISTRATOR)], vec![member(1, 2, &[])], vec![]);
    assert_eq!(alone.member_permissions(UserId(2)), Permissions::all());
    assert_eq!(alone.member_permissions(UserId(9)).bits(), ADMINISTRATOR);
}

#[test]
fn no_role_is_looked_at_where_the_default_role_is_an_administrator() {
    let g = guild_of(1, 1, vec![role(1, ADMINISTRATOR)], vec![member(1, 2, &[7, 8])], vec![]);
    assert!(g.member_permissions_anomalies(UserId(2)).is_empty());
    assert_eq!(
        g.permissions_in_anomalies(ChannelId(4), UserId(2)),
        vec![Anomaly::MissingRole(RoleId(7)), Anomaly::MissingRole(RoleId(8))]
    );
}

#[test]
fn guild_permissions_are_the_union_of_the_roles() {
    let g = guild_of(
        1,
        1,
        vec![role(1, READ_MESSAGES), role(2, SEND_MESSAGES), role(3, KICK_MEMBERS), role(4, BAN_MEMBERS)],
        vec![member(1, 2, &[2, 3]), member(1, 3, &[])],
        vec![],
    );
    assert_eq!(g.member_permissions(UserId(2)).bits(), READ_MESSAGES | SEND_MESSAGES | KICK_MEMBERS);
    assert_eq!(g.member_permissions(UserId(3)).bits(), READ_MESSAGES);
}

#[test]
fn dangling_role_is_skipped_and_reported() {
    let g = guild_of(
        1,
        1,
        vec![role(1, READ_MESSAGES), role(3, KICK_MEMBERS)],
        vec![member(1, 2, &[7, 3, 8])],
        vec![],
    );
    assert_eq!(g.member_permissions(UserId(2)).bits(), READ_MESSAGES | KICK_MEMBERS);
    assert_eq!(
        g.member_permissions_anomalies(UserId(2)),
        vec![Anomaly::MissingRole(RoleId(7)), Anomaly::MissingRole(RoleId(8))]
    );
    assert_eq!(
        g.permissions_in_anomalies(ChannelId(4), UserId(2)),
        vec![
            Anomaly::MissingRole(RoleId(7)),
            Anomaly::MissingRole(RoleId(8)),
            Anomaly::MissingChannel(ChannelId(4)),
        ]
    );
}

#[test]
fn nothing_is_looked_at_after_an_administrator_role() {
    let g = guild_of(
        1,
        1,
        vec![role(1, 0), role(3, ADMINISTRATOR)],
        vec![member(1, 2, &[7, 3, 8])],
        vec![],
    );
    assert_eq!(g.member_permissions_anomalies(UserId(2)), vec![Anomaly::MissingRole(RoleId(7))]);
    assert_eq!(
        g.permissions_in_anomalies(ChannelId(4), UserId(2)),
        vec![Anomaly::MissingRole(RoleId(7)), Anomaly::MissingRole(RoleId(8))]
    );
    assert!(g.member_permissions_anomalies(UserId(1)).is_empty());
    assert!(g.member_permissions_anomalies(UserId(9)).is_empty());
}

#[test]
fn missing_channel_leaves_the_guild_permissions() {
    let g = scenario(vec![]);
    assert_eq!(g.permissions_in(ChannelId(42), UserId(2)).bits(), READ_MESSAGES | SEND_MESSAGES);
    assert_eq!(
        g.permissions_in_anomalies(ChannelId(42), UserId(2)),
        vec![Anomaly::MissingChannel(ChannelId(42))]
    );
}

#[test]
fn text_channel_drops_voice_flags_of_roles() {
    let g = guild_of(
        1,
        1,
        vec![role(1, READ_MESSAGES | CONNECT | SPEAK)],
        vec![member(1, 2, &[])],
        vec![channel(1, 3, ChannelType::Text, vec![]), channel(1, 4, ChannelType::Voice, vec![])],
    );
    assert_eq!(g.permissions_in(ChannelId(3), UserId(2)).bits(), READ_MESSAGES);
    assert_eq!(g.permissions_in(ChannelId(4), UserId(2)).bits(), READ_MESSAGES | CONNECT | SPEAK);
}

#[test]
fn text_channel_overwrite_can_allow_a_voice_flag() {
    let g = guild_of(
        1,
        1,
        vec![role(1, READ_MESSAGES | CONNECT)],
        vec![member(1, 2, &[])],
        vec![channel(1, 3, ChannelType::Text, vec![for_member(2, SPEAK, 0)])],
    );
    assert_eq!(g.permissions_in(ChannelId(3), UserId(2)).bits(), READ_MESSAGES | SPEAK);
}

#[test]
fn default_channel_is_readable_whatever_is_denied() {
    let g = guild_of(
        1,
        1,
        vec![role(1, SEND_MESSAGES)],
        vec![member(1, 2, &[])],
        vec![channel(1, 1, ChannelType::Text, vec![for_member(2, 0, READ_MESSAGES), for_role(1, 0, READ_MESSAGES)])],
    );
    assert_eq!(g.permissions_in(ChannelId(1), UserId(2)).bits(), READ_MESSAGES | SEND_MESSAGES);
    let h = guild_of(1, 1, vec![role(1, SEND_MESSAGES)], vec![member(1, 2, &[])], vec![]);
    assert!(h.permissions_in(ChannelId(1), UserId(2)).contains(mask(READ_MESSAGES)));
}

#[test]
fn without_send_the_dependent_flags_go() {
    let dependent = SEND_TTS_MESSAGES | MENTION_EVERYONE | EMBED_LINKS | ATTACH_FILES;
    let g = guild_of(
        1,
        1,
        vec![role(1, READ_MESSAGES | dependent | MANAGE_MESSAGES)],
        vec![member(1, 2, &[])],
        vec![channel(1, 3, ChannelType::Text, vec![])],
    );
    assert_eq!(g.permissions_in(ChannelId(3), UserId(2)).bits(), READ_MESSAGES | MANAGE_MESSAGES);
    assert_eq!(suppressed(mask(READ_MESSAGES | dependent)).bits(), READ_MESSAGES);
    assert_eq!(
        suppressed(mask(READ_MESSAGES | SEND_MESSAGES | dependent)).bits(),
        READ_MESSAGES | SEND_MESSAGES | dependent
    );
}

#[test]
fn without_read_only_the_account_flags_stay() {
    let g = guild_of(
        1,
        1,
        vec![role(1, SEND_MESSAGES | ATTACH_FILES | KICK_MEMBERS | BAN_MEMBERS | MANAGE_MESSAGES)],
        vec![member(1, 2, &[])],
        vec![channel(1, 3, ChannelType::Text, vec![])],
    );
    assert_eq!(g.permissions_in(ChannelId(3), UserId(2)).bits(), KICK_MEMBERS | BAN_MEMBERS);
    assert_eq!(suppressed(mask(SEND_MESSAGES | 0x0c00_002e)).bits(), 0x0c00_002e);
    assert_eq!(suppressed(Permissions::empty()), Permissions::empty());
}

#[test]
fn resolving_twice_gives_the_same() {
    let g = scenario(vec![channel(
        1,
        3,
        ChannelType::Text,
        vec![for_role(2, 0, SEND_MESSAGES), for_member(2, SEND_MESSAGES, 0)],
    )]);
    assert_eq!(g.member_permissions(UserId(2)), g.member_permissions(UserId(2)));
    assert_eq!(g.permissions_in(ChannelId(3), UserId(2)), g.permissions_in(ChannelId(3), UserId(2)));
    let copy = g.clone();
    assert_eq!(copy.permissions_in(ChannelId(3), UserId(2)), g.permissions_in(ChannelId(3), UserId(2)));
}

#[test]
fn user_has_perms_asks_for_every_flag() {
    let g = scenario(vec![channel(1, 3, ChannelType::Text, vec![])]);
    assert!(g.user_has_perms(ChannelId(3), UserId(2), mask(READ_MESSAGES | SEND_MESSAGES)));
    assert!(g.user_has_perms(ChannelId(3), UserId(2), Permissions::empty()));
    assert!(!g.user_has_perms(ChannelId(3), UserId(2), mask(READ_MESSAGES | MANAGE_MESSAGES)));
}

#[test]
fn member_holds_role() {
    let m = member(1, 2, &[4, 5]);
    assert!(m.holds_role(RoleId(5)));
    assert!(!m.holds_role(RoleId(1)));
}

#[test]
fn overwrite_applies_deny_then_allow() {
    let o = for_role(1, SEND_MESSAGES, READ_MESSAGES | SEND_MESSAGES);
    assert_eq!(o.apply_to(mask(READ_MESSAGES | KICK_MEMBERS)).bits(), KICK_MEMBERS | SEND_MESSAGES);
}

#[test]
fn role_is_found_in_whichever_guild_has_it() {
    let mut guilds = HashMap::new();
    guilds.insert(1, guild_of(1, 1, vec![role(1, 0), role(5, KICK_MEMBERS)], vec![], vec![]));
    guilds.insert(2, guild_of(2, 1, vec![role(2, 0), role(6, BAN_MEMBERS)], vec![], vec![]));
    assert_eq!(RoleId(6).find_in(&guilds).map(|r| r.permissions.bits()), Some(BAN_MEMBERS));
    assert_eq!(RoleId(5).find_in(&guilds).map(|r| r.id), Some(RoleId(5)));
    assert!(RoleId(7).find_in(&guilds).is_none());
    assert!(RoleId(7).find_in(&HashMap::new()).is_none());
}
