use std::cmp::Ordering;
use std::collections::HashMap;

use serenity_model::channel::ChannelType;
use serenity_model::channel::Channel;
use serenity_model::channel::ChannelCategory;
use serenity_model::channel::Group;
use serenity_model::guild::search::closest_to_origin;
use serenity_model::guild::search::contains_case_insensitive;
use serenity_model::guild::search::starts_with_case_insensitive;
use serenity_model::guild::Guild;
use serenity_model::guild::Member;
use serenity_model::guild::Presence;
use serenity_model::guild::VerificationLevel;
use serenity_model::id::ChannelId;
use serenity_model::id::GuildId;
use serenity_model::id::UserId;
use serenity_model::timestamp::Timestamp;
use serenity_model::user::OnlineStatus;
use serenity_model::user::User;

fn person(id: u64, name: &str, nick: Option<&str>) -> Member {
    Member {
        deaf: false,
        guild_id: GuildId(1),
        joined_at: Some(Timestamp { seconds: 1, nanoseconds: 2, offset: 3600 }),
        mute: false,
        nick: nick.map(|n| n.to_string()),
        roles: vec![],
        user: User { id: UserId(id), avatar: None, bot: false, discriminator: 5479, name: name.to_string() },
    }
}

fn crowd(people: Vec<Member>, statuses: &[(u64, OnlineStatus)]) -> Guild {
    let mut members = HashMap::new();
    for m in people {
        members.insert(m.user.id.0, m);
    }
    let mut presences = HashMap::new();
    for (id, status) in statuses {
        presences.insert(
            *id,
            Presence { last_modified: None, nick: None, status: *status, user_id: UserId(*id) },
        );
    }
    Guild {
        afk_channel_id: None,
        afk_timeout: 0,
        channels: HashMap::new(),
        default_message_notifications: 0,
        emojis: HashMap::new(),
        features: vec![],
        icon: None,
        id: GuildId(1),
        joined_at: Timestamp { seconds: 0, nanoseconds: 0, offset: 0 },
        large: false,
        member_count: 0,
        members,
        mfa_level: 0,
        name: String::from("guild"),
        owner_id: UserId(1),
        presences,
        region: String::new(),
        roles: HashMap::new(),
        splash: None,
        verification_level: VerificationLevel::Low,
        voice_states: HashMap::new(),
    }
}

fn names(found: &[&Member]) -> Vec<String> {
    found.iter().map(|m| m.user.name.clone()).collect()
}

fn sorted_names(found: &[&Member]) -> Vec<String> {
    let mut all = names(found);
    all.sort();
    all
}

#[test]
fn case_insensitive_helpers_lower_the_first_text_only() {
    assert!(contains_case_insensitive("ZeYLa", "yla"));
    assert!(!contains_case_insensitive("zeyla", "YLA"));
    assert!(starts_with_case_insensitive("ZEYla", "zey"));
    assert!(!starts_with_case_insensitive("azey", "zey"));
    assert!(!starts_with_case_insensitive("zeyla", "Zey"));
}

#[test]
fn closest_to_origin_compares_position_plus_length() {
    assert_eq!(closest_to_origin("zey", "zey", "azey"), Ordering::Less);
    assert_eq!(closest_to_origin("zey", "azey", "zeyla"), Ordering::Equal);
    assert_eq!(closest_to_origin("zey", "zeylaa", "zeyla"), Ordering::Greater);
    assert_eq!(closest_to_origin("zey", "aazey", "zeyzeyzey"), Ordering::Less);
    assert_eq!(closest_to_origin("zey", "zeyzeyzey", "aazey"), Ordering::Greater);
    assert_eq!(closest_to_origin("zey", "abc", "zey"), Ordering::Greater);
    assert_eq!(closest_to_origin("zey", "abc", "abc"), Ordering::Greater);
    assert_eq!(closest_to_origin("zey", "zey", "abc"), Ordering::Less);
    assert_eq!(closest_to_origin("zey", "zey", "zey"), Ordering::Equal);
}

#[test]
fn members_containing_sorted_by_closeness() {
    let g = crowd(
        vec![
            person(1, "zeyzeyzey", None),
            person(2, "azey", None),
            person(3, "zeylaa", None),
            person(4, "zey", None),
            person(5, "zeyla", None),
            person(6, "other", None),
        ],
        &[],
    );
    let found = g.members_containing("zey", true, true);
    assert_eq!(names(&found)[0], "zey");
    assert_eq!(sorted_names(&found[1..3]), vec!["azey", "zeyla"]);
    assert_eq!(names(&found)[3..], ["zeylaa", "zeyzeyzey"]);
    let unsorted = g.members_containing("zey", true, false);
    assert_eq!(sorted_names(&unsorted), vec!["azey", "zey", "zeyla", "zeylaa", "zeyzeyzey"]);
    assert!(g.members_containing("nobody", true, true).is_empty());
    assert_eq!(g.members_containing("", true, false).len(), 6);
}

#[test]
fn members_containing_looks_at_nicknames_too() {
    let g = crowd(
        vec![person(1, "meiyla", None), person(2, "abc", Some("yladenis")), person(3, "ZEYLA", None)],
        &[],
    );
    assert_eq!(sorted_names(&g.members_containing("yla", true, false)), vec!["abc", "meiyla"]);
    assert_eq!(sorted_names(&g.members_containing("yla", false, false)), vec!["ZEYLA", "abc", "meiyla"]);
    let found = g.members_containing("yla", true, true);
    assert_eq!(names(&found), vec!["abc", "meiyla"]);
}

#[test]
fn members_starting_with() {
    let g = crowd(
        vec![
            person(1, "zeyzeyzey", None),
            person(2, "azey", None),
            person(3, "zeya", None),
            person(4, "bob", Some("zeyaa")),
            person(5, "Zeyla", None),
        ],
        &[],
    );
    assert_eq!(names(&g.members_starting_with("zey", true, true)), vec!["zeya", "bob", "zeyzeyzey"]);
    assert_eq!(
        sorted_names(&g.members_starting_with("zey", false, false)),
        vec!["Zeyla", "bob", "zeya", "zeyzeyzey"]
    );
    let with_capital = g.members_starting_with("zey", false, true);
    assert_eq!(names(&with_capital), vec!["zeya", "bob", "zeyzeyzey", "Zeyla"]);
}

#[test]
fn members_username_and_nick_containing() {
    let g = crowd(
        vec![person(1, "meiyla", Some("night")), person(2, "abc", Some("xxyla")), person(3, "yyla", Some("yla"))],
        &[],
    );
    assert_eq!(names(&g.members_username_containing("yla", true, true)), vec!["yyla", "meiyla"]);
    assert_eq!(names(&g.members_nick_containing("yla", true, true)), vec!["yyla", "abc"]);
    assert_eq!(sorted_names(&g.members_nick_containing("YLA", false, false)), Vec::<String>::new());
    assert_eq!(sorted_names(&g.members_username_containing("a", true, false)), vec!["abc", "meiyla", "yyla"]);
}

#[test]
fn members_with_status() {
    let g = crowd(
        vec![person(1, "a", None), person(2, "b", None), person(3, "c", None)],
        &[(1, OnlineStatus::Idle), (2, OnlineStatus::Online), (3, OnlineStatus::Idle), (4, OnlineStatus::Idle)],
    );
    assert_eq!(sorted_names(&g.members_with_status(OnlineStatus::Idle)), vec!["a", "c"]);
    assert_eq!(sorted_names(&g.members_with_status(OnlineStatus::Online)), vec!["b"]);
    assert!(g.members_with_status(OnlineStatus::Offline).is_empty());
}

#[test]
fn member_named() {
    let g = crowd(
        vec![person(1, "zey", Some("zeyla")), person(2, "zeyla", Some("other")), person(3, "x", Some("zeylas#nick"))],
        &[],
    );
    assert_eq!(g.member_named("zey").map(|m| m.user.id), Some(UserId(1)));
    assert_eq!(g.member_named("zeyla").map(|m| m.user.id), Some(UserId(2)));
    assert_eq!(g.member_named("other").map(|m| m.user.id), Some(UserId(2)));
    assert_eq!(g.member_named("zeylas#nick").map(|m| m.user.id), Some(UserId(3)));
    assert!(g.member_named("zey#5479").is_none());
    assert!(g.member_named("nobody").is_none());
    assert_eq!(person(9, "n", None).to_string(), "<@9>");
}

#[test]
fn group_names() {
    let mut group = Group {
        channel_id: ChannelId(4),
        icon: None,
        last_message_id: None,
        last_pin_timestamp: None,
        name: Some(String::from("friends")),
        owner_id: UserId(1),
        recipients: HashMap::new(),
    };
    assert_eq!(group.name(), "friends");
    group.name = None;
    assert_eq!(group.name(), "Empty Group");
    group.recipients.insert(1, person(1, "ann", None).user);
    assert_eq!(group.name(), "ann");
    group.recipients.insert(2, person(2, "bob", None).user);
    let name = group.name();
    assert!(name == "ann, bob" || name == "bob, ann");
    assert_eq!(Channel::Group(group).id(), ChannelId(4));
}

#[test]
fn channels_are_shown() {
    let category = ChannelCategory {
        id: ChannelId(8),
        category_id: None,
        position: 0,
        kind: ChannelType::Category,
        name: String::from("general"),
        nsfw: false,
        permission_overwrites: vec![],
    };
    let channel = Channel::Category(category);
    assert_eq!(channel.to_string(), "general");
    assert_eq!(channel.id(), ChannelId(8));
}
