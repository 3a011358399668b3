use std::collections::HashSet;

use serenity_model::channel::Channel;
use serenity_model::channel::ChannelType;
use serenity_model::channel::ChannelVariant;
use serenity_model::channel::Message;
use serenity_model::channel::MessageType;
use serenity_model::channel::PermissionOverwrite;
use serenity_model::channel::PermissionOverwriteType;
use serenity_model::channel::PrivateChannel;
use serenity_model::channel::Reaction;
use serenity_model::channel::ReactionRemoval;
use serenity_model::channel::ReactionType;
use serenity_model::guild::audit_log::deserialize_action;
use serenity_model::guild::Action;
use serenity_model::guild::ActionChannel;
use serenity_model::guild::ActionChannelOverwrite;
use serenity_model::guild::ActionEmoji;
use serenity_model::guild::ActionMember;
use serenity_model::guild::AuditLogEntry;
use serenity_model::guild::AuditLogs;
use serenity_model::guild::BanOptions;
use serenity_model::guild::Emoji;
use serenity_model::guild::GuildContainer;
use serenity_model::guild::Target;
use serenity_model::guild::VerificationLevel;
use serenity_model::id::AuditLogEntryId;
use serenity_model::id::ChannelId;
use serenity_model::id::EmojiId;
use serenity_model::id::GuildId;
use serenity_model::id::MessageId;
use serenity_model::id::RoleId;
use serenity_model::id::UserId;
use serenity_model::permissions::Permissions;
use serenity_model::permissions::MANAGE_MESSAGES;
use serenity_model::text::contains;
use serenity_model::text::decimal_string;
use serenity_model::text::find;
use serenity_model::text::same_text;
use serenity_model::text::starts_with;
use serenity_model::timestamp::Timestamp;
use serenity_model::user::DefaultAvatar;
use serenity_model::user::NotificationLevel;
use serenity_model::user::OnlineStatus;
use serenity_model::user::User;

fn user(id: u64, name: &str) -> User {
    User { id: UserId(id), avatar: None, bot: false, discriminator: 1234, name: name.to_string() }
}

#[test]
fn mentions() {
    assert_eq!(ChannelId(7).mention().to_string(), "<#7>");
    assert_eq!(GuildId(81384788765712384).mention().to_string(), "<#81384788765712384>");
    assert_eq!(RoleId(10).mention().to_string(), "<@&10>");
    assert_eq!(UserId(0).mention().to_string(), "<@0>");
    assert_eq!(UserId(u64::MAX).mention().to_string(), "<@18446744073709551615>");
    assert_eq!(ChannelId(7).mention().id, 7);
    assert_eq!(RoleId(7).mention().prefix, "<@&");
}

#[test]
fn guild_id_to_channel() {
    assert_eq!(GuildId(5).to_channel(), ChannelId(5));
}

#[test]
fn decimal() {
    assert_eq!(decimal_string(0), "0");
    assert_eq!(decimal_string(9), "9");
    assert_eq!(decimal_string(10), "10");
    assert_eq!(decimal_string(1234567890), "1234567890");
    assert_eq!(decimal_string(u64::MAX), u64::MAX.to_string());
}

#[test]
fn text_search() {
    assert_eq!(find("zeyla", "yla"), Some(2));
    assert_eq!(find("zeyla", "zeyla"), Some(0));
    assert_eq!(find("zeyla", ""), Some(0));
    assert_eq!(find("", ""), Some(0));
    assert_eq!(find("zeyla", "zeylaa"), None);
    assert_eq!(find("abcabc", "bc"), Some(1));
    assert_eq!(find("héllo", "llo"), "héllo".find("llo"));
    assert_eq!(find("héllo", "llo"), Some(3));
    assert!(contains("meiyla", "yla"));
    assert!(!contains("meiyLa", "yla"));
    assert!(starts_with("zeyzey", "zey"));
    assert!(starts_with("zey", ""));
    assert!(!starts_with("azey", "zey"));
    assert!(!starts_with("ze", "zey"));
    assert!(same_text("member", "member"));
    assert!(!same_text("member", "members"));
    assert!(!same_text("member", "membex"));
    assert!(same_text("", ""));
}

#[test]
fn channel_type_names_and_numbers() {
    assert_eq!(ChannelType::Group.name(), "group");
    assert_eq!(ChannelType::Private.name(), "private");
    assert_eq!(ChannelType::Text.name(), "text");
    assert_eq!(ChannelType::Voice.name(), "voice");
    assert_eq!(ChannelType::Category.name(), "category");
    assert_eq!(ChannelType::Text.num(), 0);
    assert_eq!(ChannelType::Private.num(), 1);
    assert_eq!(ChannelType::Voice.num(), 2);
    assert_eq!(ChannelType::Group.num(), 3);
    assert_eq!(ChannelType::Category.num(), 4);
    for n in 0..5 {
        assert_eq!(ChannelType::from_num(n).map(|k| k.num()), Some(n));
    }
    assert_eq!(ChannelType::from_num(5), None);
    assert!(ChannelType::Text < ChannelType::Voice);
}

#[test]
fn channel_variant_of_kind() {
    assert_eq!(Channel::variant_of(0), Some(ChannelVariant::Guild));
    assert_eq!(Channel::variant_of(2), Some(ChannelVariant::Guild));
    assert_eq!(Channel::variant_of(1), Some(ChannelVariant::Private));
    assert_eq!(Channel::variant_of(3), Some(ChannelVariant::Group));
    assert_eq!(Channel::variant_of(4), Some(ChannelVariant::Category));
    assert_eq!(Channel::variant_of(5), None);
}

#[test]
fn channel_identifier() {
    let private = PrivateChannel {
        id: ChannelId(9),
        last_message_id: None,
        last_pin_timestamp: None,
        kind: ChannelType::Private,
        recipient: user(3, "zeyla"),
    };
    assert_eq!(private.to_string(), "zeyla");
    assert_eq!(ChannelId::from(&private), ChannelId(9));
    let channel = Channel::Private(private);
    assert_eq!(channel.id(), ChannelId(9));
    assert_eq!(ChannelId::from(&channel), ChannelId(9));
    assert_eq!(ChannelId::from(channel), ChannelId(9));
}

#[test]
fn online_status_names() {
    assert_eq!(OnlineStatus::DoNotDisturb.name(), "dnd");
    assert_eq!(OnlineStatus::Idle.name(), "idle");
    assert_eq!(OnlineStatus::Invisible.name(), "invisible");
    assert_eq!(OnlineStatus::Offline.name(), "offline");
    assert_eq!(OnlineStatus::Online.name(), "online");
    assert_eq!(OnlineStatus::default(), OnlineStatus::Online);
}

#[test]
fn default_avatar_names() {
    assert_eq!(DefaultAvatar::Blurple.name(), "6debd47ed13483642cf09e832ed0bc1b");
    assert_eq!(DefaultAvatar::Red.name(), "1cbd08c76f8af6dddce02c5138971129");
}

#[test]
fn numbered_levels() {
    assert_eq!(NotificationLevel::from_num(3), Some(NotificationLevel::Parent));
    assert_eq!(NotificationLevel::from_num(4), None);
    assert_eq!(NotificationLevel::Mentions.num(), 1);
    assert_eq!(VerificationLevel::from_num(0), Some(VerificationLevel::NotRequired));
    assert_eq!(VerificationLevel::from_num(4), Some(VerificationLevel::Higher));
    assert_eq!(VerificationLevel::from_num(5), None);
    assert_eq!(VerificationLevel::High.num(), 3);
    assert_eq!(MessageType::from_num(7), Some(MessageType::MemberJoin));
    assert_eq!(MessageType::from_num(8), None);
    assert_eq!(MessageType::PinsAdd.num(), 6);
}

#[test]
fn users_are_the_same_by_identifier() {
    assert_eq!(user(1, "a"), user(1, "b"));
    assert_ne!(user(1, "a"), user(2, "a"));
    assert_eq!(user(17, "a").to_string(), "<@17>");
    assert_eq!(UserId::from(&user(17, "a")), UserId(17));
}

#[test]
fn ban_options() {
    assert_eq!(7u8.dmd(), 7);
    assert_eq!(7u8.reason(), "");
    assert_eq!("spam".dmd(), 0);
    assert_eq!("spam".reason(), "spam");
    assert_eq!(String::from("spam").reason(), "spam");
    assert_eq!(String::from("spam").dmd(), 0);
    assert_eq!((3u8, "spam").dmd(), 3);
    assert_eq!((3u8, "spam").reason(), "spam");
    assert_eq!((4u8, String::from("ads")).dmd(), 4);
    assert_eq!((4u8, String::from("ads")).reason(), "ads");
}

#[test]
fn emoji_and_reactions() {
    let emoji = Emoji {
        id: EmojiId(302516740095606785),
        name: String::from("smugAnimeFace"),
        managed: false,
        require_colons: true,
        roles: vec![],
    };
    assert_eq!(emoji.to_string(), "<:smugAnimeFace:302516740095606785>");
    assert_eq!(EmojiId::from(&emoji), EmojiId(302516740095606785));
    let custom = ReactionType::from(emoji);
    assert_eq!(custom.as_data(), "smugAnimeFace:302516740095606785");
    assert_eq!(custom.to_string(), "<:smugAnimeFace:302516740095606785>");
    let unicode = ReactionType::from(String::from("🍎"));
    assert_eq!(unicode.as_data(), "🍎");
    assert_eq!(unicode.to_string(), "🍎");
    assert!(matches!(ReactionType::from_parts(String::from("x"), None), ReactionType::Unicode(_)));
    assert!(matches!(
        ReactionType::from_parts(String::from("x"), Some(EmojiId(4))),
        ReactionType::Custom { id: EmojiId(4), .. }
    ));
}

#[test]
fn reaction_removal() {
    let reaction = Reaction {
        channel_id: ChannelId(1),
        emoji: ReactionType::Unicode(String::from("🍎")),
        message_id: MessageId(2),
        user_id: UserId(3),
    };
    assert_eq!(reaction.removal(UserId(3), Some(false)), ReactionRemoval::Request(None));
    assert_eq!(reaction.removal(UserId(4), Some(true)), ReactionRemoval::Request(Some(3)));
    assert_eq!(reaction.removal(UserId(4), None), ReactionRemoval::Request(Some(3)));
    assert_eq!(
        reaction.removal(UserId(4), Some(false)),
        ReactionRemoval::Refused(Permissions::from_bits(MANAGE_MESSAGES).unwrap())
    );
    assert_eq!(Reaction::users_request(None, None), (50, None));
    assert_eq!(Reaction::users_request(Some(200), Some(UserId(8))), (200, Some(8)));
}

#[test]
fn permission_overwrite_kinds() {
    assert_eq!(
        PermissionOverwriteType::from_kind("member", 4),
        Some(PermissionOverwriteType::Member(UserId(4)))
    );
    assert_eq!(
        PermissionOverwriteType::from_kind("role", 4),
        Some(PermissionOverwriteType::Role(RoleId(4)))
    );
    assert_eq!(PermissionOverwriteType::from_kind("Role", 4), None);
    assert_eq!(PermissionOverwriteType::from_kind("", 4), None);
    let allow = Permissions::from_bits(1).unwrap();
    let deny = Permissions::from_bits(2).unwrap();
    let overwrite = PermissionOverwrite::from_data(allow, deny, 9, "role").unwrap();
    assert_eq!(overwrite.allow, allow);
    assert_eq!(overwrite.deny, deny);
    assert_eq!(overwrite.kind, PermissionOverwriteType::Role(RoleId(9)));
    assert!(PermissionOverwrite::from_data(allow, deny, 9, "channel").is_none());
}

#[test]
fn audit_log_actions() {
    assert_eq!(deserialize_action(1), Ok(Action::GuildUpdate));
    assert_eq!(deserialize_action(12), Ok(Action::Channel(ActionChannel::Delete)));
    assert_eq!(deserialize_action(13), Ok(Action::ChannelOverwrite(ActionChannelOverwrite::Create)));
    assert_eq!(deserialize_action(25), Ok(Action::Member(ActionMember::RoleUpdate)));
    assert_eq!(deserialize_action(61), Ok(Action::Emoji(ActionEmoji::Delete)));
    assert_eq!(deserialize_action(62), Ok(Action::Emoji(ActionEmoji::Update)));
    assert_eq!(deserialize_action(72), Ok(Action::MessageDelete));
    assert_eq!(deserialize_action(0), Err(0));
    assert_eq!(deserialize_action(16), Err(16));
    assert_eq!(deserialize_action(73), Err(73));
    for n in 0..=255u8 {
        if let Ok(action) = deserialize_action(n) {
            assert_eq!(action.num(), n);
        }
    }
    assert_eq!(Target::Guild.num(), 10);
    assert_eq!(Target::Emoji.num(), 70);
}

#[test]
fn guild_container() {
    assert!(matches!(GuildContainer::from(5u64), GuildContainer::Id(GuildId(5))));
    assert!(matches!(GuildContainer::from(GuildId(6)), GuildContainer::Id(GuildId(6))));
}

fn message(kind: MessageType, seconds: i64) -> Message {
    Message {
        id: MessageId(1),
        attachments: vec![],
        author: user(42, "zeyla"),
        channel_id: ChannelId(2),
        content: String::from("before"),
        edited_timestamp: None,
        embeds: vec![],
        kind,
        mention_everyone: false,
        mention_roles: vec![],
        mentions: vec![],
        nonce: None,
        pinned: false,
        reactions: vec![],
        timestamp: Timestamp { seconds, nanoseconds: 0, offset: 0 },
        tts: false,
        webhook_id: None,
    }
}

#[test]
fn transform_content() {
    let greetings = ["$user joined.", "Welcome, $user. $user!", "Someone is here."];
    let mut pins = message(MessageType::PinsAdd, 0);
    pins.transform_content(&greetings);
    assert_eq!(pins.content, "<@42> pinned a message to this channel. See all the pins.");
    let mut first = message(MessageType::MemberJoin, 3);
    first.transform_content(&greetings);
    assert_eq!(first.content, "<@42> joined.");
    let mut second = message(MessageType::MemberJoin, 4);
    second.transform_content(&greetings);
    assert_eq!(second.content, "Welcome, <@42>. <@42>!");
    let mut third = message(MessageType::MemberJoin, 5);
    third.transform_content(&greetings);
    assert_eq!(third.content, "Someone is here.");
    let mut regular = message(MessageType::Regular, 5);
    regular.transform_content(&greetings);
    assert_eq!(regular.content, "before");
    assert_eq!(regular.timestamp.timestamp(), 5);
}

#[test]
fn audit_logs_from_parts_keep_the_last_entry_of_an_identifier() {
    let entry = |id: u64, target: u64| AuditLogEntry {
        target_id: target,
        action: Action::GuildUpdate,
        reason: None,
        user_id: UserId(1),
        changes: None,
        id: AuditLogEntryId(id),
        options: None,
    };
    let logs = AuditLogs::from_parts(vec![entry(1, 10), entry(2, 20), entry(1, 30)], vec![], vec![user(1, "a")]);
    assert_eq!(logs.entries.len(), 2);
    assert_eq!(logs.entries[&1].target_id, 30);
    assert_eq!(logs.entries[&2].target_id, 20);
    assert_eq!(logs.users.len(), 1);
    assert!(logs.webhooks.is_empty());
    assert!(AuditLogs::from_parts(vec![], vec![], vec![]).entries.is_empty());
}

#[test]
fn users_are_hashed_by_identifier() {
    let mut seen = HashSet::new();
    assert!(seen.insert(user(1, "a")));
    assert!(!seen.insert(user(1, "b")));
    assert!(seen.insert(user(2, "a")));
    assert_eq!(seen.len(), 2);
}
