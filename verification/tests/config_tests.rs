use gateway_mock::config::{Bot, Config, MockData, Scenarios};
use gateway_mock::flags::{ApplicationFlags, UserFlags};
use gateway_mock::payload::{
    CurrentUser, ImageHash, OpCode, PartialApplication, ShardId, HEARTBEAT_INTERVAL, READY_VERSION,
};

fn bot(avatar: Option<&str>) -> Bot {
    Bot {
        token: String::from("T"),
        application_flags: ApplicationFlags::from_bits(1 << 14),
        application_id: 11,
        user_flags: Some(UserFlags::from_bits(1 << 16)),
        user_id: 22,
        avatar: avatar.map(String::from),
        discriminator: 1234,
        name: String::from("mock"),
        public_flags: Some(UserFlags::from_bits(1)),
    }
}

#[test]
fn the_bot_shows_as_a_verified_bot_user() {
    let user = CurrentUser::from(&bot(None));
    assert_eq!(user.accent_color, None);
    assert_eq!(user.avatar, None);
    assert_eq!(user.banner, None);
    assert!(user.bot);
    assert_eq!(user.discriminator, 1234);
    assert_eq!(user.email, None);
    assert_eq!(user.flags, Some(UserFlags::from_bits(1 << 16)));
    assert_eq!(user.id, 22);
    assert_eq!(user.locale, None);
    assert!(user.mfa_enabled);
    assert_eq!(user.name, "mock");
    assert_eq!(user.premium_type, None);
    assert_eq!(user.public_flags, Some(UserFlags::from_bits(1)));
    assert_eq!(user.verified, Some(true));
}

#[test]
fn into_gives_what_from_gives() {
    let record = bot(None);
    let user: CurrentUser = (&record).into();
    assert_eq!(user.name, "mock");
    let application: PartialApplication = (&record).into();
    assert_eq!(application, PartialApplication { flags: ApplicationFlags::from_bits(1 << 14), id: 11 });
}

#[test]
fn an_avatar_that_is_an_image_hash_is_kept() {
    let text = "1acefe340fafb4ecefae407f3abdb323";
    let user = CurrentUser::from(&bot(Some(text)));
    let theirs = twilight_model::util::ImageHash::parse(text.as_bytes()).unwrap();
    assert_eq!(
        user.avatar,
        Some(ImageHash { animated: false, value: u128::from_le_bytes(theirs.bytes()) })
    );
    assert_eq!(user.avatar.unwrap().value, 0x1acefe340fafb4ecefae407f3abdb323);
}

#[test]
fn an_animated_avatar_is_marked_so() {
    let user = CurrentUser::from(&bot(Some("a_b2a6536641da91a0b59bd66557c56c36")));
    assert_eq!(
        user.avatar,
        Some(ImageHash { animated: true, value: 0xb2a6536641da91a0b59bd66557c56c36 })
    );
}

#[test]
fn an_avatar_that_is_no_image_hash_is_left_out() {
    assert_eq!(CurrentUser::from(&bot(Some("not a hash"))).avatar, None);
    assert_eq!(CurrentUser::from(&bot(Some(""))).avatar, None);
    assert_eq!(CurrentUser::from(&bot(Some("1acefe340fafb4ecefae407f3abdb32"))).avatar, None);
    assert_eq!(CurrentUser::from(&bot(Some("1ACEFE340FAFB4ECEFAE407F3ABDB323"))).avatar, None);
}

#[test]
fn as_user_takes_the_avatar_it_is_given() {
    let hash = ImageHash { animated: true, value: 7 };
    let user = bot(Some("ignored")).as_user(Some(hash));
    assert_eq!(user.avatar, Some(hash));
    assert_eq!(bot(Some("ignored")).as_user(None).avatar, None);
}

#[test]
fn the_application_shows_its_id_and_flags() {
    let application = PartialApplication::from(&bot(None));
    assert_eq!(application.id, 11);
    assert_eq!(application.flags.bits(), 1 << 14);
}

#[test]
fn a_configuration_holds_what_it_is_given() {
    let config = Config {
        log_level: String::from("debug"),
        port: 9000,
        externally_accessible_url: String::from("ws://example.test"),
        scenarios: Scenarios { unanswered_heartbeats: true, expired_sessions: false },
        bot: bot(None),
        mock_data: MockData { guilds: 1, users: 2, channels: 3, voice_states: 4 },
    };
    assert_eq!(config.port, 9000);
    assert_eq!(config.scenarios, Scenarios { unanswered_heartbeats: true, expired_sessions: false });
    assert_eq!(config.mock_data, MockData { guilds: 1, users: 2, channels: 3, voice_states: 4 });
    assert_eq!(config.bot.token, "T");
}

#[test]
fn the_protocol_constants_are_as_published() {
    assert_eq!(HEARTBEAT_INTERVAL, 41250);
    assert_eq!(READY_VERSION, 6);
}

#[test]
fn operation_codes_have_their_wire_numbers() {
    let cases = [
        (OpCode::Dispatch, 0),
        (OpCode::Heartbeat, 1),
        (OpCode::Identify, 2),
        (OpCode::PresenceUpdate, 3),
        (OpCode::VoiceStateUpdate, 4),
        (OpCode::Resume, 6),
        (OpCode::Reconnect, 7),
        (OpCode::RequestGuildMembers, 8),
        (OpCode::InvalidSession, 9),
        (OpCode::Hello, 10),
        (OpCode::HeartbeatAck, 11),
    ];
    for (op, number) in cases {
        assert_eq!(op.code(), number);
        assert_eq!(OpCode::from_code(number), Some(op));
        assert_eq!(twilight_model::gateway::OpCode::from(number).map(|theirs| theirs as u8), Some(number));
    }
    assert_eq!(OpCode::from_code(5), None);
    assert_eq!(OpCode::from_code(12), None);
    assert_eq!(OpCode::from_code(255), None);
}

#[test]
fn a_shard_is_one_of_its_total() {
    assert_eq!(ShardId::new_checked(0, 1), Some(ShardId { number: 0, total: 1 }));
    assert_eq!(ShardId::new_checked(3, 4), Some(ShardId { number: 3, total: 4 }));
    assert_eq!(ShardId::new_checked(1, 1), None);
    assert_eq!(ShardId::new_checked(0, 0), None);
}
