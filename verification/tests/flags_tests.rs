use gateway_mock::config::Bot;
use twilight_model::gateway::Intents as Theirs;
use twilight_model::oauth::ApplicationFlags as TheirFlags;
use gateway_mock::flags::{
    ApplicationFlags, Intents, UserFlags, ALL_INTENTS, GATEWAY_GUILD_MEMBERS,
    GATEWAY_GUILD_MEMBERS_LIMITED, GATEWAY_MESSAGE_CONTENT, GATEWAY_MESSAGE_CONTENT_LIMITED,
    GATEWAY_PRESENCE, GATEWAY_PRESENCE_LIMITED, GUILD_MEMBERS, GUILD_PRESENCES, MESSAGE_CONTENT,
    PRIVILEGED_INTENTS,
};

fn bot_with(flags: u64) -> Bot {
    Bot {
        token: String::from("T"),
        application_flags: ApplicationFlags::from_bits(flags),
        application_id: 1,
        user_flags: None,
        user_id: 2,
        avatar: None,
        discriminator: 1,
        name: String::from("bot"),
        public_flags: None,
    }
}

#[test]
fn all_is_every_intent_of_the_model_crate() {
    assert_eq!(Intents::all().bits(), 0x31_ffff);
    assert_eq!(Intents::all().bits(), ALL_INTENTS);
    assert_eq!(Intents::all().bits(), Theirs::all().bits());
}

#[test]
fn the_privileged_intents_have_the_bits_of_the_model_crate() {
    assert_eq!(GUILD_MEMBERS, Theirs::GUILD_MEMBERS.bits());
    assert_eq!(GUILD_PRESENCES, Theirs::GUILD_PRESENCES.bits());
    assert_eq!(MESSAGE_CONTENT, Theirs::MESSAGE_CONTENT.bits());
}

#[test]
fn the_privileged_intents_are_three() {
    assert_eq!(PRIVILEGED_INTENTS, GUILD_MEMBERS | GUILD_PRESENCES | MESSAGE_CONTENT);
    assert_eq!(PRIVILEGED_INTENTS.count_ones(), 3);
}

#[test]
fn the_gateway_flags_have_the_bits_of_the_model_crate() {
    assert_eq!(GATEWAY_PRESENCE, TheirFlags::GATEWAY_PRESENCE.bits());
    assert_eq!(GATEWAY_PRESENCE_LIMITED, TheirFlags::GATEWAY_PRESENCE_LIMITED.bits());
    assert_eq!(GATEWAY_GUILD_MEMBERS, TheirFlags::GATEWAY_GUILD_MEMBERS.bits());
    assert_eq!(GATEWAY_GUILD_MEMBERS_LIMITED, TheirFlags::GATEWAY_GUILD_MEMBERS_LIMITED.bits());
    assert_eq!(GATEWAY_MESSAGE_CONTENT, TheirFlags::GATEWAY_MESSAGE_CONTENT.bits());
    assert_eq!(GATEWAY_MESSAGE_CONTENT_LIMITED, TheirFlags::GATEWAY_MESSAGE_CONTENT_LIMITED.bits());
}

#[test]
fn contains_asks_for_every_bit() {
    let set = Intents::from_bits(0b0110);
    assert!(set.contains(Intents::from_bits(0b0100)));
    assert!(set.contains(Intents::from_bits(0b0110)));
    assert!(set.contains(Intents::empty()));
    assert!(!set.contains(Intents::from_bits(0b0101)));
    assert!(!Intents::empty().contains(Intents::from_bits(1)));
}

#[test]
fn remove_clears_the_bits_of_the_other() {
    let mut set = Intents::from_bits(0b0111);
    set.remove(Intents::from_bits(0b0101));
    assert_eq!(set.bits(), 0b0010);
    set.remove(Intents::from_bits(0b1000));
    assert_eq!(set.bits(), 0b0010);
}

#[test]
fn intersects_asks_for_one_common_bit() {
    let flags = ApplicationFlags::from_bits(GATEWAY_PRESENCE);
    assert!(flags.intersects(ApplicationFlags::from_bits(GATEWAY_PRESENCE | GATEWAY_PRESENCE_LIMITED)));
    assert!(!flags.intersects(ApplicationFlags::from_bits(GATEWAY_GUILD_MEMBERS)));
    assert!(!flags.intersects(ApplicationFlags::from_bits(0)));
    assert_eq!(flags.bits(), 0x1000);
    assert_eq!(UserFlags::from_bits(7).bits(), 7);
}

#[test]
fn a_bot_without_flags_may_not_have_the_privileged_intents() {
    let allowed = bot_with(0).allowed_intents();
    assert_eq!(allowed.bits(), 0x31_ffff & !(0x100 | 0x2 | 0x8000));
    assert_eq!(allowed.bits(), 0x31_7efd);
    assert!(!allowed.contains(Intents::from_bits(GUILD_MEMBERS)));
    assert!(!allowed.contains(Intents::from_bits(GUILD_PRESENCES)));
    assert!(!allowed.contains(Intents::from_bits(MESSAGE_CONTENT)));
    assert!(allowed.contains(Intents::from_bits(1)));
}

#[test]
fn each_flag_grants_its_intent() {
    let cases = [
        (GATEWAY_PRESENCE, GUILD_PRESENCES),
        (GATEWAY_PRESENCE_LIMITED, GUILD_PRESENCES),
        (GATEWAY_GUILD_MEMBERS, GUILD_MEMBERS),
        (GATEWAY_GUILD_MEMBERS_LIMITED, GUILD_MEMBERS),
        (GATEWAY_MESSAGE_CONTENT, MESSAGE_CONTENT),
        (GATEWAY_MESSAGE_CONTENT_LIMITED, MESSAGE_CONTENT),
    ];
    for (flag, intent) in cases {
        let allowed = bot_with(flag).allowed_intents();
        let denied = (GUILD_PRESENCES | GUILD_MEMBERS | MESSAGE_CONTENT) & !intent;
        assert_eq!(allowed.bits(), 0x31_ffff & !denied);
    }
}

#[test]
fn a_bot_with_every_flag_may_have_every_intent() {
    let flags = GATEWAY_PRESENCE | GATEWAY_GUILD_MEMBERS_LIMITED | GATEWAY_MESSAGE_CONTENT;
    assert_eq!(bot_with(flags).allowed_intents().bits(), 0x31_ffff);
    assert_eq!(bot_with(u64::MAX).allowed_intents(), Intents::all());
}

#[test]
fn allowed_intents_agree_with_the_model_crate() {
    for bits in [0u64, 1 << 12, 1 << 13, 1 << 14, 1 << 15, 1 << 18, 1 << 19, (1 << 12) | (1 << 19), 1 << 23] {
        let flags = TheirFlags::from_bits_truncate(bits);
        let mut expected = Theirs::all();
        if !flags.intersects(TheirFlags::GATEWAY_PRESENCE | TheirFlags::GATEWAY_PRESENCE_LIMITED) {
            expected.remove(Theirs::GUILD_PRESENCES);
        }
        if !flags.intersects(
            TheirFlags::GATEWAY_GUILD_MEMBERS | TheirFlags::GATEWAY_GUILD_MEMBERS_LIMITED,
        ) {
            expected.remove(Theirs::GUILD_MEMBERS);
        }
        if !flags.intersects(
            TheirFlags::GATEWAY_MESSAGE_CONTENT | TheirFlags::GATEWAY_MESSAGE_CONTENT_LIMITED,
        ) {
            expected.remove(Theirs::MESSAGE_CONTENT);
        }
        assert_eq!(bot_with(bits).allowed_intents().bits(), expected.bits());
    }
}
