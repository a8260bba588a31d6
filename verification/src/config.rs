//! The configuration a gateway runs under, and what the bot's record in it
//! gives out: the intents the bot may ask for, and how `Ready` shows the bot.

use crate::flags::{
    permitted_intents, ApplicationFlags, Intents, UserFlags, GATEWAY_GUILD_MEMBERS,
    GATEWAY_GUILD_MEMBERS_LIMITED, GATEWAY_MESSAGE_CONTENT, GATEWAY_MESSAGE_CONTENT_LIMITED,
    GATEWAY_PRESENCE, GATEWAY_PRESENCE_LIMITED, GUILD_MEMBERS, GUILD_PRESENCES, MESSAGE_CONTENT,
};
use crate::payload::{
    image_hash_parse, parse_image_hash, CurrentUser, CurrentUserView, ImageHash,
    PartialApplication,
};
use vstd::prelude::*;

verus! {

/// The faults a gateway can be told to show.
#[derive(Clone, Copy, Debug, PartialEq, Eq, Structural)]
pub struct Scenarios {
    /// No heartbeat of a client is acknowledged.
    pub unanswered_heartbeats: bool,
    /// Every resume fails and invalidates the session.
    pub expired_sessions: bool,
}

/// How much mock data the gateway advertises.
#[derive(Clone, Copy, Debug, PartialEq, Eq, Structural)]
pub struct MockData {
    pub guilds: u32,
    pub users: u32,
    pub channels: u32,
    pub voice_states: u32,
}

/// The bot that clients of the gateway log in as.
#[derive(Debug)]
pub struct Bot {
    pub token: String,
    pub application_flags: ApplicationFlags,
    pub application_id: u64,
    pub user_flags: Option<UserFlags>,
    pub user_id: u64,
    pub avatar: Option<String>,
    pub discriminator: u16,
    pub name: String,
    pub public_flags: Option<UserFlags>,
}

/// A `Bot` as mathematics.
pub struct BotView {
    pub token: Seq<char>,
    pub application_flags: ApplicationFlags,
    pub application_id: u64,
    pub user_flags: Option<UserFlags>,
    pub user_id: u64,
    pub avatar: Option<Seq<char>>,
    pub discriminator: u16,
    pub name: Seq<char>,
    pub public_flags: Option<UserFlags>,
}

impl DeepView for Bot {
    type V = BotView;

    open spec fn deep_view(&self) -> BotView {
        BotView {
            token: self.token@,
            application_flags: self.application_flags,
            application_id: self.application_id,
            user_flags: self.user_flags,
            user_id: self.user_id,
            avatar: self.avatar.deep_view(),
            discriminator: self.discriminator,
            name: self.name@,
            public_flags: self.public_flags,
        }
    }
}

impl View for Bot {
    type V = BotView;

    open spec fn view(&self) -> BotView {
        self.deep_view()
    }
}

impl BotView {
    /// The avatar that the bot's record names, where it names one and the
    /// text is an image hash.
    pub open spec fn avatar_hash(self) -> Option<ImageHash> {
        match self.avatar {
            Some(text) => ImageHash::from_parts(image_hash_parse(text)),
            None => None,
        }
    }

    /// How `Ready` shows the bot as a user, given its avatar: a verified bot
    /// with two-factor authentication, and without colour, banner, e-mail,
    /// locale or premium.
    pub open spec fn as_user(self, avatar: Option<ImageHash>) -> CurrentUserView {
        CurrentUserView {
            accent_color: None,
            avatar,
            banner: None,
            bot: true,
            discriminator: self.discriminator,
            email: None,
            flags: self.user_flags,
            id: self.user_id,
            locale: None,
            mfa_enabled: true,
            name: self.name,
            premium_type: None,
            public_flags: self.public_flags,
            verified: Some(true),
        }
    }

    /// How `Ready` shows the bot as a user.
    pub open spec fn current_user(self) -> CurrentUserView {
        self.as_user(self.avatar_hash())
    }

    /// How `Ready` shows the bot's application.
    pub open spec fn application(self) -> PartialApplication {
        PartialApplication { flags: self.application_flags, id: self.application_id }
    }
}

impl Bot {
    /// The intents the bot may ask for when it identifies.
    pub fn allowed_intents(&self) -> (intents: Intents)
        ensures
            intents.bits == permitted_intents(self.application_flags.bits),
    {
        let mut intents = Intents::all();
        let ghost all: u64 = intents.bits;

        let presences = self.application_flags.intersects(
            ApplicationFlags::from_bits(GATEWAY_PRESENCE | GATEWAY_PRESENCE_LIMITED),
        );
        if !presences {
            intents.remove(Intents::from_bits(GUILD_PRESENCES));
        }
        let ghost first: u64 = intents.bits;

        let members = self.application_flags.intersects(
            ApplicationFlags::from_bits(GATEWAY_GUILD_MEMBERS | GATEWAY_GUILD_MEMBERS_LIMITED),
        );
        if !members {
            intents.remove(Intents::from_bits(GUILD_MEMBERS));
        }
        let ghost second: u64 = intents.bits;

        let content = self.application_flags.intersects(
            ApplicationFlags::from_bits(GATEWAY_MESSAGE_CONTENT | GATEWAY_MESSAGE_CONTENT_LIMITED),
        );
        if !content {
            intents.remove(Intents::from_bits(MESSAGE_CONTENT));
        }

        proof {
            let a: u64 = if presences { 0 } else { GUILD_PRESENCES };
            let b: u64 = if members { 0 } else { GUILD_MEMBERS };
            let c: u64 = if content { 0 } else { MESSAGE_CONTENT };
            assert(all & !0u64 == all) by (bit_vector);
            assert(first & !0u64 == first) by (bit_vector);
            assert(second & !0u64 == second) by (bit_vector);
            assert(((all & !a) & !b) & !c == all & !(a | b | c)) by (bit_vector);
        }
        intents
    }

    /// How `Ready` shows the bot as a user, given its avatar.
    pub open spec fn spec_as_user(&self, avatar: Option<ImageHash>) -> CurrentUser {
        CurrentUser {
            accent_color: None,
            avatar,
            banner: None,
            bot: true,
            discriminator: self.discriminator,
            email: None,
            flags: self.user_flags,
            id: self.user_id,
            locale: None,
            mfa_enabled: true,
            name: self.name,
            premium_type: None,
            public_flags: self.public_flags,
            verified: Some(true),
        }
    }

    /// How `Ready` shows the bot as a user, given what the avatar's text
    /// stands for.
    pub fn as_user(&self, avatar: Option<ImageHash>) -> (user: CurrentUser)
        ensures
            user == self.spec_as_user(avatar),
            user@ == self@.as_user(avatar),
    {
        CurrentUser {
            accent_color: None,
            avatar,
            banner: None,
            bot: true,
            discriminator: self.discriminator,
            email: None,
            flags: self.user_flags,
            id: self.user_id,
            locale: None,
            mfa_enabled: true,
            name: self.name.clone(),
            premium_type: None,
            public_flags: self.public_flags,
            verified: Some(true),
        }
    }
}

impl From<&Bot> for CurrentUser {
    /// How `Ready` shows the bot as a user. An avatar that is no image hash
    /// is left out.
    fn from(bot: &Bot) -> (user: CurrentUser)
        ensures
            user@ == bot@.current_user(),
    {
        let avatar = match &bot.avatar {
            Some(text) => parse_image_hash(text.as_str()),
            None => None,
        };
        bot.as_user(avatar)
    }
}

impl vstd::std_specs::convert::FromSpecImpl<&Bot> for CurrentUser {
    open spec fn obeys_from_spec() -> bool {
        true
    }

    open spec fn from_spec(bot: &Bot) -> CurrentUser {
        bot.spec_as_user(bot@.avatar_hash())
    }
}

impl From<&Bot> for PartialApplication {
    /// How `Ready` shows the bot's application.
    fn from(bot: &Bot) -> (application: PartialApplication)
        ensures
            application == bot@.application(),
    {
        PartialApplication { flags: bot.application_flags, id: bot.application_id }
    }
}

impl vstd::std_specs::convert::FromSpecImpl<&Bot> for PartialApplication {
    open spec fn obeys_from_spec() -> bool {
        true
    }

    open spec fn from_spec(bot: &Bot) -> PartialApplication {
        bot@.application()
    }
}

/// The configuration of a gateway. It is read once and never changes.
#[derive(Debug)]
pub struct Config {
    pub log_level: String,
    pub port: u16,
    pub externally_accessible_url: String,
    pub scenarios: Scenarios,
    pub bot: Bot,
    pub mock_data: MockData,
}

/// A `Config` as mathematics.
pub struct ConfigView {
    pub log_level: Seq<char>,
    pub port: u16,
    pub externally_accessible_url: Seq<char>,
    pub scenarios: Scenarios,
    pub bot: BotView,
    pub mock_data: MockData,
}

impl DeepView for Config {
    type V = ConfigView;

    open spec fn deep_view(&self) -> ConfigView {
        ConfigView {
            log_level: self.log_level@,
            port: self.port,
            externally_accessible_url: self.externally_accessible_url@,
            scenarios: self.scenarios,
            bot: self.bot@,
            mock_data: self.mock_data,
        }
    }
}

impl View for Config {
    type V = ConfigView;

    open spec fn view(&self) -> ConfigView {
        self.deep_view()
    }
}

} // verus!
