//! The payloads that travel in gateway frames, each with the plain data the
//! state machine reads, and its mathematical view.

use crate::flags::{ApplicationFlags, Intents, UserFlags};
use vstd::prelude::*;

verus! {

/// The interval, in milliseconds, at which a client is told to heartbeat.
pub const HEARTBEAT_INTERVAL: u64 = 41250;

/// The protocol version announced in `Ready`.
pub const READY_VERSION: u64 = 6;

/// The operation code of a gateway frame.
#[derive(Clone, Copy, Debug, PartialEq, Eq, Structural)]
pub enum OpCode {
    Dispatch,
    Heartbeat,
    Identify,
    PresenceUpdate,
    VoiceStateUpdate,
    Resume,
    Reconnect,
    RequestGuildMembers,
    InvalidSession,
    Hello,
    HeartbeatAck,
}

impl OpCode {
    /// The number that stands for the code on the wire.
    pub open spec fn spec_code(self) -> u8 {
        match self {
            OpCode::Dispatch => 0,
            OpCode::Heartbeat => 1,
            OpCode::Identify => 2,
            OpCode::PresenceUpdate => 3,
            OpCode::VoiceStateUpdate => 4,
            OpCode::Resume => 6,
            OpCode::Reconnect => 7,
            OpCode::RequestGuildMembers => 8,
            OpCode::InvalidSession => 9,
            OpCode::Hello => 10,
            OpCode::HeartbeatAck => 11,
        }
    }

    /// The number that stands for the code on the wire.
    #[verifier::when_used_as_spec(spec_code)]
    pub fn code(self) -> (number: u8)
        ensures
            number == self.spec_code(),
    {
        match self {
            OpCode::Dispatch => 0,
            OpCode::Heartbeat => 1,
            OpCode::Identify => 2,
            OpCode::PresenceUpdate => 3,
            OpCode::VoiceStateUpdate => 4,
            OpCode::Resume => 6,
            OpCode::Reconnect => 7,
            OpCode::RequestGuildMembers => 8,
            OpCode::InvalidSession => 9,
            OpCode::Hello => 10,
            OpCode::HeartbeatAck => 11,
        }
    }

    /// The code that a number on the wire stands for, if it stands for one.
    pub fn from_code(number: u8) -> (op: Option<OpCode>)
        ensures
            match op {
                Some(op) => op.spec_code() == number,
                None => forall|other: OpCode| other.spec_code() != number,
            },
    {
        match number {
            0 => Some(OpCode::Dispatch),
            1 => Some(OpCode::Heartbeat),
            2 => Some(OpCode::Identify),
            3 => Some(OpCode::PresenceUpdate),
            4 => Some(OpCode::VoiceStateUpdate),
            6 => Some(OpCode::Resume),
            7 => Some(OpCode::Reconnect),
            8 => Some(OpCode::RequestGuildMembers),
            9 => Some(OpCode::InvalidSession),
            10 => Some(OpCode::Hello),
            11 => Some(OpCode::HeartbeatAck),
            _ => None,
        }
    }
}

/// Which part of a client's traffic a connection carries: the shard's number
/// and the number of shards. It is carried through as the client sent it.
#[derive(Clone, Copy, Debug, PartialEq, Eq, Structural)]
pub struct ShardId {
    pub number: u64,
    pub total: u64,
}

impl ShardId {
    /// The shard `number` of `total`, where there is such a shard.
    pub fn new_checked(number: u64, total: u64) -> (id: Option<ShardId>)
        ensures
            id == if number < total {
                Some(ShardId { number, total })
            } else {
                None
            },
    {
        if number < total {
            Some(ShardId { number, total })
        } else {
            None
        }
    }
}

/// The hash that names an image: sixteen bytes, read as one number with the
/// first byte lowest, and whether the image moves.
#[derive(Clone, Copy, Debug, PartialEq, Eq, Structural)]
pub struct ImageHash {
    pub animated: bool,
    pub value: u128,
}

/// What `twilight_model::util::ImageHash::parse` makes of a text: nothing
/// where it refuses the text, else whether the hash is animated and its
/// sixteen bytes as one number, the first byte lowest.
pub uninterp spec fn image_hash_parse(text: Seq<char>) -> Option<(bool, u128)>;

/// `twilight_model::util::ImageHash::parse` on the bytes of `text`, with the
/// error dropped. The contract gives the outcome its name and claims nothing
/// else of it.
#[verifier::external_body]
pub(crate) fn parse_image_hash(text: &str) -> (hash: Option<ImageHash>)
    ensures
        hash == ImageHash::from_parts(image_hash_parse(text@)),
{
    match twilight_model::util::ImageHash::parse(text.as_bytes()) {
        Ok(hash) => Some(
            ImageHash { animated: hash.is_animated(), value: u128::from_le_bytes(hash.bytes()) },
        ),
        Err(_) => None,
    }
}

impl ImageHash {
    /// The hash that a parse named, if it named one.
    pub open spec fn from_parts(parts: Option<(bool, u128)>) -> Option<ImageHash> {
        match parts {
            Some((animated, value)) => Some(ImageHash { animated, value }),
            None => None,
        }
    }
}

/// An application, as far as `Ready` tells of it.
#[derive(Clone, Copy, Debug, PartialEq, Eq, Structural)]
pub struct PartialApplication {
    pub flags: ApplicationFlags,
    pub id: u64,
}

/// A guild that the client will hear of later.
#[derive(Clone, Copy, Debug, PartialEq, Eq, Structural)]
pub struct UnavailableGuild {
    pub id: u64,
    pub unavailable: bool,
}

/// The user that a connection acts as.
#[derive(Debug)]
pub struct CurrentUser {
    pub accent_color: Option<u32>,
    pub avatar: Option<ImageHash>,
    pub banner: Option<ImageHash>,
    pub bot: bool,
    pub discriminator: u16,
    pub email: Option<String>,
    pub flags: Option<UserFlags>,
    pub id: u64,
    pub locale: Option<String>,
    pub mfa_enabled: bool,
    pub name: String,
    pub premium_type: Option<u8>,
    pub public_flags: Option<UserFlags>,
    pub verified: Option<bool>,
}

/// A `CurrentUser` as mathematics.
pub struct CurrentUserView {
    pub accent_color: Option<u32>,
    pub avatar: Option<ImageHash>,
    pub banner: Option<ImageHash>,
    pub bot: bool,
    pub discriminator: u16,
    pub email: Option<Seq<char>>,
    pub flags: Option<UserFlags>,
    pub id: u64,
    pub locale: Option<Seq<char>>,
    pub mfa_enabled: bool,
    pub name: Seq<char>,
    pub premium_type: Option<u8>,
    pub public_flags: Option<UserFlags>,
    pub verified: Option<bool>,
}

impl DeepView for CurrentUser {
    type V = CurrentUserView;

    open spec fn deep_view(&self) -> CurrentUserView {
        CurrentUserView {
            accent_color: self.accent_color,
            avatar: self.avatar,
            banner: self.banner,
            bot: self.bot,
            discriminator: self.discriminator,
            email: self.email.deep_view(),
            flags: self.flags,
            id: self.id,
            locale: self.locale.deep_view(),
            mfa_enabled: self.mfa_enabled,
            name: self.name@,
            premium_type: self.premium_type,
            public_flags: self.public_flags,
            verified: self.verified,
        }
    }
}

impl View for CurrentUser {
    type V = CurrentUserView;

    open spec fn view(&self) -> CurrentUserView {
        self.deep_view()
    }
}

/// The first payload of a connection: how often to heartbeat.
#[derive(Clone, Copy, Debug, PartialEq, Eq, Structural)]
pub struct Hello {
    pub heartbeat_interval: u64,
}

/// What a client states of itself when it identifies, as far as the gateway
/// reads it.
#[derive(Debug)]
pub struct IdentifyInfo {
    pub compress: bool,
    pub intents: Intents,
    pub shard: Option<ShardId>,
    pub token: String,
}

/// An `IdentifyInfo` as mathematics.
pub struct IdentifyView {
    pub compress: bool,
    pub intents: Intents,
    pub shard: Option<ShardId>,
    pub token: Seq<char>,
}

impl DeepView for IdentifyInfo {
    type V = IdentifyView;

    open spec fn deep_view(&self) -> IdentifyView {
        IdentifyView {
            compress: self.compress,
            intents: self.intents,
            shard: self.shard,
            token: self.token@,
        }
    }
}

impl View for IdentifyInfo {
    type V = IdentifyView;

    open spec fn view(&self) -> IdentifyView {
        self.deep_view()
    }
}

/// What a client states when it asks to take a session up again.
#[derive(Debug)]
pub struct ResumeInfo {
    pub seq: u64,
    pub session_id: String,
    pub token: String,
}

/// A `ResumeInfo` as mathematics.
pub struct ResumeView {
    pub seq: u64,
    pub session_id: Seq<char>,
    pub token: Seq<char>,
}

impl DeepView for ResumeInfo {
    type V = ResumeView;

    open spec fn deep_view(&self) -> ResumeView {
        ResumeView { seq: self.seq, session_id: self.session_id@, token: self.token@ }
    }
}

impl View for ResumeInfo {
    type V = ResumeView;

    open spec fn view(&self) -> ResumeView {
        self.deep_view()
    }
}

/// The payload that tells a client it has identified.
#[derive(Debug)]
pub struct Ready {
    pub application: PartialApplication,
    pub guilds: Vec<UnavailableGuild>,
    pub resume_gateway_url: String,
    pub session_id: String,
    pub shard: Option<ShardId>,
    pub user: CurrentUser,
    pub version: u64,
}

/// A `Ready` as mathematics.
pub struct ReadyView {
    pub application: PartialApplication,
    pub guilds: Seq<UnavailableGuild>,
    pub resume_gateway_url: Seq<char>,
    pub session_id: Seq<char>,
    pub shard: Option<ShardId>,
    pub user: CurrentUserView,
    pub version: u64,
}

impl DeepView for Ready {
    type V = ReadyView;

    open spec fn deep_view(&self) -> ReadyView {
        ReadyView {
            application: self.application,
            guilds: self.guilds@,
            resume_gateway_url: self.resume_gateway_url@,
            session_id: self.session_id@,
            shard: self.shard,
            user: self.user@,
            version: self.version,
        }
    }
}

impl View for Ready {
    type V = ReadyView;

    open spec fn view(&self) -> ReadyView {
        self.deep_view()
    }
}

} // verus!
