//! Bit sets of the gateway protocol: the intents a client asks for, and the
//! flags of an application and of a user.

use vstd::prelude::*;

verus! {

/// Every intent that `Intents::all` holds: bits 0 to 16, 20 and 21.
pub const ALL_INTENTS: u64 = 0x31_ffff;

/// The privileged intent for member events.
pub const GUILD_MEMBERS: u64 = 0x2;

/// The privileged intent for presence updates.
pub const GUILD_PRESENCES: u64 = 0x100;

/// The privileged intent for the content of messages.
pub const MESSAGE_CONTENT: u64 = 0x8000;

/// The application may receive presence updates (verified applications).
pub const GATEWAY_PRESENCE: u64 = 0x1000;

/// The application may receive presence updates (unverified applications).
pub const GATEWAY_PRESENCE_LIMITED: u64 = 0x2000;

/// The application may receive member events (verified applications).
pub const GATEWAY_GUILD_MEMBERS: u64 = 0x4000;

/// The application may receive member events (unverified applications).
pub const GATEWAY_GUILD_MEMBERS_LIMITED: u64 = 0x8000;

/// The application may receive message content (verified applications).
pub const GATEWAY_MESSAGE_CONTENT: u64 = 0x4_0000;

/// The application may receive message content (unverified applications).
pub const GATEWAY_MESSAGE_CONTENT_LIMITED: u64 = 0x8_0000;

/// `twilight_model::gateway::Intents::all`, handed out as its bits. The
/// contract claims that this is the union of the intents that the crate
/// declares, which are the bits 0 to 16, 20 and 21.
#[verifier::external_body]
fn every_intent() -> (bits: u64)
    ensures
        bits == ALL_INTENTS,
{
    twilight_model::gateway::Intents::all().bits()
}

/// A set of gateway intents, one bit for each.
#[derive(Clone, Copy, Debug, PartialEq, Eq, Structural)]
pub struct Intents {
    pub bits: u64,
}

impl Intents {
    /// The set without any intent.
    pub fn empty() -> (set: Intents)
        ensures
            set.bits == 0,
    {
        Intents { bits: 0 }
    }

    /// The set of every intent the protocol knows.
    pub fn all() -> (set: Intents)
        ensures
            set.bits == ALL_INTENTS,
    {
        Intents { bits: every_intent() }
    }

    /// The set with exactly the given bits.
    pub fn from_bits(bits: u64) -> (set: Intents)
        ensures
            set.bits == bits,
    {
        Intents { bits }
    }

    /// The bits of the set.
    pub fn bits(&self) -> (bits: u64)
        ensures
            bits == self.bits,
    {
        self.bits
    }

    /// Whether every intent of `other` is in this set.
    pub open spec fn spec_contains(self, other: Intents) -> bool {
        self.bits & other.bits == other.bits
    }

    /// Whether every intent of `other` is in this set.
    #[verifier::when_used_as_spec(spec_contains)]
    pub fn contains(self, other: Intents) -> (all_in: bool)
        ensures
            all_in == self.spec_contains(other),
    {
        (self.bits & other.bits) == other.bits
    }

    /// Takes the intents of `other` out of this set.
    pub fn remove(&mut self, other: Intents)
        ensures
            final(self).bits == old(self).bits & !other.bits,
    {
        self.bits = self.bits & !other.bits;
    }
}

/// The public flags of an application.
#[derive(Clone, Copy, Debug, PartialEq, Eq, Structural)]
pub struct ApplicationFlags {
    pub bits: u64,
}

impl ApplicationFlags {
    /// The flags with exactly the given bits.
    pub fn from_bits(bits: u64) -> (flags: ApplicationFlags)
        ensures
            flags.bits == bits,
    {
        ApplicationFlags { bits }
    }

    /// The bits of the flags.
    pub fn bits(&self) -> (bits: u64)
        ensures
            bits == self.bits,
    {
        self.bits
    }

    /// Whether the two have a flag in common.
    pub open spec fn spec_intersects(self, other: ApplicationFlags) -> bool {
        self.bits & other.bits != 0
    }

    /// Whether the two have a flag in common.
    #[verifier::when_used_as_spec(spec_intersects)]
    pub fn intersects(self, other: ApplicationFlags) -> (common: bool)
        ensures
            common == self.spec_intersects(other),
    {
        (self.bits & other.bits) != 0
    }
}

/// The flags on a user's account.
#[derive(Clone, Copy, Debug, PartialEq, Eq, Structural)]
pub struct UserFlags {
    pub bits: u64,
}

impl UserFlags {
    /// The flags with exactly the given bits.
    pub fn from_bits(bits: u64) -> (flags: UserFlags)
        ensures
            flags.bits == bits,
    {
        UserFlags { bits }
    }

    /// The bits of the flags.
    pub fn bits(&self) -> (bits: u64)
        ensures
            bits == self.bits,
    {
        self.bits
    }
}

/// Whether the bits hold one of the bits of the mask.
pub open spec fn holds_any(bits: u64, mask: u64) -> bool {
    bits & mask != 0
}

/// The privileged intent, if the application holds neither of the two flags
/// that grant it, and nothing if it holds one.
pub open spec fn withheld(application_flags: u64, grants: u64, intent: u64) -> u64 {
    if holds_any(application_flags, grants) {
        0
    } else {
        intent
    }
}

/// The intents that an application with the given flags may ask for: every
/// intent, less each privileged one for which the application holds neither
/// of the two flags that grant it.
pub open spec fn permitted_intents(application_flags: u64) -> u64 {
    let presences = withheld(
        application_flags,
        GATEWAY_PRESENCE | GATEWAY_PRESENCE_LIMITED,
        GUILD_PRESENCES,
    );
    let members = withheld(
        application_flags,
        GATEWAY_GUILD_MEMBERS | GATEWAY_GUILD_MEMBERS_LIMITED,
        GUILD_MEMBERS,
    );
    let content = withheld(
        application_flags,
        GATEWAY_MESSAGE_CONTENT | GATEWAY_MESSAGE_CONTENT_LIMITED,
        MESSAGE_CONTENT,
    );
    ALL_INTENTS & !(presences | members | content)
}

/// The three privileged intents.
pub const PRIVILEGED_INTENTS: u64 = 0x8102;

/// What the permitted intents are, intent by intent: each privileged intent
/// is permitted exactly if the application holds one of the two flags that
/// grant it, and every other intent is permitted exactly if the protocol
/// knows it.
pub proof fn lemma_permitted_intents(flags: u64)
    ensures
        holds_any(permitted_intents(flags), GUILD_PRESENCES) == holds_any(
            flags,
            GATEWAY_PRESENCE | GATEWAY_PRESENCE_LIMITED,
        ),
        holds_any(permitted_intents(flags), GUILD_MEMBERS) == holds_any(
            flags,
            GATEWAY_GUILD_MEMBERS | GATEWAY_GUILD_MEMBERS_LIMITED,
        ),
        holds_any(permitted_intents(flags), MESSAGE_CONTENT) == holds_any(
            flags,
            GATEWAY_MESSAGE_CONTENT | GATEWAY_MESSAGE_CONTENT_LIMITED,
        ),
        permitted_intents(flags) & !PRIVILEGED_INTENTS == ALL_INTENTS & !PRIVILEGED_INTENTS,
{
    let presences = withheld(
        flags,
        GATEWAY_PRESENCE | GATEWAY_PRESENCE_LIMITED,
        GUILD_PRESENCES,
    );
    let members = withheld(
        flags,
        GATEWAY_GUILD_MEMBERS | GATEWAY_GUILD_MEMBERS_LIMITED,
        GUILD_MEMBERS,
    );
    let content = withheld(
        flags,
        GATEWAY_MESSAGE_CONTENT | GATEWAY_MESSAGE_CONTENT_LIMITED,
        MESSAGE_CONTENT,
    );
    let permitted: u64 = 0x31_ffff & !(presences | members | content);
    assert(permitted & 0x100 != 0 <==> presences == 0) by (bit_vector)
        requires
            permitted == 0x31_ffff & !(presences | members | content),
            presences == 0 || presences == 0x100,
            members == 0 || members == 0x2,
            content == 0 || content == 0x8000,
    ;
    assert(permitted & 0x2 != 0 <==> members == 0) by (bit_vector)
        requires
            permitted == 0x31_ffff & !(presences | members | content),
            presences == 0 || presences == 0x100,
            members == 0 || members == 0x2,
            content == 0 || content == 0x8000,
    ;
    assert(permitted & 0x8000 != 0 <==> content == 0) by (bit_vector)
        requires
            permitted == 0x31_ffff & !(presences | members | content),
            presences == 0 || presences == 0x100,
            members == 0 || members == 0x2,
            content == 0 || content == 0x8000,
    ;
    assert(permitted & !0x8102u64 == 0x31_ffff & !0x8102u64) by (bit_vector)
        requires
            permitted == 0x31_ffff & !(presences | members | content),
            presences == 0 || presences == 0x100,
            members == 0 || members == 0x2,
            content == 0 || content == 0x8000,
    ;
}

} // verus!
