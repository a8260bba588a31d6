//! The registry of sessions. A session is made when a client identifies,
//! lives on when its connection ends, and is looked up when a client resumes.

use crate::flags::Intents;
use crate::payload::{IdentifyInfo, IdentifyView, ShardId};
use vstd::prelude::*;

verus! {

/// The length of a session's identifier.
pub const SESSION_ID_LEN: usize = 32;

/// Whether `c` is an ASCII letter or digit.
pub open spec fn is_alphanumeric(c: char) -> bool {
    ('0' <= c && c <= '9') || ('A' <= c && c <= 'Z') || ('a' <= c && c <= 'z')
}

/// Whether `id` has the shape of a session's identifier: thirty-two ASCII
/// letters and digits.
pub open spec fn is_session_id(id: Seq<char>) -> bool {
    &&& id.len() == SESSION_ID_LEN
    &&& forall|i: int| 0 <= i < id.len() ==> is_alphanumeric(#[trigger] id[i])
}

/// There is a text in the shape of a session's identifier.
pub proof fn lemma_session_id_exists() -> (id: Seq<char>)
    ensures
        is_session_id(id),
{
    Seq::new(SESSION_ID_LEN as nat, |i: int| 'a')
}

/// One sample of `rand::distributions::Alphanumeric` from the thread's
/// generator, by `rand::Rng::sample`. The contract claims only that the byte
/// is an ASCII letter or digit, whichever of them was drawn.
#[verifier::external_body]
fn sample_alphanumeric() -> (byte: u8)
    ensures
        is_alphanumeric(byte as char),
{
    rand::Rng::sample(&mut rand::thread_rng(), rand::distributions::Alphanumeric)
}

/// A new identifier for a session, drawn at random.
fn fresh_session_id() -> (id: String)
    ensures
        is_session_id(id@),
{
    let mut id = String::new();
    let mut drawn: usize = 0;
    while drawn < SESSION_ID_LEN
        invariant
            drawn <= SESSION_ID_LEN,
            id@.len() == drawn,
            forall|i: int| 0 <= i < id@.len() ==> is_alphanumeric(#[trigger] id@[i]),
        decreases SESSION_ID_LEN - drawn,
    {
        let byte = sample_alphanumeric();
        id.push(byte as char);
        drawn += 1;
    }
    id
}

/// What the gateway keeps of a client that has identified.
#[derive(Clone, Copy, Debug, PartialEq, Eq, Structural)]
pub struct Session {
    /// The shard the client identified as.
    pub shard_id: Option<ShardId>,
    /// Whether the client asked for compression.
    pub compress: bool,
    /// The intents the client asked for.
    pub intents: Intents,
}

impl Session {
    /// The session of a client that identified with `identify`.
    pub open spec fn of(identify: IdentifyView) -> Session {
        Session {
            shard_id: identify.shard,
            compress: identify.compress,
            intents: identify.intents,
        }
    }
}

impl From<&IdentifyInfo> for Session {
    /// The session of a client that identified with `identify`.
    fn from(identify: &IdentifyInfo) -> (session: Session)
        ensures
            session == Session::of(identify@),
    {
        Session {
            shard_id: identify.shard,
            compress: identify.compress,
            intents: identify.intents,
        }
    }
}

impl vstd::std_specs::convert::FromSpecImpl<&IdentifyInfo> for Session {
    open spec fn obeys_from_spec() -> bool {
        true
    }

    open spec fn from_spec(identify: &IdentifyInfo) -> Session {
        Session::of(identify@)
    }
}

/// The sessions of a gateway, each under its identifier. No identifier
/// occurs twice.
pub struct Sessions {
    entries: Vec<(String, Session)>,
}

impl Sessions {
    #[verifier::type_invariant]
    spec fn distinct(&self) -> bool {
        forall|i: int, j: int|
            0 <= i < j < self.entries.len() ==> (#[trigger] self.entries[i]).0@
                != (#[trigger] self.entries[j]).0@
    }

    spec fn holds(&self, id: Seq<char>) -> bool {
        exists|i: int| 0 <= i < self.entries.len() && (#[trigger] self.entries[i]).0@ == id
    }

    spec fn index_of(&self, id: Seq<char>) -> int {
        choose|i: int| 0 <= i < self.entries.len() && (#[trigger] self.entries[i]).0@ == id
    }

    /// The registry as mathematics: the session under each identifier.
    pub closed spec fn view(&self) -> Map<Seq<char>, Session> {
        Map::new(|id: Seq<char>| self.holds(id), |id: Seq<char>| self.entries[self.index_of(id)].1)
    }

    /// A registry without sessions.
    pub fn new() -> (sessions: Sessions)
        ensures
            sessions@ == Map::<Seq<char>, Session>::empty(),
    {
        let sessions = Sessions { entries: Vec::new() };
        assert(sessions@ =~= Map::<Seq<char>, Session>::empty());
        sessions
    }

    /// Where the session under `id` is kept, if there is one.
    fn position(&self, id: &String) -> (at: Option<usize>)
        ensures
            match at {
                Some(i) => i < self.entries.len() && self.entries[i as int].0@ == id@,
                None => !self.holds(id@),
            },
    {
        let mut i: usize = 0;
        while i < self.entries.len()
            invariant
                i <= self.entries.len(),
                forall|k: int| 0 <= k < i ==> (#[trigger] self.entries[k]).0@ != id@,
            decreases self.entries.len() - i,
        {
            if self.entries[i].0 == *id {
                return Some(i);
            }
            i += 1;
        }
        None
    }

    /// Hands the entries out and leaves none behind, for the caller to put
    /// back once it has changed them.
    fn take_entries(&mut self) -> (entries: Vec<(String, Session)>)
        ensures
            entries == old(self).entries,
            final(self).entries@.len() == 0,
    {
        let mut entries: Vec<(String, Session)> = Vec::new();
        core::mem::swap(&mut self.entries, &mut entries);
        entries
    }

    /// Puts `session` under `id`, in place of any session that was there.
    pub fn insert(&mut self, id: String, session: Session)
        ensures
            final(self)@ == old(self)@.insert(id@, session),
    {
        proof {
            use_type_invariant(&*self);
        }
        match self.position(&id) {
            Some(i) => {
                let ghost before = self.entries@;
                let mut entries = self.take_entries();
                entries.set(i, (id, session));
                assert(forall|k: int|
                    0 <= k < before.len() ==> (#[trigger] entries[k]).0@ == before[k].0@);
                self.entries = entries;
                assert forall|key: Seq<char>| old(self).holds(key) implies final(self).holds(key) by {
                    let k = old(self).index_of(key);
                    assert(self.entries[k].0@ == key);
                }
                assert forall|key: Seq<char>| final(self).holds(key) implies old(self).holds(key) by {
                    let k = final(self).index_of(key);
                    assert(before[k].0@ == key);
                }
                assert(self@ =~= old(self)@.insert(id@, session));
            },
            None => {
                let ghost before = self.entries@;
                let ghost key = id@;
                let mut entries = self.take_entries();
                entries.push((id, session));
                self.entries = entries;
                assert(self.entries[before.len() as int].0@ == key);
                assert forall|other: Seq<char>| old(self).holds(other) implies final(self).holds(
                    other,
                ) by {
                    let k = old(self).index_of(other);
                    assert(self.entries[k].0@ == other);
                }
                assert forall|other: Seq<char>| final(self).holds(other) && other
                    != key implies old(self).holds(other) by {
                    let k = final(self).index_of(other);
                    assert(before[k].0@ == other);
                }
                assert(self@ =~= old(self)@.insert(key, session));
            },
        }
    }

    /// Makes the session of a client that identified with `identify`, puts
    /// it under a new identifier drawn at random, and returns the identifier.
    pub fn create_session(&mut self, identify: &IdentifyInfo) -> (id: String)
        ensures
            is_session_id(id@),
            final(self)@ == old(self)@.insert(id@, Session::of(identify@)),
    {
        let session = Session::from(identify);
        let id = fresh_session_id();
        self.insert(id.clone(), session);
        id
    }

    /// A copy of the session under `id`, if there is one.
    pub fn get_session(&self, id: &String) -> (session: Option<Session>)
        ensures
            session == if self@.dom().contains(id@) {
                Some(self@[id@])
            } else {
                None
            },
    {
        proof {
            use_type_invariant(self);
        }
        match self.position(id) {
            Some(i) => Some(self.entries[i].1),
            None => None,
        }
    }

    /// Whether there is a session under `id`.
    pub fn contains(&self, id: &String) -> (known: bool)
        ensures
            known == self@.dom().contains(id@),
    {
        self.position(id).is_some()
    }

    /// Takes the session under `id` out, if there is one.
    pub fn destroy_session(&mut self, id: &String)
        ensures
            final(self)@ == old(self)@.remove(id@),
    {
        proof {
            use_type_invariant(&*self);
        }
        match self.position(id) {
            Some(i) => {
                let ghost before = self.entries@;
                let mut entries = self.take_entries();
                entries.remove(i);
                self.entries = entries;
                assert forall|other: Seq<char>| old(self).holds(other) && other
                    != id@ implies final(self).holds(other) by {
                    let k = old(self).index_of(other);
                    if k < i {
                        assert(self.entries[k].0@ == other);
                    } else {
                        assert(self.entries[k - 1].0@ == other);
                    }
                }
                assert forall|other: Seq<char>| final(self).holds(other) implies old(self).holds(
                    other,
                ) && other != id@ by {
                    let k = final(self).index_of(other);
                    if k < i {
                        assert(before[k].0@ == other);
                    } else {
                        assert(before[k + 1].0@ == other);
                    }
                }
                assert(self@ =~= old(self)@.remove(id@));
            },
            None => {
                assert(self@ =~= old(self)@.remove(id@));
            },
        }
    }
}

/// Destroying a session twice leaves the registry as destroying it once
/// does.
pub proof fn lemma_destroy_is_idempotent(registry: Map<Seq<char>, Session>, id: Seq<char>)
    ensures
        registry.remove(id).remove(id) == registry.remove(id),
{
    assert(registry.remove(id).remove(id) =~= registry.remove(id));
}

/// A session is in the registry once it is put there, under its identifier
/// and as it was put, and is there no more once it is destroyed.
pub proof fn lemma_session_lives_until_destroyed(
    registry: Map<Seq<char>, Session>,
    id: Seq<char>,
    session: Session,
)
    ensures
        registry.insert(id, session).dom().contains(id),
        registry.insert(id, session)[id] == session,
        !registry.insert(id, session).remove(id).dom().contains(id),
{
}

/// Putting or destroying a session leaves every other session as it is.
pub proof fn lemma_other_sessions_stay(
    registry: Map<Seq<char>, Session>,
    id: Seq<char>,
    session: Session,
    other: Seq<char>,
)
    requires
        other != id,
    ensures
        registry.insert(id, session).dom().contains(other) == registry.dom().contains(other),
        registry.remove(id).dom().contains(other) == registry.dom().contains(other),
        registry.dom().contains(other) ==> registry.insert(id, session)[other] == registry[other]
            && registry.remove(id)[other] == registry[other],
{
}

} // verus!
