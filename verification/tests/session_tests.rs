use gateway_mock::flags::Intents;
use gateway_mock::payload::{IdentifyInfo, ShardId};
use gateway_mock::session::{Session, Sessions, SESSION_ID_LEN};

fn identify(intents: u64) -> IdentifyInfo {
    IdentifyInfo {
        compress: true,
        intents: Intents::from_bits(intents),
        shard: Some(ShardId { number: 2, total: 5 }),
        token: String::from("Bot T"),
    }
}

fn session(intents: u64) -> Session {
    Session { shard_id: None, compress: false, intents: Intents::from_bits(intents) }
}

#[test]
fn a_session_keeps_what_the_client_identified_with() {
    let made = Session::from(&identify(9));
    assert_eq!(
        made,
        Session {
            shard_id: Some(ShardId { number: 2, total: 5 }),
            compress: true,
            intents: Intents::from_bits(9),
        }
    );
}

#[test]
fn a_new_registry_is_empty() {
    let sessions = Sessions::new();
    assert!(!sessions.contains(&String::from("a")));
    assert_eq!(sessions.get_session(&String::new()), None);
}

#[test]
fn a_created_session_has_an_identifier_of_32_letters_and_digits() {
    let mut sessions = Sessions::new();
    let id = sessions.create_session(&identify(1));
    assert_eq!(SESSION_ID_LEN, 32);
    assert_eq!(id.chars().count(), 32);
    assert_eq!(id.len(), 32);
    assert!(id.chars().all(|c| c.is_ascii_alphanumeric()));
}

#[test]
fn a_created_session_is_found_under_its_identifier() {
    let mut sessions = Sessions::new();
    let id = sessions.create_session(&identify(5));
    assert!(sessions.contains(&id));
    assert_eq!(sessions.get_session(&id), Some(Session::from(&identify(5))));
}

#[test]
fn created_sessions_get_identifiers_of_their_own() {
    let mut sessions = Sessions::new();
    let first = sessions.create_session(&identify(1));
    let second = sessions.create_session(&identify(2));
    assert_ne!(first, second);
    assert_eq!(sessions.get_session(&first).unwrap().intents.bits(), 1);
    assert_eq!(sessions.get_session(&second).unwrap().intents.bits(), 2);
}

#[test]
fn a_destroyed_session_is_gone() {
    let mut sessions = Sessions::new();
    let id = sessions.create_session(&identify(1));
    sessions.destroy_session(&id);
    assert!(!sessions.contains(&id));
    assert_eq!(sessions.get_session(&id), None);
}

#[test]
fn destroying_twice_is_destroying_once() {
    let mut sessions = Sessions::new();
    let kept = String::from("kept");
    let gone = String::from("gone");
    sessions.insert(kept.clone(), session(1));
    sessions.insert(gone.clone(), session(2));
    sessions.destroy_session(&gone);
    assert!(sessions.contains(&kept));
    assert!(!sessions.contains(&gone));
    sessions.destroy_session(&gone);
    assert!(sessions.contains(&kept));
    assert!(!sessions.contains(&gone));
    assert_eq!(sessions.get_session(&kept), Some(session(1)));
}

#[test]
fn destroying_an_unknown_session_changes_nothing() {
    let mut sessions = Sessions::new();
    sessions.insert(String::from("a"), session(1));
    sessions.destroy_session(&String::from("b"));
    assert_eq!(sessions.get_session(&String::from("a")), Some(session(1)));
    sessions.destroy_session(&String::new());
    assert!(sessions.contains(&String::from("a")));
}

#[test]
fn inserting_under_a_taken_identifier_replaces_the_session() {
    let mut sessions = Sessions::new();
    sessions.insert(String::from("a"), session(1));
    sessions.insert(String::from("b"), session(2));
    sessions.insert(String::from("a"), session(3));
    assert_eq!(sessions.get_session(&String::from("a")), Some(session(3)));
    assert_eq!(sessions.get_session(&String::from("b")), Some(session(2)));
    sessions.destroy_session(&String::from("a"));
    assert!(!sessions.contains(&String::from("a")));
    assert!(sessions.contains(&String::from("b")));
}

#[test]
fn destroying_one_session_leaves_the_others() {
    let mut sessions = Sessions::new();
    for name in ["a", "b", "c", "d"] {
        sessions.insert(String::from(name), session(name.len() as u64));
    }
    sessions.destroy_session(&String::from("b"));
    assert!(sessions.contains(&String::from("a")));
    assert!(!sessions.contains(&String::from("b")));
    assert!(sessions.contains(&String::from("c")));
    assert!(sessions.contains(&String::from("d")));
    sessions.destroy_session(&String::from("a"));
    sessions.destroy_session(&String::from("d"));
    assert!(sessions.contains(&String::from("c")));
    assert!(!sessions.contains(&String::from("d")));
}
