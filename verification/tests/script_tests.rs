use gateway_mock::script::{parse, read_line, Action, ParseError};
use gateway_mock::text::{parse_u64, same_text, split_at_space};

fn written(action: &Action) -> String {
    match action {
        Action::Sleep(millis) => {
            if *millis <= u128::from(u64::MAX) {
                format!("sleep_ms {}", millis)
            } else {
                format!("sleep_s {}", millis / 1000)
            }
        }
        Action::InvalidateSession(resumable) => format!("invalidate_session {}", resumable),
        Action::Dispatch { event_type, data } => format!("dispatch {} {}", event_type, data),
        Action::Heartbeat => String::from("heartbeat"),
        Action::RandomMessageCreate => String::from("random_message_create"),
        Action::RandomGuildCreate => String::from("random_guild_create"),
        Action::GracefulClose => String::from("graceful_close"),
        Action::AbruptClose => String::from("abrupt_close"),
    }
}

fn same(a: &Action, b: &Action) -> bool {
    match (a, b) {
        (Action::Sleep(x), Action::Sleep(y)) => x == y,
        (Action::InvalidateSession(x), Action::InvalidateSession(y)) => x == y,
        (
            Action::Dispatch { event_type: e1, data: d1 },
            Action::Dispatch { event_type: e2, data: d2 },
        ) => e1 == e2 && d1 == d2,
        (Action::Heartbeat, Action::Heartbeat) => true,
        (Action::RandomMessageCreate, Action::RandomMessageCreate) => true,
        (Action::RandomGuildCreate, Action::RandomGuildCreate) => true,
        (Action::GracefulClose, Action::GracefulClose) => true,
        (Action::AbruptClose, Action::AbruptClose) => true,
        _ => false,
    }
}

#[test]
fn parses_a_pause_in_milliseconds() {
    let script = parse("sleep_ms 250").unwrap();
    assert_eq!(script.len(), 1);
    assert!(matches!(script[0], Action::Sleep(250)));
}

#[test]
fn parses_a_pause_in_seconds_as_milliseconds() {
    let script = parse("sleep_s 2").unwrap();
    assert_eq!(script.len(), 1);
    assert!(matches!(script[0], Action::Sleep(2000)));
}

#[test]
fn the_longest_pauses_fit() {
    let script = parse("sleep_ms 18446744073709551615\nsleep_s 18446744073709551615").unwrap();
    assert!(matches!(script[0], Action::Sleep(18_446_744_073_709_551_615)));
    assert!(matches!(script[1], Action::Sleep(18_446_744_073_709_551_615_000)));
}

#[test]
fn a_pause_needs_a_number_of_64_bits() {
    assert_eq!(parse("sleep_ms 18446744073709551616").unwrap_err(), ParseError::ExpectedInteger);
    assert_eq!(parse("sleep_ms soon").unwrap_err(), ParseError::ExpectedInteger);
    assert_eq!(parse("sleep_ms -1").unwrap_err(), ParseError::ExpectedInteger);
    assert_eq!(parse("sleep_ms 1.5").unwrap_err(), ParseError::ExpectedInteger);
    assert_eq!(parse("sleep_s 5 ").unwrap_err(), ParseError::ExpectedInteger);
    assert_eq!(parse("sleep_s 5 6").unwrap_err(), ParseError::ExpectedInteger);
    assert_eq!(parse("sleep_s ").unwrap_err(), ParseError::ExpectedInteger);
    assert_eq!(parse("sleep_s +").unwrap_err(), ParseError::ExpectedInteger);
}

#[test]
fn a_number_may_have_a_plus_sign_and_leading_zeros() {
    let script = parse("sleep_ms +7\nsleep_ms 007").unwrap();
    assert!(matches!(script[0], Action::Sleep(7)));
    assert!(matches!(script[1], Action::Sleep(7)));
}

#[test]
fn a_missing_argument_is_told_apart_from_a_wrong_one() {
    assert_eq!(parse("sleep_ms").unwrap_err(), ParseError::MissingRequiredArgument);
    assert_eq!(parse("sleep_s").unwrap_err(), ParseError::MissingRequiredArgument);
    assert_eq!(parse("invalidate_session").unwrap_err(), ParseError::MissingRequiredArgument);
    assert_eq!(parse("dispatch").unwrap_err(), ParseError::MissingRequiredArgument);
    assert_eq!(parse("dispatch READY").unwrap_err(), ParseError::MissingRequiredArgument);
}

#[test]
fn parses_an_invalidation() {
    let script = parse("invalidate_session true\ninvalidate_session false").unwrap();
    assert!(matches!(script[0], Action::InvalidateSession(true)));
    assert!(matches!(script[1], Action::InvalidateSession(false)));
}

#[test]
fn an_invalidation_needs_a_boolean() {
    assert_eq!(parse("invalidate_session yes").unwrap_err(), ParseError::ExpectedBoolean);
    assert_eq!(parse("invalidate_session True").unwrap_err(), ParseError::ExpectedBoolean);
    assert_eq!(parse("invalidate_session true ").unwrap_err(), ParseError::ExpectedBoolean);
    assert_eq!(parse("invalidate_session ").unwrap_err(), ParseError::ExpectedBoolean);
}

#[test]
fn parses_a_dispatch_with_its_json() {
    let script = parse("dispatch MESSAGE_CREATE {\"id\":\"1\"}").unwrap();
    assert_eq!(script.len(), 1);
    match &script[0] {
        Action::Dispatch { event_type, data } => {
            assert_eq!(event_type, "MESSAGE_CREATE");
            assert_eq!(data, "{\"id\":\"1\"}");
        }
        other => panic!("unexpected action {:?}", other),
    }
}

#[test]
fn the_json_of_a_dispatch_may_hold_spaces() {
    let script = parse("dispatch TYPING_START { \"a\" : [1, 2, 3] }").unwrap();
    match &script[0] {
        Action::Dispatch { event_type, data } => {
            assert_eq!(event_type, "TYPING_START");
            assert_eq!(data, "{ \"a\" : [1, 2, 3] }");
        }
        other => panic!("unexpected action {:?}", other),
    }
}

#[test]
fn a_dispatch_needs_json() {
    assert_eq!(parse("dispatch MESSAGE_CREATE {").unwrap_err(), ParseError::InvalidJson);
    assert_eq!(parse("dispatch MESSAGE_CREATE {\"id\":}").unwrap_err(), ParseError::InvalidJson);
    assert_eq!(parse("dispatch MESSAGE_CREATE nonsense").unwrap_err(), ParseError::InvalidJson);
    assert_eq!(parse("dispatch MESSAGE_CREATE ").unwrap_err(), ParseError::InvalidJson);
}

#[test]
fn the_checked_dispatch_goes_by_the_answer_it_is_given() {
    let made = Action::dispatch(String::from("A"), String::from("{}"), true).unwrap();
    assert!(same(&made, &Action::Dispatch { event_type: String::from("A"), data: String::from("{}") }));
    assert_eq!(
        Action::dispatch(String::from("A"), String::from("{}"), false).unwrap_err(),
        ParseError::InvalidJson
    );
}

#[test]
fn parses_the_actions_without_arguments() {
    let script = parse(
        "heartbeat\nrandom_message_create\nrandom_guild_create\ngraceful_close\nabrupt_close",
    )
    .unwrap();
    assert_eq!(script.len(), 5);
    assert!(matches!(script[0], Action::Heartbeat));
    assert!(matches!(script[1], Action::RandomMessageCreate));
    assert!(matches!(script[2], Action::RandomGuildCreate));
    assert!(matches!(script[3], Action::GracefulClose));
    assert!(matches!(script[4], Action::AbruptClose));
}

#[test]
fn arguments_of_an_action_without_any_are_passed_over() {
    let script = parse("heartbeat now\nabrupt_close \n").unwrap();
    assert!(matches!(script[0], Action::Heartbeat));
    assert!(matches!(script[1], Action::AbruptClose));
}

#[test]
fn refuses_an_unknown_action() {
    assert_eq!(parse("dance").unwrap_err(), ParseError::InvalidAction);
    assert_eq!(parse("Heartbeat").unwrap_err(), ParseError::InvalidAction);
    assert_eq!(parse("sleep 5").unwrap_err(), ParseError::InvalidAction);
}

#[test]
fn a_line_that_starts_with_white_space_names_no_action() {
    assert_eq!(parse(" heartbeat").unwrap_err(), ParseError::InvalidAction);
    assert_eq!(parse("\theartbeat").unwrap_err(), ParseError::InvalidAction);
    assert_eq!(parse("   ").unwrap_err(), ParseError::InvalidAction);
}

#[test]
fn an_empty_script_has_no_actions() {
    assert_eq!(parse("").unwrap().len(), 0);
    assert_eq!(parse("\n").unwrap().len(), 0);
    assert_eq!(parse("\n\n\r\n").unwrap().len(), 0);
}

#[test]
fn empty_lines_are_passed_over() {
    let script = parse("\nheartbeat\n\n\nsleep_ms 1\n\n").unwrap();
    assert_eq!(script.len(), 2);
    assert!(matches!(script[0], Action::Heartbeat));
    assert!(matches!(script[1], Action::Sleep(1)));
}

#[test]
fn lines_may_end_with_a_carriage_return_and_a_line_feed() {
    let script = parse("sleep_ms 5\r\ninvalidate_session true\r\nheartbeat").unwrap();
    assert_eq!(script.len(), 3);
    assert!(matches!(script[0], Action::Sleep(5)));
    assert!(matches!(script[1], Action::InvalidateSession(true)));
    assert!(matches!(script[2], Action::Heartbeat));
}

#[test]
fn a_carriage_return_without_a_line_feed_stays_in_the_line() {
    assert_eq!(parse("sleep_ms 5\r").unwrap_err(), ParseError::ExpectedInteger);
    let script = parse("heartbeat\r").unwrap();
    assert!(matches!(script[0], Action::Heartbeat));
}

#[test]
fn a_run_of_white_space_parts_the_name_from_the_arguments() {
    let script = parse("sleep_ms   12\nsleep_s\t3\ndispatch \t A   {}").unwrap();
    assert!(matches!(script[0], Action::Sleep(12)));
    assert!(matches!(script[1], Action::Sleep(3000)));
    match &script[2] {
        Action::Dispatch { event_type, data } => {
            assert_eq!(event_type, "A");
            assert_eq!(data, "{}");
        }
        other => panic!("unexpected action {:?}", other),
    }
}

#[test]
fn the_first_line_in_error_fails_the_script() {
    assert_eq!(
        parse("heartbeat\nsleep_ms x\ninvalidate_session maybe").unwrap_err(),
        ParseError::ExpectedInteger
    );
    assert_eq!(
        parse("heartbeat\n\ninvalidate_session maybe\nsleep_ms x").unwrap_err(),
        ParseError::ExpectedBoolean
    );
}

#[test]
fn actions_come_in_the_order_of_their_lines() {
    let script = parse("sleep_ms 1\nsleep_ms 2\nsleep_ms 3\nsleep_ms 4").unwrap();
    assert_eq!(script.len(), 4);
    for (at, action) in script.iter().enumerate() {
        assert!(same(action, &Action::Sleep(at as u128 + 1)));
    }
}

#[test]
fn try_from_takes_a_name_and_its_arguments() {
    assert!(matches!(Action::try_from(("sleep_ms", Some("40"))), Ok(Action::Sleep(40))));
    assert!(matches!(Action::try_from(("sleep_s", Some("40"))), Ok(Action::Sleep(40_000))));
    assert!(matches!(
        Action::try_from(("invalidate_session", Some("false"))),
        Ok(Action::InvalidateSession(false))
    ));
    assert!(matches!(Action::try_from(("heartbeat", None)), Ok(Action::Heartbeat)));
    assert!(matches!(
        Action::try_from(("sleep_ms", None)),
        Err(ParseError::MissingRequiredArgument)
    ));
    assert!(matches!(Action::try_from(("sleep_ms", Some(" 40"))), Err(ParseError::ExpectedInteger)));
    assert!(matches!(Action::try_from(("", None)), Err(ParseError::InvalidAction)));
    assert!(matches!(
        Action::try_from(("dispatch", Some("A [1,2"))),
        Err(ParseError::InvalidJson)
    ));
}

#[test]
fn every_action_is_read_back_from_the_line_it_is_written_as() {
    let lines = [
        "sleep_ms 0",
        "sleep_ms +0017",
        "sleep_s 3",
        "sleep_s 18446744073709551615",
        "sleep_s 18446744073709551",
        "invalidate_session true",
        "invalidate_session   false",
        "dispatch MESSAGE_CREATE {\"id\":\"1\"}",
        "dispatch  X\t[1, 2]  ",
        "dispatch é null",
        "heartbeat",
        "heartbeat ignored words",
        "random_message_create",
        "random_guild_create",
        "graceful_close",
        "abrupt_close",
    ];
    for line in lines {
        let action = read_line(line).unwrap();
        let again = read_line(&written(&action)).unwrap();
        assert!(same(&action, &again), "{:?} and {:?}", action, again);
    }
}

#[test]
fn the_written_line_is_the_canonical_one() {
    assert_eq!(written(&read_line("sleep_ms +0017").unwrap()), "sleep_ms 17");
    assert_eq!(written(&read_line("sleep_s 3").unwrap()), "sleep_ms 3000");
    assert_eq!(
        written(&read_line("sleep_s 18446744073709551615").unwrap()),
        "sleep_s 18446744073709551615"
    );
    assert_eq!(written(&read_line("dispatch  X\t[1, 2]  ").unwrap()), "dispatch X [1, 2]  ");
}

#[test]
fn errors_read_as_words() {
    assert_eq!(ParseError::InvalidAction.to_string(), "Invalid action");
    assert_eq!(ParseError::ExpectedBoolean.to_string(), "Expected a boolean");
    assert_eq!(ParseError::ExpectedInteger.to_string(), "Expected an integer");
    assert_eq!(ParseError::MissingRequiredArgument.to_string(), "Missing required argument");
    assert_eq!(ParseError::InvalidJson.to_string(), "Invalid JSON");
}

#[test]
fn a_text_is_cut_at_its_first_run_of_white_space() {
    assert_eq!(split_at_space("a b c"), (String::from("a"), Some(String::from("b c"))));
    assert_eq!(split_at_space("a \t\r b"), (String::from("a"), Some(String::from("b"))));
    assert_eq!(split_at_space("a"), (String::from("a"), None));
    assert_eq!(split_at_space("a "), (String::from("a"), Some(String::new())));
    assert_eq!(split_at_space(" a"), (String::new(), Some(String::from("a"))));
    assert_eq!(split_at_space(""), (String::new(), None));
    assert_eq!(split_at_space("é\u{a0}x y"), (String::from("é\u{a0}x"), Some(String::from("y"))));
}

#[test]
fn decimal_numbers_are_read_as_the_standard_library_reads_them() {
    let texts = [
        "0", "1", "9", "10", "+3", "-3", "", "+", "++1", "1+", " 1", "1 ", "0x10", "١",
        "00000000000000000000000000001", "18446744073709551615", "18446744073709551616",
        "99999999999999999999", "184467440737095516150", "1_000", "12a",
    ];
    for text in texts {
        assert_eq!(parse_u64(text), text.parse::<u64>().ok(), "{:?}", text);
    }
}

#[test]
fn texts_are_the_same_when_their_characters_are() {
    assert!(same_text("abc", "abc"));
    assert!(same_text("", ""));
    assert!(!same_text("abc", "abd"));
    assert!(!same_text("abc", "ab"));
    assert!(!same_text("", "a"));
}
