//! The script of a gateway: a list of timed actions, written one to a line,
//! read once and replayed on every connection that becomes ready.

use crate::handler::{ConnectionState, GatewayEvent, GatewayEventData};
use crate::order::{lemma_enqueue_in_order, lemma_invalidate_in_order, lemma_send_data_in_order};
use crate::protocol::{EnvelopeView, FrameView, PayloadView, StateView};
use crate::session::{Session, Sessions};
use crate::text::{
    chars_of, decimal_digits, decimal_u64, is_space, is_word, lemma_decimal_digits,
    lemma_run_end, lemma_run_end_found, lemma_word_end, lemma_word_end_found, parse_u64,
    same_text, split, split_at_space, text_of, word_end,
};
use vstd::prelude::*;

verus! {

/// One step of a script.
#[derive(Debug)]
pub enum Action {
    /// Pause for so many milliseconds.
    Sleep(u128),
    /// Invalidate the connection's session, and tell the client whether it
    /// may resume.
    InvalidateSession(bool),
    /// Dispatch an event of the given name, with JSON text as its data.
    Dispatch { event_type: String, data: String },
    /// Ask the client for a heartbeat.
    Heartbeat,
    RandomMessageCreate,
    RandomGuildCreate,
    GracefulClose,
    AbruptClose,
}

/// An `Action` as mathematics.
pub enum ActionView {
    Sleep(u128),
    InvalidateSession(bool),
    Dispatch { event_type: Seq<char>, data: Seq<char> },
    Heartbeat,
    RandomMessageCreate,
    RandomGuildCreate,
    GracefulClose,
    AbruptClose,
}

impl DeepView for Action {
    type V = ActionView;

    open spec fn deep_view(&self) -> ActionView {
        match self {
            Action::Sleep(millis) => ActionView::Sleep(*millis),
            Action::InvalidateSession(resumable) => ActionView::InvalidateSession(*resumable),
            Action::Dispatch { event_type, data } => ActionView::Dispatch {
                event_type: event_type@,
                data: data@,
            },
            Action::Heartbeat => ActionView::Heartbeat,
            Action::RandomMessageCreate => ActionView::RandomMessageCreate,
            Action::RandomGuildCreate => ActionView::RandomGuildCreate,
            Action::GracefulClose => ActionView::GracefulClose,
            Action::AbruptClose => ActionView::AbruptClose,
        }
    }
}

impl View for Action {
    type V = ActionView;

    open spec fn view(&self) -> ActionView {
        self.deep_view()
    }
}

/// Why a script cannot be read.
#[derive(Clone, Copy, Debug, PartialEq, Eq, Structural)]
pub enum ParseError {
    InvalidAction,
    ExpectedBoolean,
    ExpectedInteger,
    MissingRequiredArgument,
    InvalidJson,
}

impl ParseError {
    /// The error in words.
    pub open spec fn message(self) -> Seq<char> {
        match self {
            ParseError::InvalidAction => "Invalid action"@,
            ParseError::ExpectedBoolean => "Expected a boolean"@,
            ParseError::ExpectedInteger => "Expected an integer"@,
            ParseError::MissingRequiredArgument => "Missing required argument"@,
            ParseError::InvalidJson => "Invalid JSON"@,
        }
    }

    /// The error in words.
    pub fn to_string(&self) -> (text: String)
        ensures
            text@ == self.message(),
    {
        match self {
            ParseError::InvalidAction => "Invalid action".to_owned(),
            ParseError::ExpectedBoolean => "Expected a boolean".to_owned(),
            ParseError::ExpectedInteger => "Expected an integer".to_owned(),
            ParseError::MissingRequiredArgument => "Missing required argument".to_owned(),
            ParseError::InvalidJson => "Invalid JSON".to_owned(),
        }
    }
}

/// Whether `simd_json` reads a text as a JSON document.
pub uninterp spec fn json_accepted(text: Seq<char>) -> bool;

/// `simd_json::from_slice` for a `simd_json::OwnedValue`, on a copy of the
/// text's bytes, with the value and the error dropped. The contract gives
/// the answer its name and claims nothing else of it.
#[verifier::external_body]
fn accepts_json(text: &str) -> (accepted: bool)
    ensures
        accepted == json_accepted(text@),
{
    let mut bytes = text.as_bytes().to_vec();
    simd_json::from_slice::<simd_json::OwnedValue>(&mut bytes).is_ok()
}

/// What was read, as mathematics.
pub open spec fn read(result: Result<Action, ParseError>) -> Result<ActionView, ParseError> {
    match result {
        Ok(action) => Ok(action@),
        Err(error) => Err(error),
    }
}

/// What a whole script read as, as mathematics.
pub open spec fn read_all(result: Result<Vec<Action>, ParseError>) -> Result<
    Seq<ActionView>,
    ParseError,
> {
    match result {
        Ok(actions) => Ok(actions.deep_view()),
        Err(error) => Err(error),
    }
}

/// The pause that a number of a unit stands for, or the error where the
/// argument is missing or no number.
pub open spec fn parse_sleep(arguments: Option<Seq<char>>, unit: nat) -> Result<
    ActionView,
    ParseError,
> {
    match arguments {
        None => Err(ParseError::MissingRequiredArgument),
        Some(text) => match decimal_u64(text) {
            Some(count) => Ok(ActionView::Sleep((count * unit) as u128)),
            None => Err(ParseError::ExpectedInteger),
        },
    }
}

/// The dispatch of an event with data that was or was not accepted as JSON.
pub open spec fn checked_dispatch(event_type: Seq<char>, data: Seq<char>, accepted: bool) -> Result<
    ActionView,
    ParseError,
> {
    if accepted {
        Ok(ActionView::Dispatch { event_type, data })
    } else {
        Err(ParseError::InvalidJson)
    }
}

/// The action that a name and its arguments stand for, or why they stand
/// for none.
pub open spec fn parse_action(name: Seq<char>, arguments: Option<Seq<char>>) -> Result<
    ActionView,
    ParseError,
> {
    if name == "sleep_ms"@ {
        parse_sleep(arguments, 1)
    } else if name == "sleep_s"@ {
        parse_sleep(arguments, 1000)
    } else if name == "invalidate_session"@ {
        match arguments {
            None => Err(ParseError::MissingRequiredArgument),
            Some(text) => if text == "true"@ {
                Ok(ActionView::InvalidateSession(true))
            } else if text == "false"@ {
                Ok(ActionView::InvalidateSession(false))
            } else {
                Err(ParseError::ExpectedBoolean)
            },
        }
    } else if name == "dispatch"@ {
        match arguments {
            None => Err(ParseError::MissingRequiredArgument),
            Some(text) => match split(text) {
                (event_type, Some(data)) => checked_dispatch(
                    event_type,
                    data,
                    json_accepted(data),
                ),
                (_, None) => Err(ParseError::MissingRequiredArgument),
            },
        }
    } else if name == "heartbeat"@ {
        Ok(ActionView::Heartbeat)
    } else if name == "random_message_create"@ {
        Ok(ActionView::RandomMessageCreate)
    } else if name == "random_guild_create"@ {
        Ok(ActionView::RandomGuildCreate)
    } else if name == "graceful_close"@ {
        Ok(ActionView::GracefulClose)
    } else if name == "abrupt_close"@ {
        Ok(ActionView::AbruptClose)
    } else {
        Err(ParseError::InvalidAction)
    }
}

impl Action {
    /// The pause of `count` units of `unit` milliseconds each.
    fn sleep(arguments: Option<&str>, unit: u16) -> (action: Result<Action, ParseError>)
        ensures
            read(action) == parse_sleep(arguments.deep_view(), unit as nat),
    {
        match arguments {
            None => Err(ParseError::MissingRequiredArgument),
            Some(text) => match parse_u64(text) {
                Some(count) => {
                    assert(count * unit <= u64::MAX * u16::MAX) by (nonlinear_arith)
                        requires
                            count <= u64::MAX,
                            unit <= u16::MAX,
                    ;
                    Ok(Action::Sleep(count as u128 * unit as u128))
                },
                None => Err(ParseError::ExpectedInteger),
            },
        }
    }

    /// The dispatch of an event whose data was or was not accepted as JSON.
    pub fn dispatch(event_type: String, data: String, accepted: bool) -> (action: Result<
        Action,
        ParseError,
    >)
        ensures
            read(action) == checked_dispatch(event_type@, data@, accepted),
    {
        if accepted {
            Ok(Action::Dispatch { event_type, data })
        } else {
            Err(ParseError::InvalidJson)
        }
    }
}

impl TryFrom<(&str, Option<&str>)> for Action {
    type Error = ParseError;

    /// The action that a name and its arguments stand for.
    fn try_from(named: (&str, Option<&str>)) -> (action: Result<Action, ParseError>)
        ensures
            read(action) == parse_action(named.0@, named.1.deep_view()),
    {
        let (action_name, arguments) = named;
        if same_text(action_name, "sleep_ms") {
            Action::sleep(arguments, 1)
        } else if same_text(action_name, "sleep_s") {
            Action::sleep(arguments, 1000)
        } else if same_text(action_name, "invalidate_session") {
            match arguments {
                None => Err(ParseError::MissingRequiredArgument),
                Some(text) => if same_text(text, "true") {
                    Ok(Action::InvalidateSession(true))
                } else if same_text(text, "false") {
                    Ok(Action::InvalidateSession(false))
                } else {
                    Err(ParseError::ExpectedBoolean)
                },
            }
        } else if same_text(action_name, "dispatch") {
            match arguments {
                None => Err(ParseError::MissingRequiredArgument),
                Some(text) => {
                    let (event_type, data) = split_at_space(text);
                    match data {
                        Some(data) => {
                            let accepted = accepts_json(data.as_str());
                            Action::dispatch(event_type, data, accepted)
                        },
                        None => Err(ParseError::MissingRequiredArgument),
                    }
                },
            }
        } else if same_text(action_name, "heartbeat") {
            Ok(Action::Heartbeat)
        } else if same_text(action_name, "random_message_create") {
            Ok(Action::RandomMessageCreate)
        } else if same_text(action_name, "random_guild_create") {
            Ok(Action::RandomGuildCreate)
        } else if same_text(action_name, "graceful_close") {
            Ok(Action::GracefulClose)
        } else if same_text(action_name, "abrupt_close") {
            Ok(Action::AbruptClose)
        } else {
            Err(ParseError::InvalidAction)
        }
    }
}

impl vstd::std_specs::convert::TryFromSpecImpl<(&str, Option<&str>)> for Action {
    /// An action may hold texts that `try_from` makes, so the action is
    /// stated by its view, in the contract of `try_from`.
    open spec fn obeys_try_from_spec() -> bool {
        false
    }

    open spec fn try_from_spec(named: (&str, Option<&str>)) -> Result<Action, ParseError> {
        Err(ParseError::InvalidAction)
    }
}

/// Where the line that starts at `from` ends: at the first line feed from
/// there on, or where the text ends.
pub open spec fn line_end(text: Seq<char>, from: int) -> int
    decreases text.len() - from,
{
    if from < 0 || from >= text.len() {
        from
    } else if text[from] == '\n' {
        from
    } else {
        line_end(text, from + 1)
    }
}

/// A position is where the line from `from` ends exactly if no line feed
/// lies before it and a line feed or the end of the text lies at it.
pub proof fn lemma_line_end(text: Seq<char>, from: int, end: int)
    requires
        0 <= from <= end <= text.len(),
        forall|i: int| from <= i < end ==> #[trigger] text[i] != '\n',
        end < text.len() ==> text[end] == '\n',
    ensures
        line_end(text, from) == end,
    decreases end - from,
{
    if from < end {
        lemma_line_end(text, from + 1, end);
    }
}

/// The line from `from` ends within the text.
pub proof fn lemma_line_end_within(text: Seq<char>, from: int)
    requires
        0 <= from <= text.len(),
    ensures
        from <= line_end(text, from) <= text.len(),
    decreases text.len() - from,
{
    if from < text.len() && text[from] != '\n' {
        lemma_line_end_within(text, from + 1);
    }
}

/// The line that starts at `from`, without the line feed that ends it, and
/// without a carriage return before that line feed.
pub open spec fn line_at(text: Seq<char>, from: int) -> Seq<char> {
    let end = line_end(text, from);
    if end < text.len() && from < end && text[end - 1] == '\r' {
        text.subrange(from, end - 1)
    } else {
        text.subrange(from, end)
    }
}

/// Where the line after the one that starts at `from` starts.
pub open spec fn line_after(text: Seq<char>, from: int) -> int {
    let end = line_end(text, from);
    if end < text.len() {
        end + 1
    } else {
        end
    }
}

/// The lines of a text from `from` on. A line ends with a line feed, or
/// with a carriage return and a line feed; the last line may end with the
/// text.
pub open spec fn lines_from(text: Seq<char>, from: int) -> Seq<Seq<char>>
    decreases text.len() - from,
{
    if from < 0 || from >= text.len() {
        Seq::empty()
    } else {
        proof {
            lemma_line_end_within(text, from);
        }
        seq![line_at(text, from)] + lines_from(text, line_after(text, from))
    }
}

/// The action that a line stands for, or why it stands for none. The first
/// run of white space parts the action's name from its arguments.
pub open spec fn parse_line(line: Seq<char>) -> Result<ActionView, ParseError> {
    let (name, arguments) = split(line);
    parse_action(name, arguments)
}

/// The actions that lines stand for, in their order, or the error of the
/// first line that stands for none. Empty lines are passed over.
pub open spec fn parse_lines(lines: Seq<Seq<char>>) -> Result<Seq<ActionView>, ParseError>
    decreases lines.len(),
{
    if lines.len() == 0 {
        Ok(Seq::empty())
    } else if lines[0].len() == 0 {
        parse_lines(lines.skip(1))
    } else {
        match parse_line(lines[0]) {
            Ok(action) => match parse_lines(lines.skip(1)) {
                Ok(rest) => Ok(seq![action] + rest),
                Err(error) => Err(error),
            },
            Err(error) => Err(error),
        }
    }
}

/// The actions that a script stands for, or why it stands for none.
pub open spec fn parse_script(text: Seq<char>) -> Result<Seq<ActionView>, ParseError> {
    parse_lines(lines_from(text, 0))
}

/// What is read of a script once `done` is read and `rest` is to come.
pub open spec fn read_on(done: Seq<ActionView>, rest: Result<Seq<ActionView>, ParseError>) -> Result<
    Seq<ActionView>,
    ParseError,
> {
    match rest {
        Ok(actions) => Ok(done + actions),
        Err(error) => Err(error),
    }
}

/// With nothing read yet, what is read of a script is what is to come.
proof fn lemma_read_on_nothing(rest: Result<Seq<ActionView>, ParseError>)
    ensures
        read_on(Seq::empty(), rest) == rest,
{
    if rest is Ok {
        assert(Seq::<ActionView>::empty() + rest->Ok_0 =~= rest->Ok_0);
    }
}

/// Reads the action that a line stands for.
pub fn read_line(line: &str) -> (action: Result<Action, ParseError>)
    ensures
        read(action) == parse_line(line@),
{
    let (name, arguments) = split_at_space(line);
    match arguments {
        Some(arguments) => Action::try_from((name.as_str(), Some(arguments.as_str()))),
        None => Action::try_from((name.as_str(), None)),
    }
}

/// Reads a script: one action to a line, empty lines passed over. The first
/// line that stands for no action fails the whole script.
pub fn parse(input: &str) -> (script: Result<Vec<Action>, ParseError>)
    ensures
        read_all(script) == parse_script(input@),
{
    let chars = chars_of(input);
    let mut actions: Vec<Action> = Vec::new();
    let mut from: usize = 0;
    proof {
        lemma_read_on_nothing(parse_script(input@));
    }
    while from < chars.len()
        invariant
            from <= chars.len(),
            chars@ == input@,
            parse_script(input@) == read_on(
                actions.deep_view(),
                parse_lines(lines_from(input@, from as int)),
            ),
        decreases chars.len() - from,
    {
        let mut end: usize = from;
        while end < chars.len() && chars[end] != '\n'
            invariant
                from <= end <= chars.len(),
                forall|i: int| from <= i < end ==> #[trigger] chars@[i] != '\n',
            decreases chars.len() - end,
        {
            end += 1;
        }
        proof {
            lemma_line_end(chars@, from as int, end as int);
        }
        let stop: usize = if end < chars.len() && from < end && chars[end - 1] == '\r' {
            end - 1
        } else {
            end
        };
        let next: usize = if end < chars.len() {
            end + 1
        } else {
            end
        };
        let ghost line = line_at(input@, from as int);
        let ghost rest = lines_from(input@, next as int);
        let ghost done = actions.deep_view();
        proof {
            let lines = lines_from(input@, from as int);
            assert(lines == seq![line] + rest);
            assert(lines[0] == line);
            assert(lines.skip(1) =~= rest);
            assert(line =~= chars@.subrange(from as int, stop as int));
            assert(line.len() == stop - from);
        }
        if stop > from {
            let text = text_of(&chars, from, stop);
            match read_line(text.as_str()) {
                Ok(action) => {
                    proof {
                        if parse_lines(rest) is Ok {
                            let more = parse_lines(rest)->Ok_0;
                            assert(done + (seq![action@] + more) =~= done.push(action@) + more);
                        }
                    }
                    actions.push(action);
                    assert(actions.deep_view() =~= done.push(action@));
                },
                Err(error) => {
                    return Err(error);
                },
            }
        }
        from = next;
    }
    assert(actions.deep_view() + Seq::<ActionView>::empty() =~= actions.deep_view());
    Ok(actions)
}

/// A connection and the registry of sessions, as an action leaves them.
pub struct Scene {
    pub state: StateView,
    pub registry: Map<Seq<char>, Session>,
}

/// Where a replay of the script stops: the connection and the registry as
/// they are then, and, unless the script is at its end, how long to pause
/// and at which action to go on afterwards.
pub struct Replay {
    pub scene: Scene,
    pub pause: Option<(usize, u128)>,
}

impl Scene {
    /// The scene after an action was run on it. A frame that the write side
    /// refuses is lost, and the script goes on. The actions that are
    /// reserved do nothing, and neither does a pause, which is the
    /// caller's to keep.
    pub open spec fn act(self, action: ActionView) -> Scene {
        match action {
            ActionView::InvalidateSession(resumable) => {
                let step = self.state.invalidate(self.registry, resumable);
                Scene { state: step.state, registry: step.registry }
            },
            ActionView::Dispatch { event_type, data } => Scene {
                state: StateView {
                    writer: self.state.writer.send_data(
                        PayloadView::RawDispatch { event_type, data },
                    ),
                    ..self.state
                },
                ..self
            },
            ActionView::Heartbeat => Scene {
                state: StateView {
                    writer: self.state.writer.enqueue(
                        FrameView::Event(EnvelopeView::heartbeat()),
                    ),
                    ..self.state
                },
                ..self
            },
            _ => self,
        }
    }

    /// Where the replay of `script` from the action at `from` stops: at the
    /// first pause, or at the end of the script.
    pub open spec fn replay(self, script: Seq<ActionView>, from: int) -> Replay
        decreases script.len() - from,
    {
        if from < 0 || from >= script.len() {
            Replay { scene: self, pause: None }
        } else {
            match script[from] {
                ActionView::Sleep(millis) => Replay {
                    scene: self,
                    pause: Some(((from + 1) as usize, millis)),
                },
                action => self.act(action).replay(script, from + 1),
            }
        }
    }
}

/// Runs one action on a connection. A pause is left to the caller: here it
/// does nothing.
pub fn run_action(state: &mut ConnectionState, sessions: &mut Sessions, action: &Action)
    ensures
        (Scene { state: final(state)@, registry: final(sessions)@ }) == (Scene {
            state: old(state)@,
            registry: old(sessions)@,
        }).act(action@),
{
    match action {
        Action::InvalidateSession(resumable) => {
            let _ = state.invalidate_session(sessions, *resumable);
        },
        Action::Dispatch { event_type, data } => {
            let event = GatewayEventData::raw_dispatch(event_type.clone(), data.clone());
            let _ = state.writer_mut().send_data(event);
        },
        Action::Heartbeat => {
            let _ = state.writer_mut().send(GatewayEvent::heartbeat());
        },
        _ => {},
    }
}

/// Replays the script on a connection, from the action at `from` up to the
/// first pause or the end of the script. At a pause it answers how many
/// milliseconds to wait and at which action to go on. What the write side
/// took before is still there, and a write side in order with room for as
/// many dispatches as actions are left stays in order.
pub fn run(state: &mut ConnectionState, sessions: &mut Sessions, script: &Vec<Action>, from: usize) -> (pause:
    Option<(usize, u128)>)
    ensures
        (Replay { scene: Scene { state: final(state)@, registry: final(sessions)@ }, pause })
            == (Scene { state: old(state)@, registry: old(sessions)@ }).replay(
            script.deep_view(),
            from as int,
        ),
        old(state)@.writer.precedes(final(state)@.writer),
        old(state)@.writer.consistent() && old(state)@.writer.has_room(script.len() as nat)
            ==> final(state)@.writer.consistent(),
{
    let pause = play(state, sessions, script, from);
    proof {
        let scene = Scene { state: old(state)@, registry: old(sessions)@ };
        lemma_replay_extends(scene, script.deep_view(), from as int);
        if from <= script.len() && scene.state.writer.consistent() && scene.state.writer.has_room(
            script.len() as nat,
        ) {
            lemma_replay_in_order(scene, script.deep_view(), from as int);
        }
    }
    pause
}

/// Replays the script on a connection up to the first pause or the end.
fn play(state: &mut ConnectionState, sessions: &mut Sessions, script: &Vec<Action>, from: usize) -> (pause:
    Option<(usize, u128)>)
    ensures
        (Replay { scene: Scene { state: final(state)@, registry: final(sessions)@ }, pause })
            == (Scene { state: old(state)@, registry: old(sessions)@ }).replay(
            script.deep_view(),
            from as int,
        ),
{
    let ghost start = Scene { state: state@, registry: sessions@ };
    let ghost actions = script.deep_view();
    let mut at: usize = from;
    while at < script.len()
        invariant
            actions == script.deep_view(),
            start == (Scene { state: old(state)@, registry: old(sessions)@ }),
            start.replay(actions, from as int) == (Scene {
                state: state@,
                registry: sessions@,
            }).replay(actions, at as int),
        decreases script.len() - at,
    {
        assert(actions[at as int] == script[at as int]@);
        match &script[at] {
            Action::Sleep(millis) => {
                return Some((at + 1, *millis));
            },
            action => {
                run_action(state, sessions, action);
            },
        }
        at += 1;
    }
    None
}

/// The line that an action is written as: its name and, after one space,
/// its arguments. A pause is written in milliseconds where their number has
/// 64 bits, and in seconds where not.
pub open spec fn canonical_line(action: ActionView) -> Seq<char> {
    match action {
        ActionView::Sleep(millis) => if millis <= u64::MAX {
            "sleep_ms"@ + seq![' '] + decimal_digits(millis as nat)
        } else {
            "sleep_s"@ + seq![' '] + decimal_digits((millis / 1000) as nat)
        },
        ActionView::InvalidateSession(resumable) => "invalidate_session"@ + seq![' '] + if resumable {
            "true"@
        } else {
            "false"@
        },
        ActionView::Dispatch { event_type, data } => "dispatch"@ + seq![' '] + (event_type
            + seq![' '] + data),
        ActionView::Heartbeat => "heartbeat"@,
        ActionView::RandomMessageCreate => "random_message_create"@,
        ActionView::RandomGuildCreate => "random_guild_create"@,
        ActionView::GracefulClose => "graceful_close"@,
        ActionView::AbruptClose => "abrupt_close"@,
    }
}

/// A word alone is cut into itself and nothing.
pub proof fn lemma_split_word(word: Seq<char>)
    requires
        is_word(word),
    ensures
        split(word) == (word, None::<Seq<char>>),
{
    lemma_word_end(word, 0, word.len() as int);
}

/// A word, a space and a text that does not start with white space are cut
/// into the word and the text.
pub proof fn lemma_split_pair(head: Seq<char>, tail: Seq<char>)
    requires
        is_word(head),
        tail.len() == 0 || !is_space(tail[0]),
    ensures
        split(head + seq![' '] + tail) == (head, Some(tail)),
{
    let text = head + seq![' '] + tail;
    let end = head.len() as int;
    assert forall|i: int| 0 <= i < end implies !is_space(#[trigger] text[i]) by {
        assert(text[i] == head[i]);
    }
    assert(text[end] == ' ');
    lemma_word_end(text, 0, end);
    if tail.len() > 0 {
        assert(text[end + 1] == tail[0]);
    }
    lemma_run_end(text, end, end + 1);
    assert(text.take(end) =~= head);
    assert(text.skip(end + 1) =~= tail);
}

/// What a text is cut into: a word, and a text that does not start with
/// white space. The word is not empty unless the text is empty or starts
/// with white space.
pub proof fn lemma_split_parts(text: Seq<char>)
    ensures
        is_word(split(text).0),
        split(text).1 matches Some(tail) ==> tail.len() == 0 || !is_space(tail[0]),
        text.len() > 0 && !is_space(text[0]) ==> split(text).0.len() > 0,
{
    lemma_word_end_found(text, 0);
    let end = word_end(text, 0);
    if end < text.len() {
        lemma_run_end_found(text, end);
    }
}

/// The names of the actions and of the booleans are words, no two of the
/// names are the same, and neither boolean is empty.
pub proof fn lemma_names()
    ensures
        is_word("sleep_ms"@),
        is_word("sleep_s"@),
        is_word("invalidate_session"@),
        is_word("dispatch"@),
        is_word("heartbeat"@),
        is_word("random_message_create"@),
        is_word("random_guild_create"@),
        is_word("graceful_close"@),
        is_word("abrupt_close"@),
        "sleep_ms"@.len() == 8,
        "sleep_s"@.len() == 7,
        "invalidate_session"@.len() == 18,
        "dispatch"@.len() == 8,
        "heartbeat"@.len() == 9,
        "random_message_create"@.len() == 21,
        "random_guild_create"@.len() == 19,
        "graceful_close"@.len() == 14,
        "abrupt_close"@.len() == 12,
        "sleep_ms"@[0] == 's',
        "dispatch"@[0] == 'd',
        "true"@.len() == 4,
        "false"@.len() == 5,
        "true"@[0] == 't',
        "false"@[0] == 'f',
{
    reveal_strlit("sleep_ms");
    reveal_strlit("sleep_s");
    reveal_strlit("invalidate_session");
    reveal_strlit("dispatch");
    reveal_strlit("heartbeat");
    reveal_strlit("random_message_create");
    reveal_strlit("random_guild_create");
    reveal_strlit("graceful_close");
    reveal_strlit("abrupt_close");
    reveal_strlit("true");
    reveal_strlit("false");
}

/// Every action that a line stands for is read back from the line it is
/// written as.
pub proof fn lemma_canonical_line_reads_back(line: Seq<char>)
    requires
        parse_line(line) is Ok,
    ensures
        parse_line(canonical_line(parse_line(line)->Ok_0)) == parse_line(line),
{
    lemma_names();
    lemma_split_parts(line);
    let (name, arguments) = split(line);
    let action = parse_line(line)->Ok_0;
    let written = canonical_line(action);
    if name == "sleep_ms"@ || name == "sleep_s"@ {
        let count = decimal_u64(arguments->Some_0)->Some_0;
        let millis = action->Sleep_0;
        if millis <= u64::MAX {
            lemma_decimal_digits(millis as nat);
            lemma_split_pair("sleep_ms"@, decimal_digits(millis as nat));
        } else {
            assert(millis == count * 1000);
            assert(millis / 1000 == count);
            lemma_decimal_digits(count as nat);
            lemma_split_pair("sleep_s"@, decimal_digits(count as nat));
        }
    } else if name == "invalidate_session"@ {
        let word = if action->InvalidateSession_0 {
            "true"@
        } else {
            "false"@
        };
        lemma_split_pair("invalidate_session"@, word);
    } else if name == "dispatch"@ {
        let text = arguments->Some_0;
        lemma_split_parts(text);
        let (event_type, data) = split(text);
        let data = data->Some_0;
        lemma_split_pair(event_type, data);
        lemma_split_pair("dispatch"@, event_type + seq![' '] + data);
    } else if name == "heartbeat"@ {
        lemma_split_word("heartbeat"@);
    } else if name == "random_message_create"@ {
        lemma_split_word("random_message_create"@);
    } else if name == "random_guild_create"@ {
        lemma_split_word("random_guild_create"@);
    } else if name == "graceful_close"@ {
        lemma_split_word("graceful_close"@);
    } else if name == "abrupt_close"@ {
        lemma_split_word("abrupt_close"@);
    }
}

/// Replaying a script leaves a connection bound as it was.
pub proof fn lemma_replay_keeps_binding(scene: Scene, script: Seq<ActionView>, from: int)
    ensures
        scene.replay(script, from).scene.state.session_id == scene.state.session_id,
        scene.replay(script, from).scene.state.greeted == scene.state.greeted,
    decreases script.len() - from,
{
    if 0 <= from < script.len() && !(script[from] is Sleep) {
        lemma_replay_keeps_binding(scene.act(script[from]), script, from + 1);
    }
}

/// What a write side took before an action is still there afterwards.
pub proof fn lemma_act_extends(scene: Scene, action: ActionView)
    ensures
        scene.state.writer.precedes(scene.act(action).state.writer),
{
}

/// What a write side took before a script was replayed is still there
/// afterwards.
pub proof fn lemma_replay_extends(scene: Scene, script: Seq<ActionView>, from: int)
    ensures
        scene.state.writer.precedes(scene.replay(script, from).scene.state.writer),
    decreases script.len() - from,
{
    if 0 <= from < script.len() && !(script[from] is Sleep) {
        lemma_act_extends(scene, script[from]);
        lemma_replay_extends(scene.act(script[from]), script, from + 1);
    }
}

/// An action keeps a write side in order that has room for one more
/// dispatch, and what it took before is still there.
pub proof fn lemma_act_in_order(scene: Scene, action: ActionView, spare: nat)
    requires
        scene.state.writer.consistent(),
        scene.state.writer.has_room(spare + 1),
    ensures
        scene.act(action).state.writer.consistent(),
        scene.act(action).state.writer.has_room(spare),
        scene.state.writer.precedes(scene.act(action).state.writer),
{
    match action {
        ActionView::InvalidateSession(resumable) => {
            lemma_invalidate_in_order(scene.state, scene.registry, resumable, spare);
        },
        ActionView::Dispatch { event_type, data } => {
            lemma_send_data_in_order(
                scene.state.writer,
                PayloadView::RawDispatch { event_type, data },
                spare,
            );
        },
        ActionView::Heartbeat => {
            lemma_enqueue_in_order(
                scene.state.writer,
                FrameView::Event(EnvelopeView::heartbeat()),
                spare,
            );
        },
        _ => {},
    }
}

/// Replaying a script keeps a write side in order that has room for as
/// many dispatches as actions are left, and what it took before is still
/// there.
pub proof fn lemma_replay_in_order(scene: Scene, script: Seq<ActionView>, from: int)
    requires
        0 <= from <= script.len(),
        scene.state.writer.consistent(),
        scene.state.writer.has_room((script.len() - from) as nat),
    ensures
        scene.replay(script, from).scene.state.writer.consistent(),
        scene.state.writer.precedes(scene.replay(script, from).scene.state.writer),
    decreases script.len() - from,
{
    if from < script.len() && !(script[from] is Sleep) {
        let spare = (script.len() - from - 1) as nat;
        lemma_act_in_order(scene, script[from], spare);
        lemma_replay_in_order(scene.act(script[from]), script, from + 1);
    }
}

} // verus!
