//! The key-editing dialogue: status lines, the tokens they carry, and the
//! driver that advances a caller's state machine one status line at a time.
//!
//! The driver sets no bound on the number of turns. An editor whose
//! transitions never reach an end keeps the dialogue going for as long as
//! the engine keeps asking; ending it is the editor's business.

use crate::callbacks::EditInteractor;
use crate::error::Error;
use vstd::string::StringSliceAdditionalSpecFns;
use vstd::prelude::*;

verus! {

/// Command that leaves the dialogue.
pub const QUIT: &'static str = "quit";

/// Command that saves and leaves the dialogue.
pub const SAVE: &'static str = "save";

/// Answer that agrees.
pub const YES: &'static str = "Y";

/// Answer that declines.
pub const NO: &'static str = "N";

/// Text of the status line that asks for the next command.
pub const PROMPT: &'static str = "keyedit.prompt";

/// Text of the status line that asks whether to save.
pub const CONFIRM_SAVE: &'static str = "keyedit.save.okay";

/// Text of the status line that asks whether to leave without saving.
pub const CONFIRM_CANCEL: &'static str = "keyedit.cancel.okay";

/// Text of the status line that asks whether a validity period is right.
pub const CONFIRM_KEY_VALID: &'static str = "keygen.valid.okay";

/// Text of the status line that asks whether to create the key.
pub const CONFIRM_CREATE_KEY: &'static str = "keygen.sub.okay";

/// Text of the status line that asks for a name.
pub const KEY_NAME: &'static str = "keygen.name";

/// Text of the status line that asks for an address.
pub const KEY_EMAIL: &'static str = "keygen.email";

/// Text of the status line that asks for a comment.
pub const KEY_COMMENT: &'static str = "keygen.comment";

/// Text of the status line that asks for a validity period.
pub const KEY_VALID: &'static str = "keygen.valid";

/// Text of the status line that asks for usage flags.
pub const KEY_FLAGS: &'static str = "keygen.flags";

/// Text of the status line that asks for a key size.
pub const KEY_SIZE: &'static str = "keygen.size";

/// Text of the status line that asks for an algorithm.
pub const KEY_ALGORITHM: &'static str = "keygen.algo";

/// Text of the status line that asks for a command on a user id.
pub const KEY_UID_COMMAND: &'static str = "keygen.userid.cmd";

/// Text of the status line that asks for a curve.
pub const KEY_CURVE: &'static str = "keygen.curve";

/// Status code: the engine has nothing more to say.
pub const STATUS_EOF: u32 = 0;

/// Status code: a key has expired.
pub const STATUS_KEYEXPIRED: u32 = 9;

/// Status code: a passphrase is needed.
pub const STATUS_NEED_PASSPHRASE: u32 = 20;

/// Status code: the passphrase was wrong.
pub const STATUS_BAD_PASSPHRASE: u32 = 25;

/// Status code: a passphrase for symmetric encryption is needed.
pub const STATUS_NEED_PASSPHRASE_SYM: u32 = 28;

/// Status code: no passphrase was given.
pub const STATUS_MISSING_PASSPHRASE: u32 = 31;

/// Status code: the passphrase was right.
pub const STATUS_GOOD_PASSPHRASE: u32 = 32;

/// Status code: the engine asks a question to be answered by yes or no.
pub const STATUS_GET_BOOL: u32 = 48;

/// Status code: the engine asks for a line of text.
pub const STATUS_GET_LINE: u32 = 49;

/// Status code: the engine asks for a line of text that is not to be
/// shown.
pub const STATUS_GET_HIDDEN: u32 = 50;

/// Status code: the engine has taken the answer.
pub const STATUS_GOT_IT: u32 = 51;

/// Status code: a key has been made.
pub const STATUS_KEY_CREATED: u32 = 60;

/// Status code: the key is signed already.
pub const STATUS_ALREADY_SIGNED: u32 = 65;

/// Status code: the engine reports an error.
pub const STATUS_ERROR: u32 = 70;

/// Status code: an operation on a card has failed.
pub const STATUS_SC_OP_FAILURE: u32 = 75;

/// Status code: the engine asks for a card to be handled.
pub const STATUS_CARDCTRL: u32 = 77;

/// Status code: a backup of a key has been written.
pub const STATUS_BACKUP_KEY_CREATED: u32 = 78;

/// The byte that ends a response line.
pub const LINE_END: u8 = 10;

/// The status code of one status line, as the engine numbers it.
#[derive(Clone, Copy, Debug, PartialEq, Eq, Structural)]
pub struct StatusCode(pub u32);

impl StatusCode {
    /// The number the engine gives the code.
    pub fn raw(&self) -> (r: u32)
        ensures
            r == self.0,
    {
        self.0
    }
}

/// One status line of a dialogue: its code and the text that came with it.
#[derive(Clone, Debug, PartialEq, Eq)]
pub struct EditInteractionStatus {
    pub code: StatusCode,
    pub args: Option<Vec<u8>>,
}

/// Whether two byte strings are the same, byte for byte.
pub fn bytes_equal(a: &[u8], b: &[u8]) -> (same: bool)
    ensures
        same == (a@ == b@),
{
    if a.len() != b.len() {
        return false;
    }
    let mut i: usize = 0;
    while i < a.len()
        invariant
            a.len() == b.len(),
            i <= a.len(),
            forall|j: int| 0 <= j < i ==> a@[j] == b@[j],
        decreases a.len() - i,
    {
        if a[i] != b[i] {
            return false;
        }
        i += 1;
    }
    assert(a@ =~= b@);
    true
}

impl EditInteractionStatus {
    /// Whether the line carries exactly the text `token`: the same bytes,
    /// no more and no fewer. A line without text matches no token.
    pub open spec fn carries(self, token: &str) -> bool {
        self.args matches Some(text) && text@ == token.spec_bytes()
    }

    /// The text that came with the line, if any.
    pub fn args_raw(&self) -> (r: Option<&Vec<u8>>)
        ensures
            r is Some == self.args is Some,
            r matches Some(text) ==> *text == self.args->Some_0,
    {
        match &self.args {
            None => None,
            Some(text) => Some(text),
        }
    }

    /// Whether the line carries exactly the text `token`.
    pub fn args_is(&self, token: &str) -> (r: bool)
        ensures
            r == self.carries(token),
    {
        match &self.args {
            None => false,
            Some(text) => bytes_equal(text.as_slice(), token.as_bytes()),
        }
    }
}

/// A state machine for a key-editing dialogue. The driver hands every
/// status line to `next_state`, together with the state the machine was
/// left in, and asks `action` for the text to send where the engine expects
/// an answer. `next_state` should depend on its arguments alone.
pub trait Editor {
    /// The states of the machine. The default value is where it starts.
    type State: Copy + Default;

    /// The state the machine moves to on a status line.
    fn next_state(
        state: Result<Self::State, Error>,
        status: &EditInteractionStatus,
        need_response: bool,
    ) -> Result<Self::State, Error>;

    /// Writes the text to send in `state`, without a line end.
    fn action(&self, state: Self::State, out: &mut Vec<u8>) -> Result<(), Error>;
}

/// What an editor answered in one turn of the dialogue.
pub struct Turn<S> {
    /// Whether the engine expected an answer.
    pub need_response: bool,
    /// What the transition function returned.
    pub next: Result<S, Error>,
    /// What the action function returned, where it was asked.
    pub acted: Option<Result<(), Error>>,
    /// What the action function wrote, where it was asked.
    pub written: Seq<u8>,
}

/// Whether the action function is asked in a turn: only where the engine
/// expects an answer and the transition gave a state to act in.
pub open spec fn asks_action<S>(need_response: bool, next: Result<S, Error>) -> bool {
    need_response && next is Ok
}

/// Whether a turn is one the driver can produce: the action function was
/// asked exactly where it is to be asked.
pub open spec fn turn_wf<S>(turn: Turn<S>) -> bool {
    turn.acted is Some <==> asks_action(turn.need_response, turn.next)
}

/// The state a turn leaves the driver in: the error of the transition, else
/// the error of the action where it was asked, else the new state.
pub open spec fn settled<S>(next: Result<S, Error>, acted: Option<Result<(), Error>>) -> Result<
    S,
    Error,
> {
    match next {
        Err(e) => Err(e),
        Ok(state) => match acted {
            Some(Err(e)) => Err(e),
            _ => Ok(state),
        },
    }
}

/// What the driver reports for a state it was left in: success for a
/// state, the error otherwise.
pub open spec fn reported<S>(state: Result<S, Error>) -> Result<(), Error> {
    match state {
        Ok(_) => Ok(()),
        Err(e) => Err(e),
    }
}

/// Whether a line end follows what the action wrote: only where the action
/// was asked and succeeded.
pub open spec fn ends_line<S>(need_response: bool, next: Result<S, Error>, acted: Option<
    Result<(), Error>,
>) -> bool {
    asks_action(need_response, next) && acted matches Some(Ok(_))
}

/// The bytes one turn sends to the engine.
pub open spec fn turn_sent<S>(turn: Turn<S>) -> Seq<u8> {
    if asks_action(turn.need_response, turn.next) {
        if ends_line(turn.need_response, turn.next, turn.acted) {
            turn.written.push(LINE_END)
        } else {
            turn.written
        }
    } else {
        Seq::empty()
    }
}

/// The state the driver is in after a run of turns that started in
/// `start`. The dialogue ends with the first turn that fails: the turns
/// after it never happen.
pub open spec fn session_state<S>(start: Result<S, Error>, turns: Seq<Turn<S>>) -> Result<
    S,
    Error,
>
    decreases turns.len(),
{
    if turns.len() == 0 {
        start
    } else {
        let state = settled(turns[0].next, turns[0].acted);
        if state is Err {
            state
        } else {
            session_state(state, turns.subrange(1, turns.len() as int))
        }
    }
}

/// What a run of turns sends to the engine, up to and including the first
/// turn that fails.
pub open spec fn session_sent<S>(turns: Seq<Turn<S>>) -> Seq<u8>
    decreases turns.len(),
{
    if turns.len() == 0 {
        Seq::empty()
    } else if settled(turns[0].next, turns[0].acted) is Err {
        turn_sent(turns[0])
    } else {
        turn_sent(turns[0]) + session_sent(turns.subrange(1, turns.len() as int))
    }
}

/// The state one turn leaves the driver in.
pub fn settle<S: Copy>(next: Result<S, Error>, acted: Option<Result<(), Error>>) -> (state:
    Result<S, Error>)
    ensures
        state == settled(next, acted),
{
    match next {
        Err(e) => Err(e),
        Ok(state) => match acted {
            Some(Err(e)) => Err(e),
            _ => Ok(state),
        },
    }
}

/// What the driver reports to the engine for the state it is in.
pub fn report<S: Copy>(state: Result<S, Error>) -> (r: Result<(), Error>)
    ensures
        r == reported(state),
{
    match state {
        Ok(_) => Ok(()),
        Err(e) => Err(e),
    }
}

/// Whether `turn` is a turn that the transition function of `E` may open
/// on a status line that finds the machine in `state`: the function may
/// return what the turn has as the next state, and the turn has an answer
/// of the action function exactly where that function is asked.
pub open spec fn opens_turn<E: Editor>(
    state: Result<E::State, Error>,
    status: &EditInteractionStatus,
    turn: Turn<E::State>,
) -> bool {
    turn_wf(turn) && call_ensures(E::next_state, (state, status, turn.need_response), turn.next)
}

/// One status line as the driver gets it: the line, and whether the engine
/// expects an answer to it.
#[derive(Clone, Debug, PartialEq, Eq)]
pub struct Line {
    pub status: EditInteractionStatus,
    pub need_response: bool,
}

/// Whether `turn` is a turn that the driver of `editor` may take on `line`
/// with the machine in `state`: the transition function may return what the
/// turn has as the next state for that state and line, and the action
/// function, where it is asked, may return what the turn has for it when it
/// is handed the new state and an empty sink.
pub open spec fn takes_turn<E: Editor>(
    editor: E,
    state: Result<E::State, Error>,
    line: Line,
    turn: Turn<E::State>,
) -> bool {
    &&& turn.need_response == line.need_response
    &&& opens_turn::<E>(state, &line.status, turn)
    &&& asks_action(turn.need_response, turn.next) ==> exists|sink: &mut Vec<u8>| #[trigger]
        call_ensures(E::action, (&editor, turn.next->Ok_0, sink), turn.acted->Some_0) && (*sink)@
            == Seq::<u8>::empty()
}

/// Whether `turns` is a run that the driver of `editor` may make of
/// `lines`, from the machine in `start`: one turn for each line, in their
/// order, each taken with the machine in the state that the turn before
/// left it in, and none after a turn that fails.
pub open spec fn driven<E: Editor>(
    editor: E,
    start: Result<E::State, Error>,
    lines: Seq<Line>,
    turns: Seq<Turn<E::State>>,
) -> bool
    decreases turns.len(),
{
    if turns.len() == 0 {
        lines.len() == 0
    } else {
        let state = settled(turns[0].next, turns[0].acted);
        &&& lines.len() == turns.len()
        &&& takes_turn(editor, start, lines[0], turns[0])
        &&& if state is Err {
            turns.len() == 1
        } else {
            driven(
                editor,
                state,
                lines.subrange(1, lines.len() as int),
                turns.subrange(1, turns.len() as int),
            )
        }
    }
}

/// The state in which the turn at place `at` of a run finds the machine:
/// the start for the first turn, and what the turn before left for every
/// other.
pub open spec fn state_before<S>(start: Result<S, Error>, turns: Seq<Turn<S>>, at: int) -> Result<
    S,
    Error,
> {
    if at <= 0 {
        start
    } else {
        settled(turns[at - 1].next, turns[at - 1].acted)
    }
}

/// Whether `state` is where the machine of `E` starts: a state, and one
/// that the default of its states may be.
pub open spec fn starts<E: Editor>(state: Result<E::State, Error>) -> bool {
    state matches Ok(start) && call_ensures(
        <E::State as core::default::Default>::default,
        (),
        start,
    )
}

/// The driver of a key-editing dialogue: an editor and the state its
/// machine was left in by the last turn.
pub struct EditorWrapper<E: Editor> {
    pub editor: E,
    pub state: Result<E::State, Error>,
}

impl<E: Editor> EditorWrapper<E> {
    /// A driver for `editor`, with the machine in its starting state.
    pub fn new(editor: E) -> (w: EditorWrapper<E>)
        ensures
            w.editor == editor,
            starts::<E>(w.state),
    {
        EditorWrapper { editor, state: Ok(Default::default()) }
    }

    /// The state the machine was left in by the last turn.
    pub fn state(&self) -> (s: Result<E::State, Error>)
        ensures
            s == self.state,
    {
        self.state
    }
}

impl<E: Editor> EditInteractor for EditorWrapper<E> {
    /// Takes one turn. The transition function sees the line whether or not
    /// an answer is expected. The action function is asked only where an
    /// answer is expected and the transition gave a state; what it writes
    /// is sent, and on its success a line end after it. The machine is left
    /// in the new state, or in the error of whichever function failed, and
    /// the turn reports that error. Nothing is sent in a turn that expects
    /// no answer.
    fn interact(&mut self, status: &EditInteractionStatus, need_response: bool, out: &mut Vec<u8>)
        -> (r: Result<(), Error>)
        ensures
            final(self).editor == old(self).editor,
            r == reported(final(self).state),
            !need_response ==> final(out)@ == old(out)@,
            exists|turn: Turn<E::State>|
                ({
                    &&& #[trigger] takes_turn(
                        old(self).editor,
                        old(self).state,
                        (Line { status: *status, need_response }),
                        turn,
                    )
                    &&& final(self).state == settled(turn.next, turn.acted)
                    &&& final(out)@ == old(out)@ + turn_sent(turn)
                    &&& asks_action(turn.need_response, turn.next) ==> exists|sink: &mut Vec<u8>|
                        ({
                            &&& #[trigger] call_ensures(
                                E::action,
                                (&old(self).editor, turn.next->Ok_0, sink),
                                turn.acted->Some_0,
                            )
                            &&& (*sink)@ == Seq::<u8>::empty()
                            &&& (*final(sink))@ == turn.written
                        })
                }),
    {
        let transition = E::next_state;
        let next = transition(self.state, status, need_response);
        let mut text: Vec<u8> = Vec::new();
        let acted = match next {
            Ok(state) => {
                if need_response {
                    let act = E::action;
                    Some(act(&self.editor, state, &mut text))
                } else {
                    None
                }
            },
            Err(_) => None,
        };
        let ghost turn = Turn { need_response, next, acted, written: text@ };
        out.append(&mut text);
        match acted {
            Some(Ok(_)) => {
                out.push(LINE_END);
            },
            _ => {},
        }
        self.state = settle(next, acted);
        proof {
            assert(opens_turn::<E>(old(self).state, status, turn));
            assert(takes_turn(
                old(self).editor,
                old(self).state,
                (Line { status: *status, need_response }),
                turn,
            ));
            assert(out@ =~= old(out)@ + turn_sent(turn));
        }
        report(self.state)
    }
}

/// A run of turns in which no turn fails ends in the state that the
/// transition function gave for the last status line.
proof fn lemma_session_reaches_last_state<S>(start: Result<S, Error>, turns: Seq<Turn<S>>)
    requires
        turns.len() > 0,
        forall|i: int| 0 <= i < turns.len() ==> settled(
            (#[trigger] turns[i]).next,
            turns[i].acted,
        ) is Ok,
    ensures
        session_state(start, turns) == turns.last().next,
    decreases turns.len(),
{
    let rest = turns.subrange(1, turns.len() as int);
    let first = settled(turns[0].next, turns[0].acted);
    if rest.len() == 0 {
        assert(turns.last() == turns[0]);
        assert(session_state(first, rest) == first);
    } else {
        assert(rest.last() == turns.last());
        assert forall|i: int| 0 <= i < rest.len() implies settled(
            (#[trigger] rest[i]).next,
            rest[i].acted,
        ) is Ok by {
            assert(rest[i] == turns[i + 1]);
        }
        lemma_session_reaches_last_state(first, rest);
    }
}

/// In a run that the driver makes, the turn at each place is taken on the
/// line at that place, with the machine in the state that the turn before
/// left it in.
proof fn lemma_driven_at<E: Editor>(
    editor: E,
    start: Result<E::State, Error>,
    lines: Seq<Line>,
    turns: Seq<Turn<E::State>>,
    at: int,
)
    requires
        driven(editor, start, lines, turns),
        0 <= at < turns.len(),
    ensures
        lines.len() == turns.len(),
        takes_turn(editor, state_before(start, turns, at), lines[at], turns[at]),
        forall|i: int| 0 <= i < at ==> settled((#[trigger] turns[i]).next, turns[i].acted) is Ok,
    decreases turns.len(),
{
    if at > 0 {
        let state = settled(turns[0].next, turns[0].acted);
        let rest_lines = lines.subrange(1, lines.len() as int);
        let rest = turns.subrange(1, turns.len() as int);
        assert(state is Ok);
        lemma_driven_at(editor, state, rest_lines, rest, at - 1);
        assert(rest[at - 1] == turns[at]);
        assert(rest_lines[at - 1] == lines[at]);
        if at > 1 {
            assert(rest[at - 2] == turns[at - 1]);
        }
        assert forall|i: int| 0 <= i < at implies settled(
            (#[trigger] turns[i]).next,
            turns[i].acted,
        ) is Ok by {
            if i > 0 {
                assert(rest[i - 1] == turns[i]);
            }
        }
    }
}

/// A dialogue that ends in the line that moves the machine to its last
/// state reaches that state, and completes. The run is one that the
/// driver of `editor` makes of the lines that the engine delivers, from the
/// state `start`. The transition function is asked once for each line, in
/// their order, each time with the state that the turn before left, and
/// the first time with `start`. If in this run it gives a state for every
/// line, the action function succeeds wherever it is asked, and the state
/// given for the last line is `last`, then the driver is left in `last`,
/// and every turn reports success to the engine.
pub proof fn lemma_driven_dialogue_reaches_last_state<E: Editor>(
    editor: E,
    start: Result<E::State, Error>,
    lines: Seq<Line>,
    turns: Seq<Turn<E::State>>,
    last: E::State,
)
    requires
        turns.len() > 0,
        driven(editor, start, lines, turns),
        forall|i: int| 0 <= i < turns.len() ==> (#[trigger] turns[i]).next is Ok,
        forall|i: int|
            0 <= i < turns.len() && (#[trigger] turns[i]).acted is Some
                ==> turns[i].acted->Some_0 is Ok,
        turns.last().next == Ok::<E::State, Error>(last),
    ensures
        lines.len() == turns.len(),
        forall|i: int|
            0 <= i < turns.len() ==> takes_turn(
                editor,
                state_before(start, turns, i),
                lines[i],
                #[trigger] turns[i],
            ),
        forall|i: int|
            0 <= i < turns.len() ==> reported(settled((#[trigger] turns[i]).next, turns[i].acted))
                == Ok::<(), Error>(()),
        session_state(start, turns) == Ok::<E::State, Error>(last),
        reported(session_state(start, turns)) == Ok::<(), Error>(()),
{
    assert forall|i: int| 0 <= i < turns.len() implies settled(
        (#[trigger] turns[i]).next,
        turns[i].acted,
    ) is Ok by {}
    assert forall|i: int| 0 <= i < turns.len() implies takes_turn(
        editor,
        state_before(start, turns, i),
        lines[i],
        #[trigger] turns[i],
    ) by {
        lemma_driven_at(editor, start, lines, turns, i);
    }
    lemma_driven_at(editor, start, lines, turns, 0);
    lemma_session_reaches_last_state(start, turns);
}

/// A run that the driver makes grows by one turn of the driver: where the
/// run so far has not failed, the turn that the driver takes on one more
/// line, from the state that the run has reached, makes a run again.
pub proof fn lemma_driven_grows<E: Editor>(
    editor: E,
    start: Result<E::State, Error>,
    lines: Seq<Line>,
    turns: Seq<Turn<E::State>>,
    line: Line,
    turn: Turn<E::State>,
)
    requires
        driven(editor, start, lines, turns),
        forall|i: int| 0 <= i < turns.len() ==> settled(
            (#[trigger] turns[i]).next,
            turns[i].acted,
        ) is Ok,
        takes_turn(editor, session_state(start, turns), line, turn),
    ensures
        driven(editor, start, lines.push(line), turns.push(turn)),
        session_state(start, turns.push(turn)) == settled(turn.next, turn.acted),
    decreases turns.len(),
{
    let more_lines = lines.push(line);
    let more = turns.push(turn);
    if turns.len() == 0 {
        assert(more.subrange(1, more.len() as int) =~= Seq::<Turn<E::State>>::empty());
        assert(more_lines.subrange(1, more_lines.len() as int) =~= Seq::<Line>::empty());
        assert(more[0] == turn);
        assert(more_lines[0] == line);
        let state = settled(turn.next, turn.acted);
        assert(session_state(state, more.subrange(1, more.len() as int)) == state);
        assert(lines.len() == 0);
        assert(driven(editor, state, Seq::<Line>::empty(), Seq::<Turn<E::State>>::empty()));
        assert(driven(editor, start, more_lines, more));
    } else {
        let state = settled(turns[0].next, turns[0].acted);
        let rest_lines = lines.subrange(1, lines.len() as int);
        let rest = turns.subrange(1, turns.len() as int);
        assert forall|i: int| 0 <= i < rest.len() implies settled(
            (#[trigger] rest[i]).next,
            rest[i].acted,
        ) is Ok by {
            assert(rest[i] == turns[i + 1]);
        }
        assert(state is Ok);
        lemma_driven_grows(editor, state, rest_lines, rest, line, turn);
        assert(more.subrange(1, more.len() as int) =~= rest.push(turn));
        assert(more_lines.subrange(1, more_lines.len() as int) =~= rest_lines.push(line));
        assert(more[0] == turns[0]);
        assert(more_lines[0] == lines[0]);
        assert(lines.len() == turns.len());
        assert(driven(editor, state, rest_lines.push(line), rest.push(turn)));
        assert(driven(editor, start, more_lines, more));
    }
}

/// A turn in which the engine expects no answer sends nothing, whatever
/// the editor returns.
pub proof fn lemma_silent_turn_sends_nothing<S>(turn: Turn<S>)
    requires
        !turn.need_response,
    ensures
        turn_sent(turn) == Seq::<u8>::empty(),
        !ends_line(turn.need_response, turn.next, turn.acted),
{
}

/// A dialogue in which the engine never expects an answer sends nothing.
pub proof fn lemma_silent_session_sends_nothing<S>(turns: Seq<Turn<S>>)
    requires
        forall|i: int| 0 <= i < turns.len() ==> !(#[trigger] turns[i]).need_response,
    ensures
        session_sent(turns) == Seq::<u8>::empty(),
    decreases turns.len(),
{
    if turns.len() > 0 {
        let rest = turns.subrange(1, turns.len() as int);
        assert forall|i: int| 0 <= i < rest.len() implies !(#[trigger] rest[i]).need_response by {
            assert(rest[i] == turns[i + 1]);
        }
        lemma_silent_session_sends_nothing(rest);
        assert(turn_sent(turns[0]) + Seq::<u8>::empty() =~= turn_sent(turns[0]));
    }
}

/// The first turn in which the transition function returns an error ends
/// the dialogue with that error, whatever turns were to follow: the driver
/// is left in the error and reports it.
pub proof fn lemma_failed_transition_ends_session<S>(
    start: Result<S, Error>,
    turns: Seq<Turn<S>>,
    at: int,
    cause: Error,
)
    requires
        0 <= at < turns.len(),
        forall|i: int| 0 <= i < at ==> settled((#[trigger] turns[i]).next, turns[i].acted) is Ok,
        turns[at].next == Err::<S, Error>(cause),
    ensures
        session_state(start, turns) == Err::<S, Error>(cause),
        reported(session_state(start, turns)) == Err::<(), Error>(cause),
    decreases turns.len(),
{
    if at > 0 {
        let rest = turns.subrange(1, turns.len() as int);
        assert forall|i: int| 0 <= i < at - 1 implies settled(
            (#[trigger] rest[i]).next,
            rest[i].acted,
        ) is Ok by {
            assert(rest[i] == turns[i + 1]);
        }
        assert(rest[at - 1] == turns[at]);
        lemma_failed_transition_ends_session(
            settled(turns[0].next, turns[0].acted),
            rest,
            at - 1,
            cause,
        );
    }
}

/// An action that fails where it is asked ends the dialogue with its error
/// in the same way, and no line end is sent for it.
pub proof fn lemma_failed_action_ends_turn<S>(turn: Turn<S>, cause: Error)
    requires
        turn_wf(turn),
        turn.next is Ok,
        turn.acted == Some(Err::<(), Error>(cause)),
    ensures
        settled(turn.next, turn.acted) == Err::<S, Error>(cause),
        turn_sent(turn) == turn.written,
{
}

} // verus!
