use gpgme::callbacks::edit_cb;
use gpgme::callbacks::outcome_to_raw;
use gpgme::callbacks::EditInteractor;
use gpgme::callbacks::HandlerCell;
use gpgme::edit::bytes_equal;
use gpgme::edit::report;
use gpgme::edit::settle;
use gpgme::edit::EditInteractionStatus;
use gpgme::edit::Editor;
use gpgme::edit::EditorWrapper;
use gpgme::edit::StatusCode;
use gpgme::edit::CONFIRM_SAVE;
use gpgme::edit::KEY_VALID;
use gpgme::edit::PROMPT;
use gpgme::edit::QUIT;
use gpgme::edit::STATUS_GET_BOOL;
use gpgme::edit::STATUS_GET_LINE;
use gpgme::edit::STATUS_GOT_IT;
use gpgme::edit::YES;
use gpgme::error::surface;
use gpgme::error::Error;
use gpgme::error::Failure;

#[derive(Debug, Copy, Clone, Eq, PartialEq)]
enum TestEditorState {
    Start,
    Fingerprint,
    Expire,
    Valid,
    Uid,
    Primary,
    Quit,
    Save,
}

impl Default for TestEditorState {
    fn default() -> Self {
        TestEditorState::Start
    }
}

struct TestEditor;

impl Editor for TestEditor {
    type State = TestEditorState;

    fn next_state(
        state: Result<Self::State, Error>,
        status: &EditInteractionStatus,
        need_response: bool,
    ) -> Result<Self::State, Error> {
        if !need_response {
            return state;
        }

        if status.args_is(PROMPT) {
            match state {
                Ok(TestEditorState::Start) => Ok(TestEditorState::Fingerprint),
                Ok(TestEditorState::Fingerprint) => Ok(TestEditorState::Expire),
                Ok(TestEditorState::Valid) => Ok(TestEditorState::Uid),
                Ok(TestEditorState::Uid) => Ok(TestEditorState::Primary),
                Ok(TestEditorState::Quit) => state,
                Ok(TestEditorState::Primary) | Err(_) => Ok(TestEditorState::Quit),
                _ => Err(Error::general()),
            }
        } else if status.args_is(KEY_VALID) && (state == Ok(TestEditorState::Expire)) {
            Ok(TestEditorState::Valid)
        } else if status.args_is(CONFIRM_SAVE) && (state == Ok(TestEditorState::Quit)) {
            Ok(TestEditorState::Save)
        } else {
            state.and(Err(Error::general()))
        }
    }

    fn action(&self, state: Self::State, out: &mut Vec<u8>) -> Result<(), Error> {
        match state {
            TestEditorState::Fingerprint => out.extend_from_slice(b"fpr"),
            TestEditorState::Expire => out.extend_from_slice(b"expire"),
            TestEditorState::Valid => out.extend_from_slice(b"0"),
            TestEditorState::Uid => out.extend_from_slice(b"1"),
            TestEditorState::Primary => out.extend_from_slice(b"primary"),
            TestEditorState::Quit => out.extend_from_slice(QUIT.as_bytes()),
            TestEditorState::Save => out.extend_from_slice(YES.as_bytes()),
            _ => return Err(Error::general()),
        }
        Ok(())
    }
}

fn line(code: u32, args: &str) -> EditInteractionStatus {
    EditInteractionStatus { code: StatusCode(code), args: Some(args.as_bytes().to_vec()) }
}

const GET_LINE: u32 = STATUS_GET_LINE;
const GET_BOOL: u32 = STATUS_GET_BOOL;
const GOT_IT: u32 = STATUS_GOT_IT;

#[test]
fn test_edit() {
    let mut driver = EditorWrapper::new(TestEditor);
    assert_eq!(driver.state(), Ok(TestEditorState::Start));
    let mut out = Vec::new();
    let script = [
        (line(GET_LINE, PROMPT), true, TestEditorState::Fingerprint),
        (line(GOT_IT, ""), false, TestEditorState::Fingerprint),
        (line(GET_LINE, PROMPT), true, TestEditorState::Expire),
        (line(GOT_IT, ""), false, TestEditorState::Expire),
        (line(GET_LINE, KEY_VALID), true, TestEditorState::Valid),
        (line(GET_LINE, PROMPT), true, TestEditorState::Uid),
        (line(GET_LINE, PROMPT), true, TestEditorState::Primary),
        (line(GET_LINE, PROMPT), true, TestEditorState::Quit),
        (line(GET_BOOL, CONFIRM_SAVE), true, TestEditorState::Save),
    ];
    for (status, need_response, expected) in script.iter() {
        assert_eq!(driver.interact(status, *need_response, &mut out), Ok(()));
        assert_eq!(driver.state(), Ok(*expected));
    }
    assert_eq!(out, b"fpr\nexpire\n0\n1\nprimary\nquit\nY\n".to_vec());
}

#[test]
fn dialogue_through_the_bridge_reaches_the_last_state() {
    let mut cell = HandlerCell::new(EditorWrapper::new(TestEditor));
    let mut out = Vec::new();
    let script: [(u32, &str, i32); 7] = [
        (GET_LINE, PROMPT, 3),
        (GET_LINE, PROMPT, 3),
        (GET_LINE, KEY_VALID, 3),
        (GET_LINE, PROMPT, 3),
        (GET_LINE, PROMPT, 3),
        (GET_LINE, PROMPT, 3),
        (GET_BOOL, CONFIRM_SAVE, 3),
    ];
    for (code, args, fd) in script.iter() {
        assert_eq!(edit_cb(&mut cell, *code, Some(args.as_bytes().to_vec()), *fd, &mut out), 0);
    }
    assert_eq!(cell.into_inner().unwrap().state(), Ok(TestEditorState::Save));
    assert_eq!(out, b"fpr\nexpire\n0\n1\nprimary\nquit\nY\n".to_vec());
}

#[test]
fn status_line_without_response_generates_no_text() {
    let mut driver = EditorWrapper::new(TestEditor);
    let mut out = Vec::new();
    assert_eq!(driver.interact(&line(GOT_IT, PROMPT), false, &mut out), Ok(()));
    assert_eq!(driver.interact(&line(GOT_IT, "anything"), false, &mut out), Ok(()));
    assert_eq!(
        driver.interact(&EditInteractionStatus { code: StatusCode(0), args: None }, false, &mut out),
        Ok(())
    );
    assert!(out.is_empty());
    assert_eq!(driver.state(), Ok(TestEditorState::Start));
}

#[test]
fn unexpected_event_aborts_the_dialogue_with_the_error() {
    let mut driver = EditorWrapper::new(TestEditor);
    let mut out = Vec::new();
    assert_eq!(driver.interact(&line(GET_LINE, PROMPT), true, &mut out), Ok(()));
    let turn = driver.interact(&line(GET_LINE, "keygen.unknown"), true, &mut out);
    assert_eq!(turn, Err(Error::general()));
    assert_eq!(driver.state(), Err(Error::general()));
    assert_eq!(out, b"fpr\n".to_vec());
    assert_eq!(outcome_to_raw(turn), 1);
    assert_eq!(Error::check(outcome_to_raw(turn)), Err(Error::general()));
}

#[test]
fn unexpected_event_through_the_bridge_reports_the_error_to_the_engine() {
    let mut cell = HandlerCell::new(EditorWrapper::new(TestEditor));
    let mut out = Vec::new();
    assert_eq!(edit_cb(&mut cell, GET_LINE, Some(CONFIRM_SAVE.as_bytes().to_vec()), 3, &mut out), 1);
    assert!(out.is_empty());
    assert!(cell.is_ready());
    assert_eq!(cell.failure(), Some(Error::general()));
    let engine: Result<(), Error> = Err(Error::new(0x0700_0001));
    assert_eq!(
        surface(engine, cell.failure()),
        Err(Failure::HandlerAborted(Error::general()))
    );
}

#[test]
fn failing_action_aborts_without_a_line_end() {
    let mut driver = EditorWrapper { editor: TestEditor, state: Ok(TestEditorState::Quit) };
    let mut out = Vec::new();
    // A prompt in the state Quit keeps the state; Start has no action.
    let mut start = EditorWrapper { editor: TestEditor, state: Ok(TestEditorState::Save) };
    assert_eq!(start.interact(&line(GET_LINE, PROMPT), true, &mut out), Err(Error::general()));
    assert!(out.is_empty());
    assert_eq!(driver.interact(&line(GET_LINE, PROMPT), true, &mut out), Ok(()));
    assert_eq!(out, b"quit\n".to_vec());
}

#[test]
fn status_codes_have_the_numbers_of_the_engine() {
    assert_eq!(STATUS_GET_BOOL, 48);
    assert_eq!(STATUS_GET_LINE, 49);
    assert_eq!(STATUS_GOT_IT, 51);
    assert_eq!(gpgme::edit::STATUS_EOF, 0);
    assert_eq!(gpgme::edit::STATUS_GET_HIDDEN, 50);
    assert_eq!(gpgme::edit::STATUS_ERROR, 70);
    assert_eq!(gpgme::edit::STATUS_ALREADY_SIGNED, 65);
    assert_eq!(gpgme::edit::STATUS_KEY_CREATED, 60);
    assert_eq!(StatusCode(STATUS_GET_LINE).raw(), 49);
}

#[test]
fn token_match_is_exact() {
    assert!(line(GET_LINE, "keyedit.prompt").args_is(PROMPT));
    assert!(!line(GET_LINE, "keyedit.prompt ").args_is(PROMPT));
    assert!(!line(GET_LINE, "keyedit.promp").args_is(PROMPT));
    assert!(!line(GET_LINE, "xkeyedit.prompt").args_is(PROMPT));
    assert!(!line(GET_LINE, "KEYEDIT.PROMPT").args_is(PROMPT));
    assert!(!line(GET_LINE, "keygen.valid.okay").args_is(KEY_VALID));
    assert!(line(GET_LINE, "keygen.valid").args_is(KEY_VALID));
    assert!(!EditInteractionStatus { code: StatusCode(GET_LINE), args: None }.args_is(PROMPT));
    assert!(!EditInteractionStatus { code: StatusCode(GET_LINE), args: None }.args_is(""));
    assert!(line(GET_LINE, "").args_is(""));
    assert_eq!(line(GET_LINE, "ab").args_raw(), Some(&b"ab".to_vec()));
    assert!(bytes_equal(b"abc", b"abc"));
    assert!(!bytes_equal(b"abc", b"abd"));
    assert!(!bytes_equal(b"abc", b"ab"));
    assert!(bytes_equal(b"", b""));
}

#[test]
fn turn_settles_on_the_first_error() {
    let ok: Result<u8, Error> = Ok(3);
    assert_eq!(settle(ok, None), Ok(3));
    assert_eq!(settle(ok, Some(Ok(()))), Ok(3));
    assert_eq!(settle(ok, Some(Err(Error::new(5)))), Err(Error::new(5)));
    let failed: Result<u8, Error> = Err(Error::new(9));
    assert_eq!(settle(failed, None), Err(Error::new(9)));
    assert_eq!(settle(failed, Some(Err(Error::new(5)))), Err(Error::new(9)));
    assert_eq!(report(ok), Ok(()));
    assert_eq!(report(failed), Err(Error::new(9)));
}

struct Stutter;

impl Editor for Stutter {
    type State = u8;

    fn next_state(
        state: Result<Self::State, Error>,
        _status: &EditInteractionStatus,
        _need_response: bool,
    ) -> Result<Self::State, Error> {
        state.map(|n| n + 1)
    }

    fn action(&self, state: Self::State, out: &mut Vec<u8>) -> Result<(), Error> {
        out.extend_from_slice(b"par");
        if state >= 2 {
            return Err(Error::new(0x0100_0037));
        }
        out.extend_from_slice(b"tial");
        Ok(())
    }
}

#[test]
fn action_that_fails_midway_leaves_what_it_wrote_and_no_line_end() {
    let mut driver = EditorWrapper::new(Stutter);
    assert_eq!(driver.state(), Ok(0));
    let mut out = b">".to_vec();
    assert_eq!(driver.interact(&line(GET_LINE, PROMPT), true, &mut out), Ok(()));
    assert_eq!(out, b">partial\n".to_vec());
    assert_eq!(driver.interact(&line(GET_LINE, PROMPT), true, &mut out), Err(Error::new(0x0100_0037)));
    assert_eq!(out, b">partial\npar".to_vec());
    assert_eq!(driver.state(), Err(Error::new(0x0100_0037)));
    assert_eq!(driver.interact(&line(GET_LINE, PROMPT), true, &mut out), Err(Error::new(0x0100_0037)));
    assert_eq!(out, b">partial\npar".to_vec());
}

#[test]
fn driver_from_the_session_starts_at_the_default_state_without_failure() {
    let ctx = gpgme::Context::from_protocol(
        gpgme::Protocol::OpenPgp,
        gpgme::engine::Version { major: 1, minor: 13 },
        0,
        0,
    )
    .unwrap();
    let cell = ctx.edit_key_with(TestEditor);
    assert_eq!(cell.failure(), None);
    assert_eq!(cell.into_inner().unwrap().state(), Ok(TestEditorState::Start));
    let card = ctx.edit_card_key_with(Stutter);
    assert_eq!(card.failure(), None);
    assert_eq!(card.into_inner().unwrap().state(), Ok(0));
}

#[test]
fn whole_dialogue_through_the_bridge_ends_in_success() {
    let ctx = gpgme::Context::from_protocol(
        gpgme::Protocol::OpenPgp,
        gpgme::engine::Version { major: 1, minor: 13 },
        0,
        0,
    )
    .unwrap();
    let mut cell = ctx.edit_key_with(TestEditor);
    let mut out = Vec::new();
    let script: [(u32, &str, i32); 9] = [
        (GET_LINE, PROMPT, 3),
        (GOT_IT, "", -1),
        (GET_LINE, PROMPT, 3),
        (GET_LINE, KEY_VALID, 3),
        (GOT_IT, "", -1),
        (GET_LINE, PROMPT, 3),
        (GET_LINE, PROMPT, 3),
        (GET_LINE, PROMPT, 3),
        (GET_BOOL, CONFIRM_SAVE, 3),
    ];
    for (code, args, fd) in script.iter() {
        assert_eq!(edit_cb(&mut cell, *code, Some(args.as_bytes().to_vec()), *fd, &mut out), 0);
        assert!(cell.is_ready());
    }
    assert_eq!(cell.failure(), None);
    let engine: Result<(), Error> = Error::check(0);
    assert_eq!(surface(engine, cell.failure()), Ok(()));
    assert_eq!(cell.into_inner().unwrap().state(), Ok(TestEditorState::Save));
    assert_eq!(out, b"fpr\nexpire\n0\n1\nprimary\nquit\nY\n".to_vec());
}
