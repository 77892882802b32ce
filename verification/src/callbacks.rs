//! The callback bridge: installing a handler for the span of one engine
//! call, putting the earlier registration back afterwards, and carrying one
//! re-entrant invocation from the engine's raw arguments to the handler and
//! the handler's outcome back to the engine's return convention.

use crate::edit::EditInteractionStatus;
use crate::edit::StatusCode;
use crate::error::checked;
use crate::error::surfaced;
use crate::error::Error;
use crate::error::Failure;
use crate::error::CODE_GENERAL;
use vstd::prelude::*;

verus! {

/// The kinds of callback a session holds one registration of each.
#[derive(Clone, Copy, Debug, PartialEq, Eq, Structural)]
pub enum CallbackKind {
    /// Requests for a passphrase.
    Passphrase,
    /// Progress notices.
    Progress,
    /// Status lines.
    Status,
    /// Turns of an interactive dialogue.
    Interact,
}

/// What a session holds for one kind of callback: the entry point the engine
/// calls, if any, and the hook value it passes along.
#[derive(Clone, Copy, Debug, PartialEq, Eq, Structural)]
pub struct Registration {
    pub entry: Option<usize>,
    pub hook: usize,
}

impl Registration {
    /// Whether the registration names an entry point.
    pub open spec fn installed(self) -> bool {
        self.entry is Some
    }

    /// The registration of a slot that holds no handler.
    pub fn none() -> (r: Registration)
        ensures
            r == (Registration { entry: None, hook: 0 }),
            !r.installed(),
    {
        Registration { entry: None, hook: 0 }
    }

    /// A registration of the entry point `entry` with the hook `hook`.
    pub fn new(entry: usize, hook: usize) -> (r: Registration)
        ensures
            r == (Registration { entry: Some(entry), hook }),
            r.installed(),
    {
        Registration { entry: Some(entry), hook }
    }

    /// Whether the registration names an entry point.
    pub fn is_installed(&self) -> (b: bool)
        ensures
            b == self.installed(),
    {
        self.entry.is_some()
    }
}

/// The registrations of one session, one for each kind of callback.
#[derive(Clone, Copy, Debug, PartialEq, Eq, Structural)]
pub struct CallbackSlots {
    pub passphrase: Registration,
    pub progress: Registration,
    pub status: Registration,
    pub interact: Registration,
}

/// The record that one scoped installation keeps: the kind it replaced and
/// the registration that was there before. It is used up by the restore
/// step, so one installation is undone once.
#[derive(Debug)]
pub struct HandlerScope {
    pub kind: CallbackKind,
    pub prior: Registration,
}

impl CallbackSlots {
    /// The registration held for `kind`.
    pub open spec fn slot(self, kind: CallbackKind) -> Registration {
        match kind {
            CallbackKind::Passphrase => self.passphrase,
            CallbackKind::Progress => self.progress,
            CallbackKind::Status => self.status,
            CallbackKind::Interact => self.interact,
        }
    }

    /// The slots with the registration for `kind` replaced by `reg`.
    pub open spec fn with_slot(self, kind: CallbackKind, reg: Registration) -> CallbackSlots {
        match kind {
            CallbackKind::Passphrase => CallbackSlots { passphrase: reg, ..self },
            CallbackKind::Progress => CallbackSlots { progress: reg, ..self },
            CallbackKind::Status => CallbackSlots { status: reg, ..self },
            CallbackKind::Interact => CallbackSlots { interact: reg, ..self },
        }
    }

    /// Slots that hold no handler of any kind.
    pub open spec fn empty() -> CallbackSlots {
        CallbackSlots {
            passphrase: Registration { entry: None, hook: 0 },
            progress: Registration { entry: None, hook: 0 },
            status: Registration { entry: None, hook: 0 },
            interact: Registration { entry: None, hook: 0 },
        }
    }

    /// Slots that hold no handler of any kind.
    pub fn new() -> (s: CallbackSlots)
        ensures
            s == CallbackSlots::empty(),
            forall|kind: CallbackKind| !(#[trigger] s.slot(kind)).installed(),
    {
        CallbackSlots {
            passphrase: Registration::none(),
            progress: Registration::none(),
            status: Registration::none(),
            interact: Registration::none(),
        }
    }

    /// The registration held for `kind`.
    pub fn get(&self, kind: CallbackKind) -> (r: Registration)
        ensures
            r == self.slot(kind),
    {
        match kind {
            CallbackKind::Passphrase => self.passphrase,
            CallbackKind::Progress => self.progress,
            CallbackKind::Status => self.status,
            CallbackKind::Interact => self.interact,
        }
    }

    /// Replaces the registration held for `kind`.
    pub fn set(&mut self, kind: CallbackKind, reg: Registration)
        ensures
            *final(self) == old(self).with_slot(kind, reg),
    {
        match kind {
            CallbackKind::Passphrase => {
                self.passphrase = reg;
            },
            CallbackKind::Progress => {
                self.progress = reg;
            },
            CallbackKind::Status => {
                self.status = reg;
            },
            CallbackKind::Interact => {
                self.interact = reg;
            },
        }
    }

    /// Takes a snapshot of the registration held for `kind` and puts
    /// `handler` in its place. The snapshot comes back as the scope.
    pub fn install(&mut self, kind: CallbackKind, handler: Registration) -> (scope: HandlerScope)
        ensures
            scope.kind == kind,
            scope.prior == old(self).slot(kind),
            *final(self) == old(self).with_slot(kind, handler),
    {
        let prior = self.get(kind);
        self.set(kind, handler);
        HandlerScope { kind, prior }
    }

    /// Puts back the registration that `scope` replaced, whatever the slots
    /// hold by now, and returns it.
    pub fn restore(&mut self, scope: HandlerScope) -> (prior: Registration)
        ensures
            prior == scope.prior,
            *final(self) == old(self).with_slot(scope.kind, scope.prior),
    {
        let prior = scope.prior;
        self.set(scope.kind, prior);
        prior
    }
}

/// Replacing one slot leaves it holding what was put there and every other
/// slot as it was.
pub proof fn lemma_with_slot(slots: CallbackSlots, kind: CallbackKind, reg: Registration)
    ensures
        slots.with_slot(kind, reg).slot(kind) == reg,
        forall|other: CallbackKind|
            other != kind ==> #[trigger] slots.with_slot(kind, reg).slot(other) == slots.slot(other),
        slots.with_slot(kind, slots.slot(kind)) == slots,
{
}

/// A scoped installation over a slot that held no handler leaves that slot
/// without a handler once it is restored, whatever the scoped call did to
/// the slots in between and whether or not it succeeded.
pub proof fn lemma_restore_leaves_empty_slot_empty(
    before: CallbackSlots,
    kind: CallbackKind,
    handler: Registration,
    left_by_call: CallbackSlots,
)
    requires
        !before.slot(kind).installed(),
    ensures
        before.with_slot(kind, handler).slot(kind) == handler,
        left_by_call.with_slot(kind, before.slot(kind)).slot(kind) == before.slot(kind),
        !left_by_call.with_slot(kind, before.slot(kind)).slot(kind).installed(),
{
}

/// A scoped installation of one kind nested inside one of another kind
/// disturbs neither: while the inner scope is open the outer handler is
/// still in place, the inner restore puts back exactly what the inner
/// installation found, and the outer restore then returns the slots to
/// where they started. The snapshot of each scope is what its own
/// installation found, untouched by the other.
pub proof fn lemma_nested_scopes_restore(
    start: CallbackSlots,
    outer: CallbackKind,
    outer_handler: Registration,
    inner: CallbackKind,
    inner_handler: Registration,
)
    requires
        outer != inner,
    ensures
        ({
            let outer_open = start.with_slot(outer, outer_handler);
            let inner_open = outer_open.with_slot(inner, inner_handler);
            let inner_closed = inner_open.with_slot(inner, outer_open.slot(inner));
            let outer_closed = inner_closed.with_slot(outer, start.slot(outer));
            &&& outer_open.slot(inner) == start.slot(inner)
            &&& inner_open.slot(outer) == outer_handler
            &&& inner_open.slot(inner) == inner_handler
            &&& inner_closed == outer_open
            &&& outer_closed == start
        }),
{
}

/// What the engine is handed back for a handler's outcome: zero for
/// success, the raw value of the error otherwise.
pub open spec fn raw_outcome(outcome: Result<(), Error>) -> u32 {
    match outcome {
        Ok(_) => 0,
        Err(e) => e.0,
    }
}

/// Puts a handler's outcome into the engine's return convention.
pub fn outcome_to_raw(outcome: Result<(), Error>) -> (raw: u32)
    ensures
        raw == raw_outcome(outcome),
{
    match outcome {
        Ok(_) => 0,
        Err(e) => e.raw(),
    }
}

/// A handler's failure reaches the caller of the engine call as it was
/// reported: the value handed to the engine checks back to the same error.
/// The one failure that cannot be told from success is an error whose raw
/// value is zero.
pub proof fn lemma_outcome_survives_engine(outcome: Result<(), Error>)
    requires
        outcome is Err ==> outcome->Err_0.0 != 0,
    ensures
        checked(raw_outcome(outcome)) == outcome,
{
    match outcome {
        Ok(unit) => {
            assert(unit == ());
        },
        Err(e) => {
            assert(Error(e.0) == e);
        },
    }
}

/// A failure that a handler reports becomes the outcome of the operation,
/// whatever the engine answers: the cell keeps it, the first of them where
/// there are several, and an outcome with a kept failure is that failure.
pub proof fn lemma_handler_failure_is_the_outcome<T>(
    kept: Option<Error>,
    reported: Result<(), Error>,
    engine: Result<T, Error>,
)
    requires
        reported is Err,
    ensures
        noted(kept, reported) is Some,
        kept is None ==> surfaced(engine, noted(kept, reported)) == Err::<T, Failure>(
            Failure::HandlerAborted(reported->Err_0),
        ),
        kept matches Some(first) ==> surfaced(engine, noted(kept, reported)) == Err::<T, Failure>(
            Failure::HandlerAborted(first),
        ),
{
}

/// A passphrase request, as a provider sees it.
#[derive(Clone, Debug, PartialEq, Eq)]
pub struct PassphraseRequest {
    pub uid_hint: Option<Vec<u8>>,
    pub desc: Option<Vec<u8>>,
    pub prev_attempt_failed: bool,
}

impl PassphraseRequest {
    /// The request that the engine's raw arguments stand for: the two texts
    /// as given, and an earlier attempt counted as failed for any `was_bad`
    /// other than zero.
    pub fn from_raw(uid_hint: Option<Vec<u8>>, desc: Option<Vec<u8>>, was_bad: libc::c_int) -> (r:
        PassphraseRequest)
        ensures
            r.uid_hint == uid_hint,
            r.desc == desc,
            r.prev_attempt_failed == (was_bad != 0),
    {
        PassphraseRequest { uid_hint, desc, prev_attempt_failed: was_bad != 0 }
    }
}

/// A progress notice, as a handler sees it.
#[derive(Clone, Debug, PartialEq, Eq)]
pub struct ProgressInfo {
    pub what: Option<Vec<u8>>,
    pub typ: i64,
    pub current: i64,
    pub total: i64,
}

impl ProgressInfo {
    /// The notice that the engine's raw arguments stand for, its counters
    /// widened without change.
    pub fn from_raw(
        what: Option<Vec<u8>>,
        typ: libc::c_int,
        current: libc::c_int,
        total: libc::c_int,
    ) -> (r: ProgressInfo)
        ensures
            r.what == what,
            r.typ == typ,
            r.current == current,
            r.total == total,
    {
        ProgressInfo { what, typ: typ as i64, current: current as i64, total: total as i64 }
    }
}

/// Answers passphrase requests by writing the passphrase to `out`.
pub trait PassphraseProvider {
    fn get_passphrase(&mut self, request: &PassphraseRequest, out: &mut Vec<u8>) -> Result<
        (),
        Error,
    >;
}

/// Receives progress notices.
pub trait ProgressHandler {
    fn handle(&mut self, info: &ProgressInfo);
}

/// Receives status lines.
pub trait StatusHandler {
    fn handle(&mut self, keyword: Option<&[u8]>, args: Option<&[u8]>) -> Result<(), Error>;
}

/// Takes the turns of a key-editing dialogue. Where the engine expects an
/// answer, `need_response` is set and what is written to `out` is sent.
pub trait EditInteractor {
    fn interact(&mut self, status: &EditInteractionStatus, need_response: bool, out: &mut Vec<u8>)
        -> Result<(), Error>;
}

/// Takes the turns of a free-running dialogue. Where the engine expects an
/// answer, `need_response` is set and what is written to `out` is sent.
pub trait Interactor {
    fn interact(
        &mut self,
        keyword: Option<&[u8]>,
        args: Option<&[u8]>,
        need_response: bool,
        out: &mut Vec<u8>,
    ) -> Result<(), Error>;
}

/// Where a handler lives while it is installed. The handler is taken out
/// for the length of each invocation; an invocation that finds the cell
/// empty is refused. The cell keeps the first failure that the handler
/// reported, so that it can be made the outcome of the operation.
#[derive(Debug)]
pub struct HandlerCell<H> {
    pub handler: Option<H>,
    pub failure: Option<Error>,
}

/// The failure a cell keeps after an invocation: the one it kept before, if
/// any, and else the failure of the invocation, if it failed.
pub open spec fn noted(kept: Option<Error>, outcome: Result<(), Error>) -> Option<Error> {
    match kept {
        Some(_) => kept,
        None => match outcome {
            Ok(_) => None,
            Err(cause) => Some(cause),
        },
    }
}

impl<H> HandlerCell<H> {
    /// A cell that holds `handler` and no failure.
    pub fn new(handler: H) -> (cell: HandlerCell<H>)
        ensures
            cell.handler == Some(handler),
            cell.failure is None,
    {
        HandlerCell { handler: Some(handler), failure: None }
    }

    /// Whether the cell holds its handler.
    pub fn is_ready(&self) -> (b: bool)
        ensures
            b == self.handler is Some,
    {
        self.handler.is_some()
    }

    /// The first failure that the handler reported, if it reported one.
    pub fn failure(&self) -> (f: Option<Error>)
        ensures
            f == self.failure,
    {
        self.failure
    }

    /// Gives the handler back, if the cell still holds it.
    pub fn into_inner(self) -> (h: Option<H>)
        ensures
            h == self.handler,
    {
        self.handler
    }

    /// Keeps the failure of an invocation, unless one is kept already.
    fn note(&mut self, outcome: Result<(), Error>)
        ensures
            final(self).handler == old(self).handler,
            final(self).failure == noted(old(self).failure, outcome),
    {
        if self.failure.is_none() {
            match outcome {
                Ok(_) => {},
                Err(cause) => {
                    self.failure = Some(cause);
                },
            }
        }
    }
}

/// Whether the engine expects an answer on the descriptor it passed: it
/// does unless the descriptor is negative.
pub open spec fn expects_response(fd: libc::c_int) -> bool {
    fd >= 0
}

/// Whether what a handler wrote is to be sent down the descriptor that
/// the engine passed: only where the engine expects an answer and
/// something was written.
pub fn wants_send(fd: libc::c_int, out: &Vec<u8>) -> (send: bool)
    ensures
        send == (expects_response(fd) && out@.len() > 0),
{
    fd >= 0 && out.len() > 0
}

/// What the engine is handed back once what a handler wrote has been sent
/// with the outcome `sent`. A handler that failed has its own answer. For a
/// handler that succeeded, a failure to send counts as its failure: it is
/// the answer, and the cell keeps it.
pub fn after_send<H>(cell: &mut HandlerCell<H>, raw: u32, sent: Result<(), Error>) -> (answer: u32)
    ensures
        final(cell).handler == old(cell).handler,
        raw != 0 ==> answer == raw && final(cell).failure == old(cell).failure,
        raw == 0 ==> answer == raw_outcome(sent) && final(cell).failure == noted(
            old(cell).failure,
            sent,
        ),
{
    if raw != 0 {
        raw
    } else {
        cell.note(sent);
        outcome_to_raw(sent)
    }
}

/// One passphrase request from the engine. A cell without its handler
/// refuses with a general error and writes nothing. Otherwise the provider
/// is asked once, with the request that the raw arguments stand for and
/// with `out` as its sink; it is back in the cell afterwards, and the
/// engine is handed its outcome in the engine's own convention.
pub fn passphrase_cb<P: PassphraseProvider>(
    cell: &mut HandlerCell<P>,
    uid_hint: Option<Vec<u8>>,
    desc: Option<Vec<u8>>,
    was_bad: libc::c_int,
    out: &mut Vec<u8>,
) -> (raw: u32)
    ensures
        old(cell).handler is None ==> raw == CODE_GENERAL && *final(cell) == *old(cell)
            && final(out)@ == old(out)@,
        old(cell).handler matches Some(held) ==> exists|
            provider: &mut P,
            request: &PassphraseRequest,
            sink: &mut Vec<u8>,
            outcome: Result<(), Error>,
        |
            ({
                &&& #[trigger] call_ensures(P::get_passphrase, (provider, request, sink), outcome)
                &&& *request == (PassphraseRequest {
                    uid_hint,
                    desc,
                    prev_attempt_failed: was_bad != 0,
                })
                &&& *provider == held
                &&& final(cell).handler == Some(*final(provider))
                &&& *sink == *old(out)
                &&& *final(sink) == *final(out)
                &&& raw == raw_outcome(outcome)
                &&& final(cell).failure == noted(old(cell).failure, outcome)
            }),
{
    match cell.handler.take() {
        None => CODE_GENERAL,
        Some(mut provider) => {
            let request = PassphraseRequest::from_raw(uid_hint, desc, was_bad);
            let ask = P::get_passphrase;
            let outcome = ask(&mut provider, &request, out);
            cell.handler = Some(provider);
            cell.note(outcome);
            outcome_to_raw(outcome)
        },
    }
}

/// One progress notice from the engine. A cell without its handler drops
/// the notice. Otherwise the handler sees, once, the notice that the raw
/// arguments stand for, and is back in the cell afterwards.
pub fn progress_cb<H: ProgressHandler>(
    cell: &mut HandlerCell<H>,
    what: Option<Vec<u8>>,
    typ: libc::c_int,
    current: libc::c_int,
    total: libc::c_int,
)
    ensures
        old(cell).handler is None ==> *final(cell) == *old(cell),
        old(cell).handler matches Some(held) ==> exists|handler: &mut H, info: &ProgressInfo|
            ({
                &&& #[trigger] call_ensures(H::handle, (handler, info), ())
                &&& *info == (ProgressInfo {
                    what,
                    typ: typ as i64,
                    current: current as i64,
                    total: total as i64,
                })
                &&& *handler == held
                &&& final(cell).handler == Some(*final(handler))
                &&& final(cell).failure == old(cell).failure
            }),
{
    match cell.handler.take() {
        None => {},
        Some(mut handler) => {
            let info = ProgressInfo::from_raw(what, typ, current, total);
            let notify = H::handle;
            notify(&mut handler, &info);
            cell.handler = Some(handler);
        },
    }
}

/// One status line from the engine. A cell without its handler refuses with
/// a general error. Otherwise the handler sees the line once and is back in
/// the cell afterwards, and the engine is handed the handler's outcome in
/// its own convention.
pub fn status_cb<H: StatusHandler>(
    cell: &mut HandlerCell<H>,
    keyword: Option<&[u8]>,
    args: Option<&[u8]>,
) -> (raw: u32)
    ensures
        old(cell).handler is None ==> raw == CODE_GENERAL && *final(cell) == *old(cell),
        old(cell).handler matches Some(held) ==> exists|
            handler: &mut H,
            outcome: Result<(), Error>,
        |
            ({
                &&& #[trigger] call_ensures(H::handle, (handler, keyword, args), outcome)
                &&& *handler == held
                &&& final(cell).handler == Some(*final(handler))
                &&& raw == raw_outcome(outcome)
                &&& final(cell).failure == noted(old(cell).failure, outcome)
            }),
{
    match cell.handler.take() {
        None => CODE_GENERAL,
        Some(mut handler) => {
            let deliver = H::handle;
            let outcome = deliver(&mut handler, keyword, args);
            cell.handler = Some(handler);
            cell.note(outcome);
            outcome_to_raw(outcome)
        },
    }
}

/// One turn of a key-editing dialogue. A cell without its handler refuses
/// with a general error and sends nothing. Otherwise the interactor takes
/// the turn and is back in the cell afterwards, and the engine is handed
/// its outcome in the engine's own convention. Where the engine expects an
/// answer the interactor writes to `out`; where it expects none, what the
/// interactor writes is dropped and nothing is sent.
pub fn edit_cb<E: EditInteractor>(
    cell: &mut HandlerCell<E>,
    status: u32,
    args: Option<Vec<u8>>,
    fd: libc::c_int,
    out: &mut Vec<u8>,
) -> (raw: u32)
    ensures
        old(cell).handler is None ==> raw == CODE_GENERAL && *final(cell) == *old(cell),
        !expects_response(fd) || old(cell).handler is None ==> final(out)@ == old(out)@,
        old(cell).handler matches Some(held) ==> exists|
            interactor: &mut E,
            line: &EditInteractionStatus,
            need_response: bool,
            sink: &mut Vec<u8>,
            outcome: Result<(), Error>,
        |
            ({
                &&& #[trigger] call_ensures(
                    E::interact,
                    (interactor, line, need_response, sink),
                    outcome,
                )
                &&& *line == (EditInteractionStatus { code: StatusCode(status), args })
                &&& need_response == expects_response(fd)
                &&& *interactor == held
                &&& final(cell).handler == Some(*final(interactor))
                &&& raw == raw_outcome(outcome)
                &&& final(cell).failure == noted(old(cell).failure, outcome)
                &&& if expects_response(fd) {
                    *sink == *old(out) && *final(sink) == *final(out)
                } else {
                    (*sink)@ == Seq::<u8>::empty()
                }
            }),
{
    match cell.handler.take() {
        None => CODE_GENERAL,
        Some(mut interactor) => {
            let status = EditInteractionStatus { code: StatusCode(status), args };
            let turn = E::interact;
            let outcome = if fd < 0 {
                let mut dropped: Vec<u8> = Vec::new();
                turn(&mut interactor, &status, false, &mut dropped)
            } else {
                turn(&mut interactor, &status, true, out)
            };
            cell.handler = Some(interactor);
            cell.note(outcome);
            outcome_to_raw(outcome)
        },
    }
}

/// One turn of a free-running dialogue. A cell without its handler refuses
/// with a general error and sends nothing. Otherwise the interactor takes
/// the turn and is back in the cell afterwards, and the engine is handed
/// its outcome in the engine's own convention. Where the engine expects an
/// answer the interactor writes to `out`; where it expects none, what the
/// interactor writes is dropped and nothing is sent.
pub fn interact_cb<I: Interactor>(
    cell: &mut HandlerCell<I>,
    keyword: Option<&[u8]>,
    args: Option<&[u8]>,
    fd: libc::c_int,
    out: &mut Vec<u8>,
) -> (raw: u32)
    ensures
        old(cell).handler is None ==> raw == CODE_GENERAL && *final(cell) == *old(cell),
        !expects_response(fd) || old(cell).handler is None ==> final(out)@ == old(out)@,
        old(cell).handler matches Some(held) ==> exists|
            interactor: &mut I,
            need_response: bool,
            sink: &mut Vec<u8>,
            outcome: Result<(), Error>,
        |
            ({
                &&& #[trigger] call_ensures(
                    I::interact,
                    (interactor, keyword, args, need_response, sink),
                    outcome,
                )
                &&& need_response == expects_response(fd)
                &&& *interactor == held
                &&& final(cell).handler == Some(*final(interactor))
                &&& raw == raw_outcome(outcome)
                &&& final(cell).failure == noted(old(cell).failure, outcome)
                &&& if expects_response(fd) {
                    *sink == *old(out) && *final(sink) == *final(out)
                } else {
                    (*sink)@ == Seq::<u8>::empty()
                }
            }),
{
    match cell.handler.take() {
        None => CODE_GENERAL,
        Some(mut interactor) => {
            let turn = I::interact;
            let outcome = if fd < 0 {
                let mut dropped: Vec<u8> = Vec::new();
                turn(&mut interactor, keyword, args, false, &mut dropped)
            } else {
                turn(&mut interactor, keyword, args, true, out)
            };
            cell.handler = Some(interactor);
            cell.note(outcome);
            outcome_to_raw(outcome)
        },
    }
}

/// What holds of a cell over a run of invocations in each of which the
/// handler succeeds: the cell holds its handler throughout and keeps no
/// failure, and every answer to the engine is zero.
proof fn lemma_run_of_successes(
    ready: Seq<bool>,
    kept: Seq<Option<Error>>,
    outcomes: Seq<Result<(), Error>>,
    answers: Seq<u32>,
    upto: int,
)
    requires
        ready.len() == outcomes.len() + 1,
        kept.len() == outcomes.len() + 1,
        answers.len() == outcomes.len(),
        ready[0],
        kept[0] is None,
        forall|i: int|
            0 <= i < outcomes.len() && #[trigger] ready[i] ==> ready[i + 1] && kept[i + 1] == noted(
                kept[i],
                outcomes[i],
            ) && answers[i] == raw_outcome(outcomes[i]),
        forall|i: int| 0 <= i < outcomes.len() && ready[i] ==> (#[trigger] outcomes[i]) is Ok,
        0 <= upto <= outcomes.len(),
    ensures
        ready[upto],
        kept[upto] is None,
        forall|i: int| 0 <= i < upto ==> #[trigger] answers[i] == 0,
    decreases upto,
{
    if upto > 0 {
        lemma_run_of_successes(ready, kept, outcomes, answers, upto - 1);
        assert(ready[upto - 1]);
        assert(outcomes[upto - 1] is Ok);
    }
}

/// What holds of a cell over a run of invocations up to and including the
/// first in which the handler fails: the cell keeps that failure, and the
/// answer to the engine for that invocation is the failure in raw form.
proof fn lemma_run_to_first_failure(
    ready: Seq<bool>,
    kept: Seq<Option<Error>>,
    outcomes: Seq<Result<(), Error>>,
    answers: Seq<u32>,
    at: int,
    cause: Error,
)
    requires
        ready.len() == outcomes.len() + 1,
        kept.len() == outcomes.len() + 1,
        answers.len() == outcomes.len(),
        ready[0],
        kept[0] is None,
        forall|i: int|
            0 <= i < outcomes.len() && #[trigger] ready[i] ==> ready[i + 1] && kept[i + 1] == noted(
                kept[i],
                outcomes[i],
            ) && answers[i] == raw_outcome(outcomes[i]),
        0 <= at < outcomes.len(),
        forall|i: int| 0 <= i < at ==> (#[trigger] outcomes[i]) is Ok,
        outcomes[at] == Err::<(), Error>(cause),
    ensures
        kept[at + 1] == Some(cause),
        answers[at] == cause.0,
{
    let first = outcomes.subrange(0, at);
    let ready_first = ready.subrange(0, at + 1);
    let kept_first = kept.subrange(0, at + 1);
    let answers_first = answers.subrange(0, at);
    assert forall|i: int| 0 <= i < first.len() && #[trigger] ready_first[i] implies ready_first[i
        + 1] && kept_first[i + 1] == noted(kept_first[i], first[i]) && answers_first[i]
        == raw_outcome(first[i]) by {
        assert(ready[i]);
    }
    assert forall|i: int| 0 <= i < first.len() && ready_first[i] implies (#[trigger] first[i])
        is Ok by {
        assert(outcomes[i] is Ok);
    }
    lemma_run_of_successes(ready_first, kept_first, first, answers_first, at);
    assert(ready[at]);
}

/// A free-running dialogue in which the interactor succeeds on every event
/// goes through. The run is what the bridge makes of the events that the
/// engine delivers, in their order: each event is one invocation of
/// `interact_cb` on the cell as the invocation before left it, which asks
/// the interactor once, in the state that its turn before left it in. If
/// the interactor reports success on each of these events, every answer
/// to the engine is zero, the interactor is in the cell at the end, and no
/// failure is kept: an engine that then answers the call with zero makes
/// the outcome of the operation a success.
pub proof fn lemma_dialogue_of_successes_goes_through<I: Interactor>(
    cells: Seq<HandlerCell<I>>,
    interactors: Seq<&mut I>,
    keywords: Seq<Option<&[u8]>>,
    args: Seq<Option<&[u8]>>,
    fds: Seq<libc::c_int>,
    sinks: Seq<&mut Vec<u8>>,
    outcomes: Seq<Result<(), Error>>,
    answers: Seq<u32>,
)
    requires
        cells.len() == outcomes.len() + 1,
        interactors.len() == outcomes.len(),
        keywords.len() == outcomes.len(),
        args.len() == outcomes.len(),
        fds.len() == outcomes.len(),
        sinks.len() == outcomes.len(),
        answers.len() == outcomes.len(),
        cells[0].handler is Some,
        cells[0].failure is None,
        forall|i: int|
            0 <= i < outcomes.len() && (#[trigger] cells[i]).handler is Some ==> ({
                &&& call_ensures(
                    I::interact,
                    (interactors[i], keywords[i], args[i], expects_response(fds[i]), sinks[i]),
                    outcomes[i],
                )
                &&& cells[i].handler == Some(*interactors[i])
                &&& cells[i + 1].handler == Some(*final(interactors[i]))
                &&& cells[i + 1].failure == noted(cells[i].failure, outcomes[i])
                &&& answers[i] == raw_outcome(outcomes[i])
            }),
        forall|i: int, outcome: Result<(), Error>|
            0 <= i < outcomes.len() && #[trigger] call_ensures(
                I::interact,
                (interactors[i], keywords[i], args[i], expects_response(fds[i]), sinks[i]),
                outcome,
            ) ==> outcome is Ok,
    ensures
        forall|i: int| 0 <= i < answers.len() ==> #[trigger] answers[i] == 0,
        forall|i: int| 0 <= i < cells.len() ==> (#[trigger] cells[i]).handler is Some,
        forall|i: int|
            0 <= i < outcomes.len() - 1 ==> *(#[trigger] interactors[i + 1])
                == *final(interactors[i]),
        cells.last().failure is None,
        surfaced(checked(0), cells.last().failure) == Ok::<(), Failure>(()),
{
    let ready = Seq::new(cells.len(), |i: int| cells[i].handler is Some);
    let kept = Seq::new(cells.len(), |i: int| cells[i].failure);
    assert forall|i: int| 0 <= i < outcomes.len() && #[trigger] ready[i] implies ready[i + 1]
        && kept[i + 1] == noted(kept[i], outcomes[i]) && answers[i] == raw_outcome(
        outcomes[i],
    ) && outcomes[i] is Ok by {
        assert(cells[i].handler is Some);
    }
    assert forall|i: int| 0 <= i < cells.len() implies (#[trigger] cells[i]).handler is Some
        && cells[i].failure is None by {
        lemma_run_of_successes(ready, kept, outcomes, answers, i);
    }
    lemma_run_of_successes(ready, kept, outcomes, answers, outcomes.len() as int);
    assert forall|i: int| 0 <= i < outcomes.len() - 1 implies *(#[trigger] interactors[i + 1])
        == *final(interactors[i]) by {
        assert(cells[i].handler is Some);
        assert(cells[i + 1].handler is Some);
    }
    assert(cells.last() == cells[cells.len() - 1]);
}

/// A free-running dialogue ends with the first failure of its interactor.
/// The run is what the bridge makes of the events up to that one, as in
/// the law above. The engine is handed the failure in raw form for the
/// event on which the interactor fails, the cell keeps it, and it is the
/// outcome of the operation whatever the engine answers the call with.
pub proof fn lemma_dialogue_ends_with_first_failure<I: Interactor>(
    cells: Seq<HandlerCell<I>>,
    interactors: Seq<&mut I>,
    keywords: Seq<Option<&[u8]>>,
    args: Seq<Option<&[u8]>>,
    fds: Seq<libc::c_int>,
    sinks: Seq<&mut Vec<u8>>,
    outcomes: Seq<Result<(), Error>>,
    answers: Seq<u32>,
    cause: Error,
    engine: Result<(), Error>,
)
    requires
        outcomes.len() > 0,
        cells.len() == outcomes.len() + 1,
        interactors.len() == outcomes.len(),
        keywords.len() == outcomes.len(),
        args.len() == outcomes.len(),
        fds.len() == outcomes.len(),
        sinks.len() == outcomes.len(),
        answers.len() == outcomes.len(),
        cells[0].handler is Some,
        cells[0].failure is None,
        forall|i: int|
            0 <= i < outcomes.len() && (#[trigger] cells[i]).handler is Some ==> ({
                &&& call_ensures(
                    I::interact,
                    (interactors[i], keywords[i], args[i], expects_response(fds[i]), sinks[i]),
                    outcomes[i],
                )
                &&& cells[i].handler == Some(*interactors[i])
                &&& cells[i + 1].handler == Some(*final(interactors[i]))
                &&& cells[i + 1].failure == noted(cells[i].failure, outcomes[i])
                &&& answers[i] == raw_outcome(outcomes[i])
            }),
        forall|i: int| 0 <= i < outcomes.len() - 1 ==> (#[trigger] outcomes[i]) is Ok,
        outcomes.last() == Err::<(), Error>(cause),
    ensures
        answers.last() == cause.0,
        cells.last().failure == Some(cause),
        surfaced(engine, cells.last().failure) == Err::<(), Failure>(Failure::HandlerAborted(cause)),
{
    let ready = Seq::new(cells.len(), |i: int| cells[i].handler is Some);
    let kept = Seq::new(cells.len(), |i: int| cells[i].failure);
    assert forall|i: int| 0 <= i < outcomes.len() && #[trigger] ready[i] implies ready[i + 1]
        && kept[i + 1] == noted(kept[i], outcomes[i]) && answers[i] == raw_outcome(
        outcomes[i],
    ) by {
        assert(cells[i].handler is Some);
    }
    lemma_run_to_first_failure(ready, kept, outcomes, answers, outcomes.len() - 1, cause);
}

/// A key-editing dialogue in which the interactor succeeds on every status
/// line goes through. The run is what the bridge makes of the lines that
/// the engine delivers, in their order: each line is one invocation of
/// `edit_cb` on the cell as the invocation before left it, which asks the
/// interactor once, in the state that its turn before left it in. If the
/// interactor reports success on each of these lines, every answer to the
/// engine is zero, the interactor is in the cell at the end, and no failure
/// is kept: an engine that then answers the call with zero makes the
/// outcome of the operation a success.
pub proof fn lemma_edit_dialogue_of_successes_goes_through<E: EditInteractor>(
    cells: Seq<HandlerCell<E>>,
    interactors: Seq<&mut E>,
    lines: Seq<EditInteractionStatus>,
    fds: Seq<libc::c_int>,
    sinks: Seq<&mut Vec<u8>>,
    outcomes: Seq<Result<(), Error>>,
    answers: Seq<u32>,
)
    requires
        cells.len() == outcomes.len() + 1,
        interactors.len() == outcomes.len(),
        lines.len() == outcomes.len(),
        fds.len() == outcomes.len(),
        sinks.len() == outcomes.len(),
        answers.len() == outcomes.len(),
        cells[0].handler is Some,
        cells[0].failure is None,
        forall|i: int|
            0 <= i < outcomes.len() && (#[trigger] cells[i]).handler is Some ==> ({
                &&& call_ensures(
                    E::interact,
                    (interactors[i], &lines[i], expects_response(fds[i]), sinks[i]),
                    outcomes[i],
                )
                &&& cells[i].handler == Some(*interactors[i])
                &&& cells[i + 1].handler == Some(*final(interactors[i]))
                &&& cells[i + 1].failure == noted(cells[i].failure, outcomes[i])
                &&& answers[i] == raw_outcome(outcomes[i])
            }),
        forall|i: int, outcome: Result<(), Error>|
            0 <= i < outcomes.len() && #[trigger] call_ensures(
                E::interact,
                (interactors[i], &lines[i], expects_response(fds[i]), sinks[i]),
                outcome,
            ) ==> outcome is Ok,
    ensures
        forall|i: int| 0 <= i < answers.len() ==> #[trigger] answers[i] == 0,
        forall|i: int| 0 <= i < cells.len() ==> (#[trigger] cells[i]).handler is Some,
        forall|i: int|
            0 <= i < outcomes.len() - 1 ==> *(#[trigger] interactors[i + 1])
                == *final(interactors[i]),
        cells.last().failure is None,
        surfaced(checked(0), cells.last().failure) == Ok::<(), Failure>(()),
{
    let ready = Seq::new(cells.len(), |i: int| cells[i].handler is Some);
    let kept = Seq::new(cells.len(), |i: int| cells[i].failure);
    assert forall|i: int| 0 <= i < outcomes.len() && #[trigger] ready[i] implies ready[i + 1]
        && kept[i + 1] == noted(kept[i], outcomes[i]) && answers[i] == raw_outcome(
        outcomes[i],
    ) && outcomes[i] is Ok by {
        assert(cells[i].handler is Some);
    }
    assert forall|i: int| 0 <= i < cells.len() implies (#[trigger] cells[i]).handler is Some
        && cells[i].failure is None by {
        lemma_run_of_successes(ready, kept, outcomes, answers, i);
    }
    lemma_run_of_successes(ready, kept, outcomes, answers, outcomes.len() as int);
    assert forall|i: int| 0 <= i < outcomes.len() - 1 implies *(#[trigger] interactors[i + 1])
        == *final(interactors[i]) by {
        assert(cells[i].handler is Some);
        assert(cells[i + 1].handler is Some);
    }
    assert(cells.last() == cells[cells.len() - 1]);
}

} // verus!
