//! Result lists that are pulled one record at a time from a session: key
//! lists, trust lists, and the signers of a session.
//!
//! A list runs once, from its start to its end, and the engine keeps state
//! for it until it is told to let go. A cursor tells its owner when that
//! call is due, and does so once, whether the list is finished in so many
//! words, torn down early, or both.

use crate::convert::count_to_usize;
use crate::convert::count_to_usize_saturating;
use crate::convert::offset_to_c_int;
use crate::engine::Data;
use crate::engine::EngineCall;
use crate::engine::Key;
use crate::engine::ResultKind;
use crate::engine::TrustItem;
use crate::error::checked;
use crate::error::code_of;
use crate::error::Error;
use crate::error::CODE_EOF;
use crate::error::CODE_GENERAL;
use vstd::prelude::*;

verus! {

/// Where a list stands.
#[derive(Clone, Copy, Debug, PartialEq, Eq, Structural)]
pub enum CursorState {
    /// The engine has not been asked to start the list.
    NotStarted,
    /// The list is running: a pull may yield a record.
    Active,
    /// The list is over: no pull yields a record any more.
    Finished,
}

/// The cursor of one list: where the list stands, and whether the call
/// that lets the engine drop its state for the list is still due.
#[derive(Clone, Copy, Debug, PartialEq, Eq, Structural)]
pub struct Cursor {
    pub state: CursorState,
    pub release_due: bool,
}

/// What pulling yields for the engine's answer `code`, on a running list:
/// a record for zero, the end of the list for the end-of-list code, and the
/// answer as an error for anything else.
pub open spec fn pulled<T>(code: u32, record: T) -> Option<Result<T, Error>> {
    if code == 0 {
        Some(Ok(record))
    } else if code_of(code) == CODE_EOF {
        None
    } else {
        Some(Err(Error(code)))
    }
}

/// What can happen to a cursor.
pub enum CursorEvent {
    /// The engine answered the call that starts the list.
    Started(u32),
    /// The engine answered a pull.
    Pulled(u32),
    /// The owner finishes the list or lets go of the cursor.
    Finalized,
}

impl Cursor {
    /// A cursor is well formed when the release is due only for a list
    /// that was started.
    pub open spec fn wf(self) -> bool {
        self.state == CursorState::NotStarted ==> !self.release_due
    }

    /// The cursor after the engine answered the start of the list with
    /// `code`. A list starts once: on a cursor that was started before the
    /// answer changes nothing.
    pub open spec fn after_start(self, code: u32) -> Cursor {
        if self.state != CursorState::NotStarted {
            self
        } else if code == 0 {
            Cursor { state: CursorState::Active, release_due: true }
        } else {
            Cursor { state: CursorState::Finished, release_due: false }
        }
    }

    /// The cursor after the engine answered a pull with `code`. Only the
    /// end of the list moves a running cursor; an error leaves it running.
    pub open spec fn after_pull(self, code: u32) -> Cursor {
        if self.state == CursorState::Active && code != 0 && code_of(code) == CODE_EOF {
            Cursor { state: CursorState::Finished, ..self }
        } else {
            self
        }
    }

    /// The cursor after it was finalized: the list is over and no release
    /// is due any more.
    pub open spec fn after_finalize(self) -> Cursor {
        Cursor { state: CursorState::Finished, release_due: false }
    }

    /// The cursor after `event`.
    pub open spec fn after(self, event: CursorEvent) -> Cursor {
        match event {
            CursorEvent::Started(code) => self.after_start(code),
            CursorEvent::Pulled(code) => self.after_pull(code),
            CursorEvent::Finalized => self.after_finalize(),
        }
    }

    /// Whether `event` makes the cursor ask for the release call.
    pub open spec fn releases_on(self, event: CursorEvent) -> bool {
        event is Finalized && self.release_due
    }

    /// The cursor after a run of events.
    pub open spec fn after_all(self, events: Seq<CursorEvent>) -> Cursor
        decreases events.len(),
    {
        if events.len() == 0 {
            self
        } else {
            self.after(events[0]).after_all(events.subrange(1, events.len() as int))
        }
    }

    /// How often the cursor asks for the release call over a run of events.
    pub open spec fn releases(self, events: Seq<CursorEvent>) -> nat
        decreases events.len(),
    {
        if events.len() == 0 {
            0
        } else {
            let now: nat = if self.releases_on(events[0]) {
                1
            } else {
                0
            };
            now + self.after(events[0]).releases(events.subrange(1, events.len() as int))
        }
    }

    /// A cursor for a list that has not been started.
    pub fn new() -> (c: Cursor)
        ensures
            c == (Cursor { state: CursorState::NotStarted, release_due: false }),
            c.wf(),
    {
        Cursor { state: CursorState::NotStarted, release_due: false }
    }

    /// Where the list stands.
    pub fn state(&self) -> (s: CursorState)
        ensures
            s == self.state,
    {
        self.state
    }

    /// Whether the cursor was finalized: the list is over and no release is
    /// due.
    pub fn is_finalized(&self) -> (b: bool)
        ensures
            b == (self.state == CursorState::Finished && !self.release_due),
    {
        self.state == CursorState::Finished && !self.release_due
    }

    /// Whether a pull may yield a record, so that the engine is to be
    /// asked.
    pub fn is_active(&self) -> (b: bool)
        ensures
            b == (self.state == CursorState::Active),
    {
        self.state == CursorState::Active
    }

    /// Takes the engine's answer to the call that starts the list. Zero
    /// starts the list; any other answer ends it before it began, with the
    /// answer as the error and no release due. A list starts once: a cursor
    /// that was started before refuses with a general error and stays as it
    /// is.
    pub fn start(&mut self, code: u32) -> (r: Result<(), Error>)
        ensures
            *final(self) == old(self).after_start(code),
            old(self).state == CursorState::NotStarted ==> r == checked(code),
            old(self).state != CursorState::NotStarted ==> r == Err::<(), Error>(
                Error(CODE_GENERAL),
            ),
            old(self).wf() ==> final(self).wf(),
    {
        if self.state != CursorState::NotStarted {
            return Err(Error::general());
        }
        if code == 0 {
            self.state = CursorState::Active;
            self.release_due = true;
            Ok(())
        } else {
            self.state = CursorState::Finished;
            self.release_due = false;
            Err(Error::new(code))
        }
    }

    /// Takes the engine's answer to one pull, and the record that came with
    /// it. A running list yields the record for the answer zero, ends on
    /// the end-of-list code, and yields any other answer as an error
    /// without ending: whether more records follow an error is for the
    /// engine to say, and the next pull asks it. A list that is not running
    /// yields nothing.
    pub fn pull<T>(&mut self, code: u32, record: T) -> (r: Option<Result<T, Error>>)
        ensures
            *final(self) == old(self).after_pull(code),
            old(self).state == CursorState::Active ==> r == pulled(code, record),
            old(self).state != CursorState::Active ==> r is None,
            old(self).wf() ==> final(self).wf(),
    {
        if self.state != CursorState::Active {
            return None;
        }
        if code == 0 {
            Some(Ok(record))
        } else if Error::new(code).code() == CODE_EOF {
            self.state = CursorState::Finished;
            None
        } else {
            Some(Err(Error::new(code)))
        }
    }

    /// Ends the list, and says whether the release call is to be made now.
    /// It is, the first time this is asked of a list that was started, and
    /// never again.
    pub fn finalize(&mut self) -> (release: bool)
        ensures
            release == old(self).release_due,
            release == old(self).releases_on(CursorEvent::Finalized),
            *final(self) == old(self).after_finalize(),
            final(self).wf(),
    {
        let release = self.release_due;
        self.state = CursorState::Finished;
        self.release_due = false;
        release
    }
}

/// However a cursor is used, it asks for the release call at most once; a
/// cursor on which no release is due never asks.
pub proof fn lemma_release_at_most_once(cursor: Cursor, events: Seq<CursorEvent>)
    requires
        cursor.wf(),
    ensures
        cursor.releases(events) <= 1,
        !cursor.release_due && cursor.state != CursorState::NotStarted ==> cursor.releases(events)
            == 0,
        cursor.after_all(events).wf(),
    decreases events.len(),
{
    if events.len() > 0 {
        let next = cursor.after(events[0]);
        let rest = events.subrange(1, events.len() as int);
        lemma_release_at_most_once(next, rest);
    }
}

/// A list that was started and is finalized, at its end or before it, has
/// its release asked for exactly once, however many pulls came before and
/// however often it is finalized again afterwards.
pub proof fn lemma_release_exactly_once(cursor: Cursor, events: Seq<CursorEvent>, at: int)
    requires
        cursor.wf(),
        cursor.release_due,
        0 <= at < events.len(),
        events[at] is Finalized,
    ensures
        cursor.releases(events) == 1,
        !cursor.after_all(events).release_due,
        cursor.after_all(events).state == CursorState::Finished,
    decreases events.len(),
{
    let next = cursor.after(events[0]);
    let rest = events.subrange(1, events.len() as int);
    if events[0] is Finalized {
        lemma_release_at_most_once(next, rest);
        lemma_finalized_stays(next, rest);
    } else {
        assert(at > 0);
        assert(rest[at - 1] == events[at]);
        lemma_release_exactly_once(next, rest, at - 1);
    }
}

/// A cursor that was finalized stays finished, with no release due,
/// whatever happens to it afterwards.
pub proof fn lemma_finalized_stays(cursor: Cursor, events: Seq<CursorEvent>)
    requires
        cursor.state == CursorState::Finished,
        !cursor.release_due,
    ensures
        cursor.after_all(events) == cursor,
        cursor.releases(events) == 0,
    decreases events.len(),
{
    if events.len() > 0 {
        lemma_finalized_stays(cursor.after(events[0]), events.subrange(1, events.len() as int));
    }
}

/// A list of keys.
#[derive(Debug, PartialEq, Eq)]
pub struct Keys {
    pub cursor: Cursor,
}

impl Keys {
    /// The call that starts a list of the keys held in `src`.
    pub fn from_data(src: &Data) -> (call: EngineCall)
        ensures
            call == (EngineCall::KeyListFromData { data: src.0, reserved: 0 }),
    {
        EngineCall::KeyListFromData { data: src.as_raw(), reserved: 0 }
    }

    /// The list that the engine's answer to the start call opens: a running
    /// list for zero, and the answer as the error otherwise.
    pub fn start(code: u32) -> (r: Result<Keys, Error>)
        ensures
            code == 0 ==> r == Ok::<Keys, Error>(
                Keys { cursor: Cursor { state: CursorState::Active, release_due: true } },
            ),
            code != 0 ==> r == Err::<Keys, Error>(Error(code)),
    {
        let mut cursor = Cursor::new();
        match cursor.start(code) {
            Ok(_) => Ok(Keys { cursor }),
            Err(e) => Err(e),
        }
    }

    /// The call that pulls the next key, while the list is running.
    pub fn next_call(&self) -> (call: Option<EngineCall>)
        ensures
            self.cursor.state == CursorState::Active ==> call == Some(EngineCall::KeyListNext),
            self.cursor.state != CursorState::Active ==> call is None,
    {
        if self.cursor.is_active() {
            Some(EngineCall::KeyListNext)
        } else {
            None
        }
    }

    /// Takes the engine's answer to one pull and the key that came with
    /// it.
    pub fn next(&mut self, code: u32, key: Key) -> (r: Option<Result<Key, Error>>)
        ensures
            final(self).cursor == old(self).cursor.after_pull(code),
            old(self).cursor.state == CursorState::Active ==> r == pulled(code, key),
            old(self).cursor.state != CursorState::Active ==> r is None,
    {
        self.cursor.pull(code, key)
    }

    /// Ends the list, and gives the release call where it is to be made
    /// now: the first time, and never again.
    pub fn finalize(&mut self) -> (call: Option<EngineCall>)
        ensures
            final(self).cursor == old(self).cursor.after_finalize(),
            old(self).cursor.release_due ==> call == Some(EngineCall::KeyListEnd),
            !old(self).cursor.release_due ==> call is None,
    {
        if self.cursor.finalize() {
            Some(EngineCall::KeyListEnd)
        } else {
            None
        }
    }

    /// The outcome of finishing the list in so many words, from the
    /// engine's answer to the release call. The list is finalized first, by
    /// `finalize`, which hands out the release call where it is due; what
    /// the engine answers to that call comes here. On zero the summary of
    /// the list is to be read; any other answer is the error. Where no
    /// release call was due, because the list had been finalized before,
    /// there is no answer, and the outcome is a general error.
    pub fn finish(self, answer: Option<u32>) -> (r: Result<ResultKind, Error>)
        requires
            self.cursor.state == CursorState::Finished,
            !self.cursor.release_due,
        ensures
            answer is None ==> r == Err::<ResultKind, Error>(Error(CODE_GENERAL)),
            answer == Some(0u32) ==> r == Ok::<ResultKind, Error>(ResultKind::KeyList),
            answer matches Some(code) ==> (code != 0 ==> r == Err::<ResultKind, Error>(
                Error(code),
            )),
    {
        match answer {
            None => Err(Error::general()),
            Some(code) => match Error::check(code) {
                Ok(_) => Ok(ResultKind::KeyList),
                Err(e) => Err(e),
            },
        }
    }
}

/// A list of trust items.
#[derive(Debug, PartialEq, Eq)]
pub struct TrustItems {
    pub cursor: Cursor,
}

impl TrustItems {
    /// The list that the engine's answer to the start call opens: a running
    /// list for zero, and the answer as the error otherwise.
    pub fn start(code: u32) -> (r: Result<TrustItems, Error>)
        ensures
            code == 0 ==> r == Ok::<TrustItems, Error>(
                TrustItems { cursor: Cursor { state: CursorState::Active, release_due: true } },
            ),
            code != 0 ==> r == Err::<TrustItems, Error>(Error(code)),
    {
        let mut cursor = Cursor::new();
        match cursor.start(code) {
            Ok(_) => Ok(TrustItems { cursor }),
            Err(e) => Err(e),
        }
    }

    /// The call that pulls the next item, while the list is running.
    pub fn next_call(&self) -> (call: Option<EngineCall>)
        ensures
            self.cursor.state == CursorState::Active ==> call == Some(EngineCall::TrustListNext),
            self.cursor.state != CursorState::Active ==> call is None,
    {
        if self.cursor.is_active() {
            Some(EngineCall::TrustListNext)
        } else {
            None
        }
    }

    /// Takes the engine's answer to one pull and the item that came with
    /// it.
    pub fn next(&mut self, code: u32, item: TrustItem) -> (r: Option<Result<TrustItem, Error>>)
        ensures
            final(self).cursor == old(self).cursor.after_pull(code),
            old(self).cursor.state == CursorState::Active ==> r == pulled(code, item),
            old(self).cursor.state != CursorState::Active ==> r is None,
    {
        self.cursor.pull(code, item)
    }

    /// Ends the list, and gives the release call where it is to be made
    /// now: the first time, and never again.
    pub fn finalize(&mut self) -> (call: Option<EngineCall>)
        ensures
            final(self).cursor == old(self).cursor.after_finalize(),
            old(self).cursor.release_due ==> call == Some(EngineCall::TrustListEnd),
            !old(self).cursor.release_due ==> call is None,
    {
        if self.cursor.finalize() {
            Some(EngineCall::TrustListEnd)
        } else {
            None
        }
    }

    /// The outcome of finishing the list in so many words, from the
    /// engine's answer to the release call. The list is finalized first, by
    /// `finalize`, which hands out the release call where it is due; what
    /// the engine answers to that call comes here: success on zero, and any
    /// other answer as the error. Where no release call was due, because
    /// the list had been finalized before, there is no answer, and the
    /// outcome is a general error.
    pub fn finish(self, answer: Option<u32>) -> (r: Result<(), Error>)
        requires
            self.cursor.state == CursorState::Finished,
            !self.cursor.release_due,
        ensures
            answer is None ==> r == Err::<(), Error>(Error(CODE_GENERAL)),
            answer matches Some(code) ==> r == checked(code),
    {
        match answer {
            None => Err(Error::general()),
            Some(code) => Error::check(code),
        }
    }
}

/// The signers of a session, by their place in the engine's list. The
/// cursor holds the place to ask for next, or nothing once the list is
/// over, and whether the engine in use can say how many signers it holds.
#[derive(Clone, Copy, Debug, PartialEq, Eq, Structural)]
pub struct Signers {
    pub current: Option<libc::c_int>,
    pub counted: bool,
}

/// The place `n` steps after `from`, where both the step and the place fit
/// the engine's `int`.
pub open spec fn place_after(from: libc::c_int, n: usize) -> Option<libc::c_int> {
    if n <= libc::c_int::MAX && from + n <= libc::c_int::MAX {
        Some((from + n) as libc::c_int)
    } else {
        None
    }
}

/// How many signers are left from place `from` on, of `count` in all.
pub open spec fn left_from(count: libc::c_uint, from: libc::c_int) -> int {
    if from <= count {
        count - from
    } else {
        0
    }
}

impl Signers {
    /// A cursor holds a place that is not negative.
    pub open spec fn wf(self) -> bool {
        self.current matches Some(place) ==> place >= 0
    }

    /// A cursor at the first signer, for an engine that can say how many
    /// signers it holds where `counted` is set.
    pub fn new(counted: bool) -> (s: Signers)
        ensures
            s.current == Some(0 as libc::c_int),
            s.counted == counted,
            s.wf(),
    {
        Signers { current: Some(0), counted }
    }

    /// Whether the cursor holds a place that is not negative.
    pub fn is_valid(&self) -> (b: bool)
        ensures
            b == self.wf(),
    {
        match self.current {
            Some(place) => place >= 0,
            None => true,
        }
    }

    /// The call that asks the engine how many signers it holds, where the
    /// engine in use can say.
    pub fn count_call(&self) -> (call: Option<EngineCall>)
        ensures
            self.counted ==> call == Some(EngineCall::SignersCount),
            !self.counted ==> call is None,
    {
        if self.counted {
            Some(EngineCall::SignersCount)
        } else {
            None
        }
    }

    /// The call that asks for the signer at the current place, while the
    /// list is not over.
    pub fn next_call(&self) -> (call: Option<EngineCall>)
        ensures
            self.current matches Some(place) ==> call == Some(
                EngineCall::SignersEnum { index: place },
            ),
            self.current is None ==> call is None,
    {
        match self.current {
            Some(place) => Some(EngineCall::SignersEnum { index: place }),
            None => None,
        }
    }

    /// Takes the engine's answer for the current place. A signer moves the
    /// cursor one place on, or ends the list where there is no further
    /// place; no signer ends the list. A list that is over yields nothing.
    pub fn next(&mut self, found: Option<Key>) -> (r: Option<Key>)
        ensures
            old(self).wf() ==> final(self).wf(),
            old(self).current is None ==> r is None && final(self).current is None,
            old(self).current is Some && found is None ==> r is None && final(self).current
                is None,
            old(self).current is Some && found is Some ==> r == found && final(self).current
                == place_after(old(self).current->Some_0, 1),
    {
        match self.current {
            None => None,
            Some(place) => match found {
                Some(key) => {
                    self.current = place.checked_add(1);
                    Some(key)
                },
                None => {
                    self.current = None;
                    None
                },
            },
        }
    }

    /// Moves `n` places on, and gives the call that asks for the signer
    /// there. The list is over where the step or the new place does not fit
    /// the engine's `int`.
    pub fn nth(&mut self, n: usize) -> (call: Option<EngineCall>)
        ensures
            old(self).wf() ==> final(self).wf(),
            old(self).current is None ==> final(self).current is None,
            old(self).current is Some ==> final(self).current == place_after(
                old(self).current->Some_0,
                n,
            ),
            final(self).current matches Some(place) ==> call == Some(
                EngineCall::SignersEnum { index: place },
            ),
            final(self).current is None ==> call is None,
    {
        self.current = match self.current {
            None => None,
            Some(place) => match offset_to_c_int(n) {
                None => None,
                Some(step) => place.checked_add(step),
            },
        };
        self.next_call()
    }

    /// An estimate of how many signers are left, from the count that the
    /// engine gave where it was asked. With a count, the estimate is exact:
    /// none once the list is over, else those from the current place on,
    /// as both the least and the greatest number that can follow. Without
    /// one, because the engine in use cannot say or was not asked, at least
    /// none are left and no greatest number is known.
    pub fn size_hint(&self, count: Option<libc::c_uint>) -> (hint: (usize, Option<usize>))
        requires
            self.wf(),
        ensures
            self.known(count) ==> hint == (self.left(count->Some_0), Some(self.left(count->Some_0))),
            !self.known(count) ==> hint == (0usize, None::<usize>),
    {
        let count = match count {
            Some(count) => count,
            None => {
                return (0, None);
            },
        };
        if !self.counted {
            return (0, None);
        }
        match self.current {
            None => (0, Some(0)),
            Some(place) => {
                let place: libc::c_uint = place as libc::c_uint;
                let left: libc::c_uint = if place <= count {
                    count - place
                } else {
                    0
                };
                (count_to_usize_saturating(left), count_to_usize(left))
            },
        }
    }

    /// How many signers are left, from the count that the engine gave where
    /// it was asked. Without a count, because the engine in use cannot say
    /// or was not asked, the number is not known, and is found by pulling
    /// the signers that are left.
    pub fn count(self, count: Option<libc::c_uint>) -> (n: Option<usize>)
        requires
            self.wf(),
        ensures
            self.known(count) ==> n == Some(self.left(count->Some_0)),
            !self.known(count) ==> n is None,
    {
        match self.size_hint(count).1 {
            Some(left) => Some(left),
            None => None,
        }
    }

    /// Whether the number of signers that the engine holds is known: the
    /// engine in use can say, and `count` is what it said.
    pub open spec fn known(self, count: Option<libc::c_uint>) -> bool {
        self.counted && count is Some
    }

    /// How many signers are left, of `count` in all.
    pub open spec fn left(self, count: libc::c_uint) -> usize {
        match self.current {
            None => 0,
            Some(place) => left_from(count, place) as usize,
        }
    }
}

} // verus!
