//! The session: what a client holds of one engine context, and every
//! operation it can ask of the engine.
//!
//! An operation is prepared here and made elsewhere. Preparing it checks
//! that the engine in use offers it, brings the arguments into the form the
//! engine takes, and names the one call to make and the results to read
//! once that call has succeeded. The engine's answer comes back as a number
//! and is turned into the outcome of the operation here again.
//!
//! One session runs one operation at a time: no call may be made for a
//! session while another of its calls, or a result list of it, is still
//! open. Keeping to that is the caller's part.

use crate::callbacks::CallbackKind;
use crate::callbacks::CallbackSlots;
use crate::callbacks::Registration;
use crate::convert::secs_to_c_ulong_saturating;
use crate::engine::EngineCall;
use crate::engine::EngineInfo;
use crate::engine::Extract;
use crate::engine::Timestamp;
use crate::engine::Version;
use crate::error::Error;
use crate::error::CODE_NOT_SUPPORTED;
use crate::flags::PinentryMode;
use crate::flags::Protocol;
use crate::text::text_of;
use vstd::prelude::*;
use vstd::string::StringSliceAdditionalSpecFns;
use vstd::utf8::valid_utf8;

verus! {

/// One prepared operation: the call to make, and the results to read once
/// the call has succeeded.
#[derive(Debug, PartialEq, Eq)]
pub struct Operation {
    pub call: EngineCall,
    pub results: Extract,
}

impl Operation {
    /// Takes the engine's answer to the call. On zero the results of the
    /// operation are to be read, in their order; any other answer is the
    /// error of the operation, and nothing is read.
    pub fn complete(self, code: u32) -> (r: Result<Extract, Error>)
        ensures
            code == 0 ==> r == Ok::<Extract, Error>(self.results),
            code != 0 ==> r == Err::<Extract, Error>(Error(code)),
    {
        if code == 0 {
            Ok(self.results)
        } else {
            Err(Error::new(code))
        }
    }
}

/// The expiry the engine is given for a time: the whole seconds from the
/// epoch to the time, or as many as the engine's `unsigned long` holds; and
/// zero, which stands for no expiry, where no time is given.
pub open spec fn expiry_of(expires: Option<Timestamp>) -> libc::c_ulong {
    match expires {
        None => 0,
        Some(time) => if time.0 <= libc::c_ulong::MAX {
            time.0 as libc::c_ulong
        } else {
            libc::c_ulong::MAX
        },
    }
}

/// The expiry the engine is given for a time.
pub fn expiry(expires: Option<Timestamp>) -> (secs: libc::c_ulong)
    ensures
        secs == expiry_of(expires),
{
    match expires {
        None => 0,
        Some(time) => secs_to_c_ulong_saturating(time.0),
    }
}

/// The engine's number for a switch.
pub open spec fn switch_of(enabled: bool) -> libc::c_int {
    if enabled {
        1
    } else {
        0
    }
}

/// A list as the engine takes it: nothing where the list is empty.
pub fn some_unless_empty<T>(items: Vec<T>) -> (r: Option<Vec<T>>)
    ensures
        items@.len() == 0 ==> r is None,
        items@.len() > 0 ==> r == Some(items),
{
    if items.len() == 0 {
        None
    } else {
        Some(items)
    }
}

/// Whether `list` is `items` as the engine takes them: nothing where there
/// are no items, the items in their order otherwise.
pub open spec fn lists<T>(list: Option<Vec<T>>, items: Seq<T>) -> bool {
    match list {
        None => items.len() == 0,
        Some(held) => items.len() > 0 && held@ == items,
    }
}

/// The session: the version of the engine it runs on, the protocol it was
/// made for, and the handlers installed in it.
#[derive(Clone, Copy, Debug, PartialEq, Eq, Structural)]
pub struct Context {
    pub library: Version,
    pub protocol: Protocol,
    pub callbacks: CallbackSlots,
}

impl Context {
    /// Whether the engine in use is of version `major.minor` or later.
    pub open spec fn offers(self, major: u32, minor: u32) -> bool {
        self.library.reaches(major, minor)
    }

    /// The session for `proto` on an engine of version `library`, from the
    /// engine's answers to the making of its context and to the choice of
    /// the protocol. The first answer that is not zero is the error; the
    /// second counts only where the first is zero.
    pub fn from_protocol(proto: Protocol, library: Version, made: u32, chosen: u32) -> (r: Result<
        Context,
        Error,
    >)
        ensures
            made != 0 ==> r == Err::<Context, Error>(Error(made)),
            made == 0 && chosen != 0 ==> r == Err::<Context, Error>(Error(chosen)),
            made == 0 && chosen == 0 ==> r == Ok::<Context, Error>(
                Context { library, protocol: proto, callbacks: CallbackSlots::empty() },
            ),
    {
        if made != 0 {
            return Err(Error::new(made));
        }
        if chosen != 0 {
            return Err(Error::new(chosen));
        }
        Ok(Context { library, protocol: proto, callbacks: CallbackSlots::new() })
    }

    /// The protocol the session was made for.
    pub fn protocol(&self) -> (p: Protocol)
        ensures
            p == self.protocol,
    {
        self.protocol
    }

    /// Whether the engine in use is of version `major.minor` or later.
    pub fn supports(&self, major: u32, minor: u32) -> (b: bool)
        ensures
            b == self.offers(major, minor),
    {
        self.library.at_least(major, minor)
    }

    /// Whether output is armored, from the engine's number for it.
    pub fn armor(&self, raw: libc::c_int) -> (b: bool)
        ensures
            b == (raw != 0),
    {
        raw != 0
    }

    /// The call that switches armored output on or off.
    pub fn set_armor(&self, enabled: bool) -> (call: EngineCall)
        ensures
            call == (EngineCall::SetArmor { yes: switch_of(enabled) }),
    {
        EngineCall::SetArmor { yes: if enabled { 1 } else { 0 } }
    }

    /// Whether text mode is on, from the engine's number for it.
    pub fn text_mode(&self, raw: libc::c_int) -> (b: bool)
        ensures
            b == (raw != 0),
    {
        raw != 0
    }

    /// The call that switches text mode on or off.
    pub fn set_text_mode(&self, enabled: bool) -> (call: EngineCall)
        ensures
            call == (EngineCall::SetTextMode { yes: switch_of(enabled) }),
    {
        EngineCall::SetTextMode { yes: if enabled { 1 } else { 0 } }
    }

    /// Whether the session works offline, from the engine's number for it.
    pub fn offline(&self, raw: libc::c_int) -> (b: bool)
        ensures
            b == (raw != 0),
    {
        raw != 0
    }

    /// The call that switches offline work on or off.
    pub fn set_offline(&self, enabled: bool) -> (call: EngineCall)
        ensures
            call == (EngineCall::SetOffline { yes: switch_of(enabled) }),
    {
        EngineCall::SetOffline { yes: if enabled { 1 } else { 0 } }
    }

    /// The value of a flag of the session as text, from what the engine
    /// holds for it.
    pub fn get_flag<'a>(&self, raw: Option<&'a [u8]>) -> (r: Result<
        &'a str,
        Option<core::str::Utf8Error>,
    >)
        ensures
            r is Ok <==> (raw matches Some(bytes) && valid_utf8(bytes@)),
            r matches Ok(text) ==> text.spec_bytes() == raw->Some_0@,
            r matches Err(cause) ==> (cause is None <==> raw is None),
    {
        text_of(raw)
    }

    /// The call that sets the flag `name` of the session to `value`. An
    /// engine older than 1.7 does not offer it.
    pub fn set_flag(&self, name: Vec<u8>, value: Vec<u8>) -> (r: Result<Operation, Error>)
        ensures
            !self.offers(1, 7) ==> r == Err::<Operation, Error>(Error(CODE_NOT_SUPPORTED)),
            self.offers(1, 7) ==> r == Ok::<Operation, Error>(
                Operation { call: EngineCall::SetCtxFlag { name, value }, results: Extract::Nothing },
            ),
    {
        if !self.supports(1, 7) {
            return Err(Error::not_supported());
        }
        Ok(Operation { call: EngineCall::SetCtxFlag { name, value }, results: Extract::Nothing })
    }

    /// The call that sets the path of the backend and keeps its home
    /// directory as `engine` has it.
    pub fn set_engine_path(&self, engine: EngineInfo, path: Vec<u8>) -> (op: Operation)
        ensures
            op == (Operation {
                call: EngineCall::SetEngineInfo {
                    proto: self.protocol.number(),
                    path: Some(path),
                    home_dir: engine.home_dir,
                },
                results: Extract::Nothing,
            }),
    {
        Operation {
            call: EngineCall::SetEngineInfo {
                proto: self.protocol.raw(),
                path: Some(path),
                home_dir: engine.home_dir,
            },
            results: Extract::Nothing,
        }
    }

    /// The call that sets the home directory of the backend and keeps its
    /// path as `engine` has it.
    pub fn set_engine_home_dir(&self, engine: EngineInfo, home_dir: Vec<u8>) -> (op: Operation)
        ensures
            op == (Operation {
                call: EngineCall::SetEngineInfo {
                    proto: self.protocol.number(),
                    path: engine.path,
                    home_dir: Some(home_dir),
                },
                results: Extract::Nothing,
            }),
    {
        Operation {
            call: EngineCall::SetEngineInfo {
                proto: self.protocol.raw(),
                path: engine.path,
                home_dir: Some(home_dir),
            },
            results: Extract::Nothing,
        }
    }

    /// The call that sets the path and the home directory of the backend;
    /// nothing for either leaves the choice to the engine.
    pub fn set_engine_info(&self, path: Option<Vec<u8>>, home_dir: Option<Vec<u8>>) -> (op:
        Operation)
        ensures
            op == (Operation {
                call: EngineCall::SetEngineInfo {
                    proto: self.protocol.number(),
                    path,
                    home_dir,
                },
                results: Extract::Nothing,
            }),
    {
        Operation {
            call: EngineCall::SetEngineInfo { proto: self.protocol.raw(), path, home_dir },
            results: Extract::Nothing,
        }
    }

    /// The pinentry mode of the session, from the engine's number for it.
    pub fn pinentry_mode(&self, raw: u32) -> (m: PinentryMode)
        ensures
            m == crate::flags::pinentry_mode_of(raw),
    {
        PinentryMode::from_raw(raw)
    }

    /// Whether the session can be given the pinentry mode `mode` on the
    /// backend `engine`: any mode but the default needs a backend of
    /// version 2.1 where the protocol is OpenPGP.
    pub open spec fn pinentry_mode_offered(self, mode: PinentryMode, engine: EngineInfo) -> bool {
        mode == PinentryMode::Default || self.protocol != Protocol::OpenPgp || engine.reaches(2, 1)
    }

    /// The call that sets the pinentry mode, where the backend offers the
    /// mode.
    pub fn set_pinentry_mode(&self, mode: PinentryMode, engine: &EngineInfo) -> (r: Result<
        Operation,
        Error,
    >)
        ensures
            !self.pinentry_mode_offered(mode, *engine) ==> r == Err::<Operation, Error>(
                Error(CODE_NOT_SUPPORTED),
            ),
            self.pinentry_mode_offered(mode, *engine) ==> r == Ok::<Operation, Error>(
                Operation {
                    call: EngineCall::SetPinentryMode { mode: mode.number() },
                    results: Extract::Nothing,
                },
            ),
    {
        if mode != PinentryMode::Default && self.protocol == Protocol::OpenPgp
            && !engine.check_version(2, 1) {
            return Err(Error::not_supported());
        }
        Ok(
            Operation {
                call: EngineCall::SetPinentryMode { mode: mode.raw() },
                results: Extract::Nothing,
            },
        )
    }

    /// The call that brings the engine's registration for `kind` in line
    /// with what the session holds for it.
    pub fn callback_call(&self, kind: CallbackKind) -> (call: EngineCall)
        ensures
            call == (EngineCall::SetCallback {
                kind,
                entry: self.callbacks.slot(kind).entry,
                hook: self.callbacks.slot(kind).hook,
            }),
    {
        let held = self.callbacks.get(kind);
        EngineCall::SetCallback { kind, entry: held.entry, hook: held.hook }
    }

    /// Runs `scoped_call` with `handler` installed for `kind`, and puts
    /// back what was installed before, whatever the call did and however it
    /// ended. The result of the call is handed on as it is.
    pub fn with_handler<R, F: FnOnce(&mut Context) -> R>(
        &mut self,
        kind: CallbackKind,
        handler: Registration,
        scoped_call: F,
    ) -> (r: R)
        requires
            forall|session: &mut Context|
                *session == (Context {
                    callbacks: old(self).callbacks.with_slot(kind, handler),
                    ..*old(self)
                }) ==> call_requires(scoped_call, (session,)),
        ensures
            final(self).callbacks.slot(kind) == old(self).callbacks.slot(kind),
            exists|session: &mut Context|
                ({
                    &&& #[trigger] call_ensures(scoped_call, (session,), r)
                    &&& *session == (Context {
                        callbacks: old(self).callbacks.with_slot(kind, handler),
                        ..*old(self)
                    })
                    &&& *final(self) == (Context {
                        callbacks: (*final(session)).callbacks.with_slot(
                            kind,
                            old(self).callbacks.slot(kind),
                        ),
                        ..*final(session)
                    })
                }),
    {
        let scope = self.callbacks.install(kind, handler);
        let r = scoped_call(self);
        self.callbacks.restore(scope);
        r
    }

    /// Runs `f` with `provider` installed to answer passphrase requests,
    /// and puts back what was installed before.
    pub fn with_passphrase_provider<R, F: FnOnce(&mut Context) -> R>(
        &mut self,
        provider: Registration,
        f: F,
    ) -> (r: R)
        requires
            forall|session: &mut Context|
                *session == (Context {
                    callbacks: CallbackSlots { passphrase: provider, ..old(self).callbacks },
                    ..*old(self)
                }) ==> call_requires(f, (session,)),
        ensures
            final(self).callbacks.passphrase == old(self).callbacks.passphrase,
            exists|session: &mut Context|
                ({
                    &&& #[trigger] call_ensures(f, (session,), r)
                    &&& *session == (Context {
                        callbacks: CallbackSlots { passphrase: provider, ..old(self).callbacks },
                        ..*old(self)
                    })
                    &&& *final(self) == (Context {
                        callbacks: CallbackSlots {
                            passphrase: old(self).callbacks.passphrase,
                            ..(*final(session)).callbacks
                        },
                        ..*final(session)
                    })
                }),
    {
        self.with_handler(CallbackKind::Passphrase, provider, f)
    }

    /// Runs `f` with `handler` installed to receive progress notices, and
    /// puts back what was installed before.
    pub fn with_progress_handler<R, F: FnOnce(&mut Context) -> R>(
        &mut self,
        handler: Registration,
        f: F,
    ) -> (r: R)
        requires
            forall|session: &mut Context|
                *session == (Context {
                    callbacks: CallbackSlots { progress: handler, ..old(self).callbacks },
                    ..*old(self)
                }) ==> call_requires(f, (session,)),
        ensures
            final(self).callbacks.progress == old(self).callbacks.progress,
            exists|session: &mut Context|
                ({
                    &&& #[trigger] call_ensures(f, (session,), r)
                    &&& *session == (Context {
                        callbacks: CallbackSlots { progress: handler, ..old(self).callbacks },
                        ..*old(self)
                    })
                    &&& *final(self) == (Context {
                        callbacks: CallbackSlots {
                            progress: old(self).callbacks.progress,
                            ..(*final(session)).callbacks
                        },
                        ..*final(session)
                    })
                }),
    {
        self.with_handler(CallbackKind::Progress, handler, f)
    }

    /// Runs `f` with `handler` installed to receive status lines, and puts
    /// back what was installed before.
    pub fn with_status_handler<R, F: FnOnce(&mut Context) -> R>(
        &mut self,
        handler: Registration,
        f: F,
    ) -> (r: R)
        requires
            forall|session: &mut Context|
                *session == (Context {
                    callbacks: CallbackSlots { status: handler, ..old(self).callbacks },
                    ..*old(self)
                }) ==> call_requires(f, (session,)),
        ensures
            final(self).callbacks.status == old(self).callbacks.status,
            exists|session: &mut Context|
                ({
                    &&& #[trigger] call_ensures(f, (session,), r)
                    &&& *session == (Context {
                        callbacks: CallbackSlots { status: handler, ..old(self).callbacks },
                        ..*old(self)
                    })
                    &&& *final(self) == (Context {
                        callbacks: CallbackSlots {
                            status: old(self).callbacks.status,
                            ..(*final(session)).callbacks
                        },
                        ..*final(session)
                    })
                }),
    {
        self.with_handler(CallbackKind::Status, handler, f)
    }
}

} // verus!
