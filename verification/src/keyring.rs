//! Operations of a session on keys: listing, looking up, making, changing,
//! deleting, importing and exporting them.

use crate::callbacks::HandlerCell;
use crate::callbacks::Registration;
use crate::context::expiry;
use crate::context::expiry_of;
use crate::context::lists;
use crate::context::some_unless_empty;
use crate::context::Context;
use crate::context::Operation;
use crate::cursor::Keys;
use crate::edit::starts;
use crate::edit::Editor;
use crate::edit::EditorWrapper;
use crate::engine::handles_of;
use crate::engine::key_handles;
use crate::engine::Data;
use crate::engine::EngineCall;
use crate::engine::Extract;
use crate::engine::Key;
use crate::engine::ResultKind;
use crate::engine::Timestamp;
use crate::error::Error;
use crate::error::CODE_AMBIGUOUS_NAME;
use crate::error::CODE_NOT_SUPPORTED;
use crate::flags::CreateKeyFlags;
use crate::flags::DeleteKeyFlags;
use crate::flags::ExportMode;
use crate::flags::KeyListMode;
use crate::flags::KeySigningFlags;
use crate::flags::EXPORT_EXTERN;
use crate::flags::INTERACT_CARD;
use crate::flags::KEY_LIST_ALL;
use crate::flags::KEY_SIGN_LFSEP;
use crate::tofu::TofuPolicy;
use vstd::prelude::*;
use vstd::slice::slice_to_vec;

verus! {

/// The byte that separates user ids that are handed over as one text.
pub const ID_SEPARATOR: u8 = 10;

/// Several user ids as one text: the ids in their order, with a line feed
/// between each two.
pub open spec fn joined(ids: Seq<Vec<u8>>) -> Seq<u8>
    decreases ids.len(),
{
    if ids.len() == 0 {
        Seq::empty()
    } else if ids.len() == 1 {
        ids[0]@
    } else {
        joined(ids.drop_last()).push(ID_SEPARATOR) + ids.last()@
    }
}

/// Whether `ids` and `flags` are what the engine is given to sign the user
/// ids `userids` of a key under the flags `given`: nothing for no user id,
/// which stands for all of them; the one user id as it is; and several as
/// one text, marked as such by one more flag.
pub open spec fn signs_ids(ids: Option<Vec<u8>>, flags: u32, userids: Seq<Vec<u8>>, given: u32)
    -> bool {
    if userids.len() == 0 {
        ids is None && flags == given
    } else if userids.len() == 1 {
        ids matches Some(text) && text@ == userids[0]@ && flags == given
    } else {
        ids matches Some(text) && text@ == joined(userids) && flags == KEY_SIGN_LFSEP | given
    }
}

/// Several user ids as one text.
pub fn join_ids(ids: &Vec<Vec<u8>>) -> (text: Vec<u8>)
    ensures
        text@ == joined(ids@),
{
    let mut text: Vec<u8> = Vec::new();
    let mut i: usize = 0;
    while i < ids.len()
        invariant
            i <= ids.len(),
            text@ == joined(ids@.subrange(0, i as int)),
        decreases ids.len() - i,
    {
        let ghost before = ids@.subrange(0, i as int);
        let ghost now = ids@.subrange(0, i + 1);
        proof {
            assert(now.drop_last() =~= before);
            assert(now.last() == ids@[i as int]);
        }
        if i > 0 {
            text.push(ID_SEPARATOR);
        } else {
            assert(text@ =~= Seq::<u8>::empty());
        }
        text.extend_from_slice(ids[i].as_slice());
        proof {
            if i == 0 {
                assert(text@ =~= ids@[0]@);
                assert(now[0] == ids@[0]);
            }
        }
        i += 1;
    }
    assert(ids@.subrange(0, ids.len() as int) =~= ids@);
    text
}

/// A step in bringing a key up to date.
#[derive(Debug, PartialEq, Eq)]
pub enum Refresh {
    /// The engine is to be asked for the key among the secret keys, and
    /// its answer is to be brought back.
    Secret(Operation),
    /// The engine is to be asked for the key among the public keys, and
    /// the outcome of that is the outcome.
    Public(Operation),
    /// The key that the engine gave last is the key.
    Done,
}

/// Whether `op` looks up the key with the fingerprint `fpr`, among the
/// secret keys where `secret` is one, and reads no result.
pub open spec fn asks_for(op: Operation, fpr: Seq<u8>, secret: libc::c_int) -> bool {
    op.results == Extract::Nothing && looks_up(op.call, fpr, secret)
}

/// Whether `call` looks up the key with the fingerprint `fpr`, among the
/// secret keys where `secret` is one.
pub open spec fn looks_up(call: EngineCall, fpr: Seq<u8>, secret: libc::c_int) -> bool {
    call matches EngineCall::GetKey { fingerprint: asked, secret: among } && asked@ == fpr && among
        == secret
}

/// Whether `op` signs the user ids `userids` of the key `key` under the
/// flags `given`, with the signature to expire at `until`, and reads no
/// result.
pub open spec fn signs_key(
    op: Operation,
    key: usize,
    userids: Seq<Vec<u8>>,
    until: libc::c_ulong,
    given: u32,
) -> bool {
    op.call matches EngineCall::KeySign { key: signed, userids: ids, expires, flags } && signed
        == key && expires == until && signs_ids(ids, flags, userids, given) && op.results
        == Extract::Nothing
}

impl Context {
    /// The call that starts a list of the trust items that match `pattern`
    /// down to the level `max_level`.
    pub fn find_trust_items(&self, pattern: Vec<u8>, max_level: i32) -> (op: Operation)
        ensures
            op == (Operation {
                call: EngineCall::TrustListStart { pattern, max_level },
                results: Extract::Nothing,
            }),
    {
        Operation {
            call: EngineCall::TrustListStart { pattern, max_level },
            results: Extract::Nothing,
        }
    }

    /// The key list mode of the session, from the engine's number for it:
    /// those of its bits that a key list mode can hold.
    pub fn key_list_mode(&self, raw: u32) -> (m: KeyListMode)
        ensures
            m.0 == raw & KEY_LIST_ALL,
    {
        KeyListMode::from_bits_truncate(raw)
    }

    /// The call that adds the bits of `mask` to the key list mode, which is
    /// `current` by the engine's number for it.
    pub fn add_key_list_mode(&self, mask: KeyListMode, current: u32) -> (op: Operation)
        ensures
            op == (Operation {
                call: EngineCall::SetKeyListMode { mode: mask.0 | current },
                results: Extract::Nothing,
            }),
    {
        Operation {
            call: EngineCall::SetKeyListMode { mode: mask.bits() | current },
            results: Extract::Nothing,
        }
    }

    /// The call that sets the key list mode.
    pub fn set_key_list_mode(&self, mode: KeyListMode) -> (op: Operation)
        ensures
            op == (Operation {
                call: EngineCall::SetKeyListMode { mode: mode.0 },
                results: Extract::Nothing,
            }),
    {
        Operation { call: EngineCall::SetKeyListMode { mode: mode.bits() }, results: Extract::Nothing }
    }

    /// The call that starts a list of keys that match one of `patterns`, or
    /// of all keys where there is no pattern; of secret keys only where
    /// `secret_only` is set.
    fn search_keys(&self, patterns: Vec<Vec<u8>>, secret_only: bool) -> (op: Operation)
        ensures
            op.results == Extract::Nothing,
            op.call matches EngineCall::KeyListStart { patterns: list, secret_only: secret, reserved }
                && reserved == 0 && secret == crate::context::switch_of(secret_only) && (
            patterns@.len() == 0 ==> list is None) && (patterns@.len() > 0 ==> list == Some(
                patterns,
            )),
    {
        Operation {
            call: EngineCall::KeyListStart {
                patterns: some_unless_empty(patterns),
                secret_only: if secret_only {
                    1
                } else {
                    0
                },
                reserved: 0,
            },
            results: Extract::Nothing,
        }
    }

    /// The call that starts a list of all public keys.
    pub fn keys(&self) -> (op: Operation)
        ensures
            op == (Operation {
                call: EngineCall::KeyListStart { patterns: None, secret_only: 0, reserved: 0 },
                results: Extract::Nothing,
            }),
    {
        self.search_keys(Vec::new(), false)
    }

    /// The call that starts a list of all secret keys.
    pub fn secret_keys(&self) -> (op: Operation)
        ensures
            op == (Operation {
                call: EngineCall::KeyListStart { patterns: None, secret_only: 1, reserved: 0 },
                results: Extract::Nothing,
            }),
    {
        self.search_keys(Vec::new(), true)
    }

    /// The call that starts a list of the public keys that match one of
    /// `patterns`, or of all of them where there is no pattern.
    pub fn find_keys(&self, patterns: Vec<Vec<u8>>) -> (op: Operation)
        ensures
            op.results == Extract::Nothing,
            op.call matches EngineCall::KeyListStart { patterns: list, secret_only: secret, reserved }
                && reserved == 0 && secret == 0 && (patterns@.len() == 0 ==> list is None) && (
            patterns@.len() > 0 ==> list == Some(patterns)),
    {
        self.search_keys(patterns, false)
    }

    /// The call that starts a list of the secret keys that match one of
    /// `patterns`, or of all of them where there is no pattern.
    pub fn find_secret_keys(&self, patterns: Vec<Vec<u8>>) -> (op: Operation)
        ensures
            op.results == Extract::Nothing,
            op.call matches EngineCall::KeyListStart { patterns: list, secret_only: secret, reserved }
                && reserved == 0 && secret == 1 && (patterns@.len() == 0 ==> list is None) && (
            patterns@.len() > 0 ==> list == Some(patterns)),
    {
        self.search_keys(patterns, true)
    }

    /// The call that starts a list of the keys held in `src`.
    pub fn read_keys(&self, src: &Data) -> (call: EngineCall)
        ensures
            call == (EngineCall::KeyListFromData { data: src.0, reserved: 0 }),
    {
        Keys::from_data(src)
    }

    /// The call that looks up the public key with the fingerprint `fpr`.
    pub fn get_key(&self, fpr: Vec<u8>) -> (op: Operation)
        ensures
            op == (Operation {
                call: EngineCall::GetKey { fingerprint: fpr, secret: 0 },
                results: Extract::Nothing,
            }),
    {
        Operation { call: EngineCall::GetKey { fingerprint: fpr, secret: 0 }, results: Extract::Nothing }
    }

    /// The call that looks up the secret key with the fingerprint `fpr`.
    pub fn get_secret_key(&self, fpr: Vec<u8>) -> (op: Operation)
        ensures
            op == (Operation {
                call: EngineCall::GetKey { fingerprint: fpr, secret: 1 },
                results: Extract::Nothing,
            }),
    {
        Operation { call: EngineCall::GetKey { fingerprint: fpr, secret: 1 }, results: Extract::Nothing }
    }

    /// The call that looks up the public key with the fingerprint `fpr`.
    pub fn find_key(&self, fpr: Vec<u8>) -> (op: Operation)
        ensures
            op == (Operation {
                call: EngineCall::GetKey { fingerprint: fpr, secret: 0 },
                results: Extract::Nothing,
            }),
    {
        self.get_key(fpr)
    }

    /// The call that looks up the secret key with the fingerprint `fpr`.
    pub fn find_secret_key(&self, fpr: Vec<u8>) -> (op: Operation)
        ensures
            op == (Operation {
                call: EngineCall::GetKey { fingerprint: fpr, secret: 1 },
                results: Extract::Nothing,
            }),
    {
        self.get_secret_key(fpr)
    }

    /// The next step in bringing `key` up to date. A key without a
    /// fingerprint cannot be looked up. A key with a secret part is looked
    /// up among the secret keys first: `secret_answer` is the engine's
    /// answer to that lookup once it was made. Where it is zero, the key
    /// that came with it is the key. In every other case the key is looked
    /// up among the public keys, and the outcome of that lookup is the
    /// outcome.
    pub fn refresh_key(&self, key: &Key, secret_answer: Option<u32>) -> (r: Result<Refresh, Error>)
        ensures
            key.fingerprint is None ==> r == Err::<Refresh, Error>(Error(CODE_AMBIGUOUS_NAME)),
            key.fingerprint matches Some(fpr) ==> (r matches Ok(step) && (if key.secret
                && secret_answer is None {
                step matches Refresh::Secret(op) && asks_for(op, fpr@, 1)
            } else if key.secret && secret_answer == Some(0u32) {
                step is Done
            } else {
                step matches Refresh::Public(op) && asks_for(op, fpr@, 0)
            })),
    {
        let fpr = match key.fingerprint_raw() {
            None => {
                return Err(Error::ambiguous_name());
            },
            Some(fpr) => slice_to_vec(fpr.as_slice()),
        };
        if key.has_secret() {
            match secret_answer {
                None => {
                    return Ok(Refresh::Secret(self.get_secret_key(fpr)));
                },
                Some(answer) => {
                    if answer == 0 {
                        return Ok(Refresh::Done);
                    }
                },
            }
        }
        Ok(Refresh::Public(self.get_key(fpr)))
    }

    /// The call that makes a key from the parameter text `params`, and
    /// writes its public and secret parts to the streams that are given.
    pub fn generate_key(&self, params: Vec<u8>, public: Option<&Data>, secret: Option<&Data>) -> (op:
        Operation)
        ensures
            op.results == Extract::One(ResultKind::KeyGeneration),
            op.call matches EngineCall::GenKey { params: text, public: to_public, secret: to_secret }
                && text == params && (public matches Some(data) ==> to_public == Some(data.0)) && (
            public is None ==> to_public is None) && (secret matches Some(data) ==> to_secret
                == Some(data.0)) && (secret is None ==> to_secret is None),
    {
        let public = match public {
            Some(data) => Some(data.as_raw()),
            None => None,
        };
        let secret = match secret {
            Some(data) => Some(data.as_raw()),
            None => None,
        };
        Operation {
            call: EngineCall::GenKey { params, public, secret },
            results: Extract::One(ResultKind::KeyGeneration),
        }
    }

    /// The call that makes a key for `userid`, without flags.
    pub fn create_key(&self, userid: Vec<u8>, algo: Vec<u8>, expires: Option<Timestamp>) -> (r:
        Result<Operation, Error>)
        ensures
            !self.offers(1, 7) ==> r == Err::<Operation, Error>(Error(CODE_NOT_SUPPORTED)),
            self.offers(1, 7) ==> r == Ok::<Operation, Error>(
                Operation {
                    call: EngineCall::CreateKey {
                        userid,
                        algo,
                        reserved: 0,
                        expires: expiry_of(expires),
                        flags: 0,
                    },
                    results: Extract::One(ResultKind::KeyGeneration),
                },
            ),
    {
        self.create_key_with_flags(userid, algo, expires, CreateKeyFlags::empty())
    }

    /// The call that makes a key for `userid` with the algorithm `algo`,
    /// to expire at `expires` or never. An engine older than 1.7 does not
    /// offer it.
    pub fn create_key_with_flags(
        &self,
        userid: Vec<u8>,
        algo: Vec<u8>,
        expires: Option<Timestamp>,
        flags: CreateKeyFlags,
    ) -> (r: Result<Operation, Error>)
        ensures
            !self.offers(1, 7) ==> r == Err::<Operation, Error>(Error(CODE_NOT_SUPPORTED)),
            self.offers(1, 7) ==> r == Ok::<Operation, Error>(
                Operation {
                    call: EngineCall::CreateKey {
                        userid,
                        algo,
                        reserved: 0,
                        expires: expiry_of(expires),
                        flags: flags.0,
                    },
                    results: Extract::One(ResultKind::KeyGeneration),
                },
            ),
    {
        if !self.supports(1, 7) {
            return Err(Error::not_supported());
        }
        Ok(
            Operation {
                call: EngineCall::CreateKey {
                    userid,
                    algo,
                    reserved: 0,
                    expires: expiry(expires),
                    flags: flags.bits(),
                },
                results: Extract::One(ResultKind::KeyGeneration),
            },
        )
    }

    /// The call that adds a subkey to `key`, without flags.
    pub fn create_subkey(&self, key: &Key, algo: Vec<u8>, expires: Option<Timestamp>) -> (r: Result<
        Operation,
        Error,
    >)
        ensures
            !self.offers(1, 7) ==> r == Err::<Operation, Error>(Error(CODE_NOT_SUPPORTED)),
            self.offers(1, 7) ==> r == Ok::<Operation, Error>(
                Operation {
                    call: EngineCall::CreateSubkey {
                        key: key.raw,
                        algo,
                        reserved: 0,
                        expires: expiry_of(expires),
                        flags: 0,
                    },
                    results: Extract::One(ResultKind::KeyGeneration),
                },
            ),
    {
        self.create_subkey_with_flags(key, algo, expires, CreateKeyFlags::empty())
    }

    /// The call that adds a subkey with the algorithm `algo` to `key`, to
    /// expire at `expires` or never. An engine older than 1.7 does not
    /// offer it.
    pub fn create_subkey_with_flags(
        &self,
        key: &Key,
        algo: Vec<u8>,
        expires: Option<Timestamp>,
        flags: CreateKeyFlags,
    ) -> (r: Result<Operation, Error>)
        ensures
            !self.offers(1, 7) ==> r == Err::<Operation, Error>(Error(CODE_NOT_SUPPORTED)),
            self.offers(1, 7) ==> r == Ok::<Operation, Error>(
                Operation {
                    call: EngineCall::CreateSubkey {
                        key: key.raw,
                        algo,
                        reserved: 0,
                        expires: expiry_of(expires),
                        flags: flags.0,
                    },
                    results: Extract::One(ResultKind::KeyGeneration),
                },
            ),
    {
        if !self.supports(1, 7) {
            return Err(Error::not_supported());
        }
        Ok(
            Operation {
                call: EngineCall::CreateSubkey {
                    key: key.as_raw(),
                    algo,
                    reserved: 0,
                    expires: expiry(expires),
                    flags: flags.bits(),
                },
                results: Extract::One(ResultKind::KeyGeneration),
            },
        )
    }

    /// The call that adds the user id `userid` to `key`. An engine older
    /// than 1.7 does not offer it.
    pub fn add_uid(&self, key: &Key, userid: Vec<u8>) -> (r: Result<Operation, Error>)
        ensures
            !self.offers(1, 7) ==> r == Err::<Operation, Error>(Error(CODE_NOT_SUPPORTED)),
            self.offers(1, 7) ==> r == Ok::<Operation, Error>(
                Operation {
                    call: EngineCall::AddUid { key: key.raw, userid, reserved: 0 },
                    results: Extract::Nothing,
                },
            ),
    {
        if !self.supports(1, 7) {
            return Err(Error::not_supported());
        }
        Ok(
            Operation {
                call: EngineCall::AddUid { key: key.as_raw(), userid, reserved: 0 },
                results: Extract::Nothing,
            },
        )
    }

    /// The call that revokes the user id `userid` of `key`. An engine older
    /// than 1.7 does not offer it.
    pub fn revoke_uid(&self, key: &Key, userid: Vec<u8>) -> (r: Result<Operation, Error>)
        ensures
            !self.offers(1, 7) ==> r == Err::<Operation, Error>(Error(CODE_NOT_SUPPORTED)),
            self.offers(1, 7) ==> r == Ok::<Operation, Error>(
                Operation {
                    call: EngineCall::RevokeUid { key: key.raw, userid, reserved: 0 },
                    results: Extract::Nothing,
                },
            ),
    {
        if !self.supports(1, 7) {
            return Err(Error::not_supported());
        }
        Ok(
            Operation {
                call: EngineCall::RevokeUid { key: key.as_raw(), userid, reserved: 0 },
                results: Extract::Nothing,
            },
        )
    }

    /// The call that sets the flag `name` of the user id `userid` of `key`
    /// to `value`, or to the engine's choice where no value is given.
    pub fn set_uid_flag(&self, key: &Key, userid: Vec<u8>, name: Vec<u8>, value: Option<Vec<u8>>)
        -> (op: Operation)
        ensures
            op == (Operation {
                call: EngineCall::SetUidFlag { key: key.raw, userid, name, value },
                results: Extract::Nothing,
            }),
    {
        Operation {
            call: EngineCall::SetUidFlag { key: key.as_raw(), userid, name, value },
            results: Extract::Nothing,
        }
    }

    /// The call that signs the user ids `userids` of `key`, or all of them
    /// where none is given, without flags.
    pub fn sign_key(&self, key: &Key, userids: &Vec<Vec<u8>>, expires: Option<Timestamp>) -> (r:
        Result<Operation, Error>)
        ensures
            !self.offers(1, 7) ==> r == Err::<Operation, Error>(Error(CODE_NOT_SUPPORTED)),
            self.offers(1, 7) ==> (r matches Ok(op) && signs_key(
                op,
                key.raw,
                userids@,
                expiry_of(expires),
                0,
            )),
    {
        self.sign_key_with_flags(key, userids, expires, KeySigningFlags::empty())
    }

    /// The call that signs the user ids `userids` of `key`, or all of them
    /// where none is given, with the signature to expire at `expires` or
    /// never. Several user ids are handed over as one text, one to a line.
    /// An engine older than 1.7 does not offer it.
    pub fn sign_key_with_flags(
        &self,
        key: &Key,
        userids: &Vec<Vec<u8>>,
        expires: Option<Timestamp>,
        flags: KeySigningFlags,
    ) -> (r: Result<Operation, Error>)
        ensures
            !self.offers(1, 7) ==> r == Err::<Operation, Error>(Error(CODE_NOT_SUPPORTED)),
            self.offers(1, 7) ==> (r matches Ok(op) && signs_key(
                op,
                key.raw,
                userids@,
                expiry_of(expires),
                flags.0,
            )),
    {
        if !self.supports(1, 7) {
            return Err(Error::not_supported());
        }
        let (ids, flags) = if userids.len() == 0 {
            (None, flags)
        } else if userids.len() == 1 {
            (Some(slice_to_vec(userids[0].as_slice())), flags)
        } else {
            (Some(join_ids(userids)), KeySigningFlags(KEY_SIGN_LFSEP).union(flags))
        };
        Ok(
            Operation {
                call: EngineCall::KeySign {
                    key: key.as_raw(),
                    userids: ids,
                    expires: expiry(expires),
                    flags: flags.bits(),
                },
                results: Extract::Nothing,
            },
        )
    }

    /// The call that sets the policy for `key`. An engine older than 1.7
    /// does not offer it.
    pub fn change_key_tofu_policy(&self, key: &Key, policy: TofuPolicy) -> (r: Result<
        Operation,
        Error,
    >)
        ensures
            !self.offers(1, 7) ==> r == Err::<Operation, Error>(Error(CODE_NOT_SUPPORTED)),
            self.offers(1, 7) ==> r == Ok::<Operation, Error>(
                Operation {
                    call: EngineCall::TofuPolicy { key: key.raw, policy: policy.number() },
                    results: Extract::Nothing,
                },
            ),
    {
        if !self.supports(1, 7) {
            return Err(Error::not_supported());
        }
        Ok(
            Operation {
                call: EngineCall::TofuPolicy { key: key.as_raw(), policy: policy.raw() },
                results: Extract::Nothing,
            },
        )
    }

    /// The call that changes the passphrase of `key`.
    pub fn change_key_passphrase(&self, key: &Key) -> (op: Operation)
        ensures
            op == (Operation {
                call: EngineCall::Passwd { key: key.raw, flags: 0 },
                results: Extract::Nothing,
            }),
    {
        Operation {
            call: EngineCall::Passwd { key: key.as_raw(), flags: 0 },
            results: Extract::Nothing,
        }
    }

    /// The call that opens an editing dialogue on `key`, with its turns
    /// going to `handler` and the engine's output to `data`.
    pub fn edit_key(&self, key: &Key, handler: Registration, data: &Data) -> (op: Operation)
        ensures
            op == (Operation {
                call: EngineCall::Edit {
                    key: key.raw,
                    card: false,
                    entry: handler.entry,
                    hook: handler.hook,
                    response: data.0,
                },
                results: Extract::Nothing,
            }),
    {
        Operation {
            call: EngineCall::Edit {
                key: key.as_raw(),
                card: false,
                entry: handler.entry,
                hook: handler.hook,
                response: data.as_raw(),
            },
            results: Extract::Nothing,
        }
    }

    /// The call that opens an editing dialogue on the card that holds
    /// `key`, with its turns going to `handler` and the engine's output to
    /// `data`.
    pub fn edit_card_key(&self, key: &Key, handler: Registration, data: &Data) -> (op: Operation)
        ensures
            op == (Operation {
                call: EngineCall::Edit {
                    key: key.raw,
                    card: true,
                    entry: handler.entry,
                    hook: handler.hook,
                    response: data.0,
                },
                results: Extract::Nothing,
            }),
    {
        Operation {
            call: EngineCall::Edit {
                key: key.as_raw(),
                card: true,
                entry: handler.entry,
                hook: handler.hook,
                response: data.as_raw(),
            },
            results: Extract::Nothing,
        }
    }

    /// The handler that drives `editor` through an editing dialogue, ready
    /// to be installed: its machine stands at the start, and no failure is
    /// kept for it.
    pub fn edit_key_with<E: Editor>(&self, editor: E) -> (cell: HandlerCell<EditorWrapper<E>>)
        ensures
            cell.failure is None,
            cell.handler matches Some(driver) && driver.editor == editor && starts::<E>(
                driver.state,
            ),
    {
        HandlerCell::new(EditorWrapper::new(editor))
    }

    /// The handler that drives `editor` through an editing dialogue on a
    /// card, ready to be installed: its machine stands at the start, and no
    /// failure is kept for it.
    pub fn edit_card_key_with<E: Editor>(&self, editor: E) -> (cell: HandlerCell<EditorWrapper<E>>)
        ensures
            cell.failure is None,
            cell.handler matches Some(driver) && driver.editor == editor && starts::<E>(
                driver.state,
            ),
    {
        HandlerCell::new(EditorWrapper::new(editor))
    }

    /// The call that opens a dialogue on `key`, with its turns going to
    /// `handler` and the engine's output to `data`.
    pub fn interact(&self, key: &Key, handler: Registration, data: &Data) -> (op: Operation)
        ensures
            op == (Operation {
                call: EngineCall::Interact {
                    key: key.raw,
                    flags: 0,
                    entry: handler.entry,
                    hook: handler.hook,
                    response: data.0,
                },
                results: Extract::Nothing,
            }),
    {
        Operation {
            call: EngineCall::Interact {
                key: key.as_raw(),
                flags: 0,
                entry: handler.entry,
                hook: handler.hook,
                response: data.as_raw(),
            },
            results: Extract::Nothing,
        }
    }

    /// The call that opens a dialogue on the card that holds `key`, with
    /// its turns going to `handler` and the engine's output to `data`.
    pub fn interact_with_card(&self, key: &Key, handler: Registration, data: &Data) -> (op:
        Operation)
        ensures
            op == (Operation {
                call: EngineCall::Interact {
                    key: key.raw,
                    flags: INTERACT_CARD,
                    entry: handler.entry,
                    hook: handler.hook,
                    response: data.0,
                },
                results: Extract::Nothing,
            }),
    {
        Operation {
            call: EngineCall::Interact {
                key: key.as_raw(),
                flags: INTERACT_CARD,
                entry: handler.entry,
                hook: handler.hook,
                response: data.as_raw(),
            },
            results: Extract::Nothing,
        }
    }

    /// The call that deletes the public part of `key`.
    pub fn delete_key(&self, key: &Key) -> (op: Operation)
        ensures
            op == (Operation {
                call: EngineCall::Delete { key: key.raw, allow_secret: 0 },
                results: Extract::Nothing,
            }),
    {
        Operation {
            call: EngineCall::Delete { key: key.as_raw(), allow_secret: 0 },
            results: Extract::Nothing,
        }
    }

    /// The call that deletes `key` with its secret part.
    pub fn delete_secret_key(&self, key: &Key) -> (op: Operation)
        ensures
            op == (Operation {
                call: EngineCall::Delete { key: key.raw, allow_secret: 1 },
                results: Extract::Nothing,
            }),
    {
        Operation {
            call: EngineCall::Delete { key: key.as_raw(), allow_secret: 1 },
            results: Extract::Nothing,
        }
    }

    /// The call that deletes `key` as `flags` say.
    pub fn delete_key_with_flags(&self, key: &Key, flags: DeleteKeyFlags) -> (op: Operation)
        ensures
            op == (Operation {
                call: EngineCall::DeleteExt { key: key.raw, flags: flags.0 },
                results: Extract::Nothing,
            }),
    {
        Operation {
            call: EngineCall::DeleteExt { key: key.as_raw(), flags: flags.bits() },
            results: Extract::Nothing,
        }
    }

    /// The call that imports the keys held in `src`.
    pub fn import(&self, src: &Data) -> (op: Operation)
        ensures
            op == (Operation {
                call: EngineCall::Import { data: src.0 },
                results: Extract::One(ResultKind::Import),
            }),
    {
        Operation {
            call: EngineCall::Import { data: src.as_raw() },
            results: Extract::One(ResultKind::Import),
        }
    }

    /// The call that imports `keys`.
    pub fn import_keys(&self, keys: &Vec<Key>) -> (op: Operation)
        ensures
            op.results == Extract::One(ResultKind::Import),
            op.call matches EngineCall::ImportKeys { keys: list } && lists(list, handles_of(keys@)),
    {
        Operation {
            call: EngineCall::ImportKeys { keys: some_unless_empty(key_handles(keys)) },
            results: Extract::One(ResultKind::Import),
        }
    }

    /// The call that exports the keys that match one of `patterns`, or all
    /// keys where there is no pattern, to `dst`, or to the source outside
    /// where there is no stream.
    fn export_(&self, patterns: Vec<Vec<u8>>, mode: ExportMode, dst: Option<&Data>) -> (op:
        Operation)
        ensures
            op.results == Extract::Nothing,
            op.call matches EngineCall::Export { patterns: list, mode: bits, data } && bits
                == mode.0 && (patterns@.len() == 0 ==> list is None) && (patterns@.len() > 0
                ==> list == Some(patterns)) && (dst matches Some(stream) ==> data == Some(
                stream.0,
            )) && (dst is None ==> data is None),
    {
        let data = match dst {
            Some(stream) => Some(stream.as_raw()),
            None => None,
        };
        Operation {
            call: EngineCall::Export {
                patterns: some_unless_empty(patterns),
                mode: mode.bits(),
                data,
            },
            results: Extract::Nothing,
        }
    }

    /// The call that sends all keys to the source outside.
    pub fn export_all_extern(&self, mode: ExportMode) -> (op: Operation)
        ensures
            op == (Operation {
                call: EngineCall::Export { patterns: None, mode: mode.0 | EXPORT_EXTERN, data: None },
                results: Extract::Nothing,
            }),
    {
        self.export_(Vec::new(), mode.union(ExportMode(EXPORT_EXTERN)), None)
    }

    /// The call that sends the keys that match one of `patterns` to the
    /// source outside.
    pub fn export_extern(&self, patterns: Vec<Vec<u8>>, mode: ExportMode) -> (op: Operation)
        ensures
            op.results == Extract::Nothing,
            op.call matches EngineCall::Export { patterns: list, mode: bits, data } && bits
                == mode.0 | EXPORT_EXTERN && data is None && (patterns@.len() == 0 ==> list
                is None) && (patterns@.len() > 0 ==> list == Some(patterns)),
    {
        self.export_(patterns, mode.union(ExportMode(EXPORT_EXTERN)), None)
    }

    /// The call that writes all keys to `dst`.
    pub fn export_all(&self, mode: ExportMode, dst: &Data) -> (op: Operation)
        ensures
            op == (Operation {
                call: EngineCall::Export { patterns: None, mode: mode.0, data: Some(dst.0) },
                results: Extract::Nothing,
            }),
    {
        self.export_(Vec::new(), mode, Some(dst))
    }

    /// The call that writes the keys that match one of `patterns` to
    /// `dst`.
    pub fn export(&self, patterns: Vec<Vec<u8>>, mode: ExportMode, dst: &Data) -> (op: Operation)
        ensures
            op.results == Extract::Nothing,
            op.call matches EngineCall::Export { patterns: list, mode: bits, data } && bits
                == mode.0 && data == Some(dst.0) && (patterns@.len() == 0 ==> list is None) && (
            patterns@.len() > 0 ==> list == Some(patterns)),
    {
        self.export_(patterns, mode, Some(dst))
    }

    /// The call that exports `keys` to `dst`, or to the source outside
    /// where there is no stream.
    fn export_keys_(&self, keys: &Vec<Key>, mode: ExportMode, dst: Option<&Data>) -> (op: Operation)
        ensures
            op.results == Extract::Nothing,
            op.call matches EngineCall::ExportKeys { keys: list, mode: bits, data } && bits
                == mode.0 && lists(list, handles_of(keys@)) && (dst matches Some(stream) ==> data
                == Some(stream.0)) && (dst is None ==> data is None),
    {
        let data = match dst {
            Some(stream) => Some(stream.as_raw()),
            None => None,
        };
        Operation {
            call: EngineCall::ExportKeys {
                keys: some_unless_empty(key_handles(keys)),
                mode: mode.bits(),
                data,
            },
            results: Extract::Nothing,
        }
    }

    /// The call that sends `keys` to the source outside.
    pub fn export_keys_extern(&self, keys: &Vec<Key>, mode: ExportMode) -> (op: Operation)
        ensures
            op.results == Extract::Nothing,
            op.call matches EngineCall::ExportKeys { keys: list, mode: bits, data } && bits
                == mode.0 | EXPORT_EXTERN && data is None && lists(list, handles_of(keys@)),
    {
        self.export_keys_(keys, mode.union(ExportMode(EXPORT_EXTERN)), None)
    }

    /// The call that writes `keys` to `dst`.
    pub fn export_keys(&self, keys: &Vec<Key>, mode: ExportMode, dst: &Data) -> (op: Operation)
        ensures
            op.results == Extract::Nothing,
            op.call matches EngineCall::ExportKeys { keys: list, mode: bits, data } && bits
                == mode.0 && data == Some(dst.0) && lists(list, handles_of(keys@)),
    {
        self.export_keys_(keys, mode, Some(dst))
    }
}

} // verus!
