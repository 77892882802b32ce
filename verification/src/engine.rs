//! What passes between a session and the engine: the handles the engine
//! gives out, and the calls a session asks to have made.

use vstd::prelude::*;

verus! {

/// A key as a session knows it: the engine's handle, and what the session
/// reads of the key itself.
#[derive(Clone, Debug, PartialEq, Eq)]
pub struct Key {
    pub raw: usize,
    pub fingerprint: Option<Vec<u8>>,
    pub secret: bool,
}

impl Key {
    /// The engine's handle for the key.
    pub fn as_raw(&self) -> (raw: usize)
        ensures
            raw == self.raw,
    {
        self.raw
    }

    /// Whether the key has a secret part.
    pub fn has_secret(&self) -> (b: bool)
        ensures
            b == self.secret,
    {
        self.secret
    }

    /// The fingerprint of the key, if it has one.
    pub fn fingerprint_raw(&self) -> (r: Option<&Vec<u8>>)
        ensures
            r is Some == self.fingerprint is Some,
            r matches Some(text) ==> *text == self.fingerprint->Some_0,
    {
        match &self.fingerprint {
            None => None,
            Some(text) => Some(text),
        }
    }
}

/// A trust item, by the engine's handle.
#[derive(Clone, Copy, Debug, PartialEq, Eq, Structural)]
pub struct TrustItem(pub usize);

/// A byte stream, by the engine's handle.
#[derive(Clone, Copy, Debug, PartialEq, Eq, Structural)]
pub struct Data(pub usize);

impl Data {
    /// The engine's handle for the stream.
    pub fn as_raw(&self) -> (raw: usize)
        ensures
            raw == self.0,
    {
        self.0
    }
}

/// The handles of some keys, in order.
pub open spec fn handles_of(keys: Seq<Key>) -> Seq<usize> {
    keys.map_values(|key: Key| key.raw)
}

/// The handles of `keys`, in order.
pub fn key_handles(keys: &Vec<Key>) -> (raw: Vec<usize>)
    ensures
        raw@ == handles_of(keys@),
{
    let mut raw: Vec<usize> = Vec::new();
    let mut i: usize = 0;
    while i < keys.len()
        invariant
            i <= keys.len(),
            raw@ == handles_of(keys@.subrange(0, i as int)),
        decreases keys.len() - i,
    {
        raw.push(keys[i].raw);
        proof {
            assert(keys@.subrange(0, i + 1) =~= keys@.subrange(0, i as int).push(keys@[i as int]));
            assert(handles_of(keys@.subrange(0, i + 1)) =~= handles_of(
                keys@.subrange(0, i as int),
            ).push(keys@[i as int].raw));
        }
        i += 1;
    }
    assert(keys@.subrange(0, keys.len() as int) =~= keys@);
    raw
}

/// One call into the engine, with its arguments as the engine takes them.
#[derive(Debug, PartialEq, Eq)]
pub enum EngineCall {
    SetArmor { yes: libc::c_int },
    SetTextMode { yes: libc::c_int },
    SetOffline { yes: libc::c_int },
    SetCtxFlag { name: Vec<u8>, value: Vec<u8> },
    SetEngineInfo { proto: u32, path: Option<Vec<u8>>, home_dir: Option<Vec<u8>> },
    SetPinentryMode { mode: u32 },
    SetKeyListMode { mode: u32 },
    SetCallback { kind: crate::callbacks::CallbackKind, entry: Option<usize>, hook: usize },
    TrustListStart { pattern: Vec<u8>, max_level: libc::c_int },
    TrustListNext,
    TrustListEnd,
    GetKey { fingerprint: Vec<u8>, secret: libc::c_int },
    KeyListStart { patterns: Option<Vec<Vec<u8>>>, secret_only: libc::c_int, reserved: libc::c_int },
    KeyListFromData { data: usize, reserved: libc::c_int },
    KeyListNext,
    KeyListEnd,
    GenKey { params: Vec<u8>, public: Option<usize>, secret: Option<usize> },
    CreateKey {
        userid: Vec<u8>,
        algo: Vec<u8>,
        reserved: libc::c_ulong,
        expires: libc::c_ulong,
        flags: u32,
    },
    CreateSubkey {
        key: usize,
        algo: Vec<u8>,
        reserved: libc::c_ulong,
        expires: libc::c_ulong,
        flags: u32,
    },
    AddUid { key: usize, userid: Vec<u8>, reserved: u32 },
    RevokeUid { key: usize, userid: Vec<u8>, reserved: u32 },
    SetUidFlag { key: usize, userid: Vec<u8>, name: Vec<u8>, value: Option<Vec<u8>> },
    KeySign { key: usize, userids: Option<Vec<u8>>, expires: libc::c_ulong, flags: u32 },
    TofuPolicy { key: usize, policy: u32 },
    Passwd { key: usize, flags: u32 },
    Edit { key: usize, card: bool, entry: Option<usize>, hook: usize, response: usize },
    Interact { key: usize, flags: u32, entry: Option<usize>, hook: usize, response: usize },
    Delete { key: usize, allow_secret: libc::c_int },
    DeleteExt { key: usize, flags: u32 },
    Import { data: usize },
    ImportKeys { keys: Option<Vec<usize>> },
    Export { patterns: Option<Vec<Vec<u8>>>, mode: u32, data: Option<usize> },
    ExportKeys { keys: Option<Vec<usize>>, mode: u32, data: Option<usize> },
    SetSender { address: Option<Vec<u8>> },
    SignersClear,
    SignersAdd { key: usize },
    SignersEnum { index: libc::c_int },
    SignersCount,
    SigNotationClear,
    SigNotationAdd { name: Option<Vec<u8>>, value: Vec<u8>, flags: u32 },
    Sign { plain: usize, signature: usize, mode: u32 },
    Verify { signature: usize, signed_text: Option<usize>, plain: Option<usize> },
    Encrypt { recipients: Option<Vec<usize>>, flags: u32, plain: usize, cipher: usize },
    EncryptSign { recipients: Option<Vec<usize>>, flags: u32, plain: usize, cipher: usize },
    Decrypt { cipher: usize, plain: usize },
    DecryptExt { flags: u32, cipher: usize, plain: usize },
    DecryptVerify { cipher: usize, plain: usize },
    QuerySwdb { name: Option<Vec<u8>>, installed_version: Option<Vec<u8>>, reserved: u32 },
    GetAuditLog { output: usize, flags: u32 },
}

/// The results a session reads from the engine after a call has
/// succeeded.
#[derive(Clone, Copy, Debug, PartialEq, Eq, Structural)]
pub enum ResultKind {
    KeyList,
    KeyGeneration,
    Import,
    Signing,
    Verification,
    Encryption,
    Decryption,
    QuerySwdb,
}

/// A notation that the session adds to the signatures it makes. A notation
/// without a name is a policy address.
#[derive(Clone, Debug, PartialEq, Eq)]
pub struct SignatureNotation {
    pub name: Option<Vec<u8>>,
    pub value: Option<Vec<u8>>,
    pub flags: u32,
}

/// How many results are read after a call, and which, in the order in
/// which they are read.
#[derive(Clone, Copy, Debug, PartialEq, Eq, Structural)]
pub enum Extract {
    Nothing,
    One(ResultKind),
    Two(ResultKind, ResultKind),
}

/// A point in time, in whole seconds after the epoch.
#[derive(Clone, Copy, Debug, PartialEq, Eq, Structural)]
pub struct Timestamp(pub u64);

impl Timestamp {
    /// The time that lies `Ok(secs)` whole seconds after the epoch, or
    /// `Err(secs)` seconds before it. A time before the epoch is no time.
    pub fn since_epoch(offset: Result<u64, u64>) -> (t: Option<Timestamp>)
        ensures
            t == match offset {
                Ok(secs) => Some(Timestamp(secs)),
                Err(_) => None,
            },
    {
        match offset {
            Ok(secs) => Some(Timestamp(secs)),
            Err(_) => None,
        }
    }

    /// The whole seconds from the epoch to the time.
    pub fn secs(&self) -> (secs: u64)
        ensures
            secs == self.0,
    {
        self.0
    }
}

/// What the engine keeps of its backend for one protocol.
#[derive(Clone, Debug, PartialEq, Eq)]
pub struct EngineInfo {
    pub path: Option<Vec<u8>>,
    pub home_dir: Option<Vec<u8>>,
    pub version: Option<Version>,
}

impl EngineInfo {
    /// Whether the backend is known to be of version `major.minor` or
    /// later. A backend of unknown version is not.
    pub open spec fn reaches(self, major: u32, minor: u32) -> bool {
        self.version matches Some(version) && version.reaches(major, minor)
    }

    /// Whether the backend is known to be of version `major.minor` or
    /// later.
    pub fn check_version(&self, major: u32, minor: u32) -> (b: bool)
        ensures
            b == self.reaches(major, minor),
    {
        match self.version {
            Some(version) => version.at_least(major, minor),
            None => false,
        }
    }
}

/// A version of the engine, by its first two numbers.
#[derive(Clone, Copy, Debug, PartialEq, Eq, Structural)]
pub struct Version {
    pub major: u32,
    pub minor: u32,
}

/// Whether a byte is a decimal digit.
pub open spec fn is_digit(byte: u8) -> bool {
    48 <= byte <= 57
}

/// Where the run of digits that starts at `from` ends: the place of the
/// first byte at or after `from` that is no digit, or the end of the text.
pub open spec fn digits_end(text: Seq<u8>, from: int) -> int
    decreases text.len() - from,
{
    if 0 <= from < text.len() && is_digit(text[from]) {
        digits_end(text, from + 1)
    } else {
        from
    }
}

/// The number that the digits of `text` from `from` up to `to` write.
pub open spec fn decimal(text: Seq<u8>, from: int, to: int) -> nat
    decreases to - from,
{
    if to <= from {
        0
    } else {
        decimal(text, from, to - 1) * 10 + (text[to - 1] - 48) as nat
    }
}

/// The version that a text names: a number, a dot and a second number at
/// its start, each of at least one digit and no greater than a `u32`
/// holds. What follows the second number is not read.
pub open spec fn version_of(text: Seq<u8>) -> Option<Version> {
    let dot = digits_end(text, 0);
    let end = digits_end(text, dot + 1);
    if 0 < dot < text.len() && text[dot] == 46 && dot + 1 < end && decimal(text, 0, dot)
        <= u32::MAX && decimal(text, dot + 1, end) <= u32::MAX {
        Some(
            Version {
                major: decimal(text, 0, dot) as u32,
                minor: decimal(text, dot + 1, end) as u32,
            },
        )
    } else {
        None
    }
}

/// Reads the number that starts at `from`: where its digits end, and its
/// value where a `u32` holds it.
fn read_number(text: &[u8], from: usize) -> (r: (usize, Option<u32>))
    requires
        from <= text.len(),
    ensures
        r.0 == digits_end(text@, from as int),
        from <= r.0 <= text.len(),
        decimal(text@, from as int, r.0 as int) <= u32::MAX ==> r.1 == Some(
            decimal(text@, from as int, r.0 as int) as u32,
        ),
        decimal(text@, from as int, r.0 as int) > u32::MAX ==> r.1 is None,
{
    let mut at: usize = from;
    let mut value: Option<u32> = Some(0);
    while at < text.len() && 48 <= text[at] && text[at] <= 57
        invariant
            from <= at <= text.len(),
            digits_end(text@, from as int) == digits_end(text@, at as int),
            value matches Some(held) ==> held == decimal(text@, from as int, at as int),
            value is None ==> decimal(text@, from as int, at as int) > u32::MAX,
        decreases text.len() - at,
    {
        let digit: u32 = (text[at] - 48) as u32;
        value = match value {
            None => None,
            Some(held) => match held.checked_mul(10) {
                None => None,
                Some(tens) => tens.checked_add(digit),
            },
        };
        at += 1;
    }
    (at, value)
}

impl Version {
    /// The version that `text` names, if it names one.
    pub fn parse(text: &[u8]) -> (v: Option<Version>)
        ensures
            v == version_of(text@),
    {
        let (dot, major) = read_number(text, 0);
        if dot == 0 || dot >= text.len() || text[dot] != 46 {
            return None;
        }
        let (end, minor) = read_number(text, dot + 1);
        if end == dot + 1 {
            return None;
        }
        match (major, minor) {
            (Some(major), Some(minor)) => Some(Version { major, minor }),
            _ => None,
        }
    }

    /// The version of an engine that says what it is in `text`, or says
    /// nothing. An engine whose version cannot be told counts as older than
    /// any other, so that it is taken to offer nothing that came later.
    pub fn of_text(text: Option<&[u8]>) -> (v: Version)
        ensures
            v == match text {
                Some(said) => match version_of(said@) {
                    Some(told) => told,
                    None => (Version { major: 0, minor: 0 }),
                },
                None => (Version { major: 0, minor: 0 }),
            },
    {
        match text {
            Some(said) => match Version::parse(said) {
                Some(told) => told,
                None => Version { major: 0, minor: 0 },
            },
            None => Version { major: 0, minor: 0 },
        }
    }

    /// Whether the version is `major.minor` or later.
    pub open spec fn reaches(self, major: u32, minor: u32) -> bool {
        self.major > major || (self.major == major && self.minor >= minor)
    }

    /// Whether the version is `major.minor` or later.
    pub fn at_least(&self, major: u32, minor: u32) -> (b: bool)
        ensures
            b == self.reaches(major, minor),
    {
        self.major > major || (self.major == major && self.minor >= minor)
    }
}

} // verus!
