//! Protocols, modes and flag sets in the engine's numbering.

use vstd::prelude::*;

verus! {

/// The protocol a session speaks.
#[derive(Clone, Copy, Debug, PartialEq, Eq, Structural)]
pub enum Protocol {
    OpenPgp,
    Cms,
    GpgConf,
    Assuan,
    G13,
    UiServer,
    Spawn,
    Default,
    Unknown,
    Other(u32),
}

/// The protocol that a raw number names, for the numbers that name one.
pub open spec fn protocol_of(raw: u32) -> Protocol {
    if raw == 0 {
        Protocol::OpenPgp
    } else if raw == 1 {
        Protocol::Cms
    } else if raw == 2 {
        Protocol::GpgConf
    } else if raw == 3 {
        Protocol::Assuan
    } else if raw == 4 {
        Protocol::G13
    } else if raw == 5 {
        Protocol::UiServer
    } else if raw == 6 {
        Protocol::Spawn
    } else if raw == 254 {
        Protocol::Default
    } else if raw == 255 {
        Protocol::Unknown
    } else {
        Protocol::Other(raw)
    }
}

impl Protocol {
    /// The number the engine gives the protocol.
    pub open spec fn number(self) -> u32 {
        match self {
            Protocol::OpenPgp => 0,
            Protocol::Cms => 1,
            Protocol::GpgConf => 2,
            Protocol::Assuan => 3,
            Protocol::G13 => 4,
            Protocol::UiServer => 5,
            Protocol::Spawn => 6,
            Protocol::Default => 254,
            Protocol::Unknown => 255,
            Protocol::Other(raw) => raw,
        }
    }

    /// The protocol that `raw` names; a number without a name is kept as
    /// it is.
    pub fn from_raw(raw: u32) -> (p: Protocol)
        ensures
            p == protocol_of(raw),
            p.number() == raw,
    {
        if raw == 0 {
            Protocol::OpenPgp
        } else if raw == 1 {
            Protocol::Cms
        } else if raw == 2 {
            Protocol::GpgConf
        } else if raw == 3 {
            Protocol::Assuan
        } else if raw == 4 {
            Protocol::G13
        } else if raw == 5 {
            Protocol::UiServer
        } else if raw == 6 {
            Protocol::Spawn
        } else if raw == 254 {
            Protocol::Default
        } else if raw == 255 {
            Protocol::Unknown
        } else {
            Protocol::Other(raw)
        }
    }

    /// The number the engine gives the protocol.
    pub fn raw(&self) -> (raw: u32)
        ensures
            raw == self.number(),
    {
        match self {
            Protocol::OpenPgp => 0,
            Protocol::Cms => 1,
            Protocol::GpgConf => 2,
            Protocol::Assuan => 3,
            Protocol::G13 => 4,
            Protocol::UiServer => 5,
            Protocol::Spawn => 6,
            Protocol::Default => 254,
            Protocol::Unknown => 255,
            Protocol::Other(raw) => *raw,
        }
    }
}

/// How the engine asks for a passphrase.
#[derive(Clone, Copy, Debug, PartialEq, Eq, Structural)]
pub enum PinentryMode {
    Default,
    Ask,
    Cancel,
    Error,
    Loopback,
    Other(u32),
}

/// The pinentry mode that a raw number names.
pub open spec fn pinentry_mode_of(raw: u32) -> PinentryMode {
    if raw == 0 {
        PinentryMode::Default
    } else if raw == 1 {
        PinentryMode::Ask
    } else if raw == 2 {
        PinentryMode::Cancel
    } else if raw == 3 {
        PinentryMode::Error
    } else if raw == 4 {
        PinentryMode::Loopback
    } else {
        PinentryMode::Other(raw)
    }
}

impl PinentryMode {
    /// The number the engine gives the mode.
    pub open spec fn number(self) -> u32 {
        match self {
            PinentryMode::Default => 0,
            PinentryMode::Ask => 1,
            PinentryMode::Cancel => 2,
            PinentryMode::Error => 3,
            PinentryMode::Loopback => 4,
            PinentryMode::Other(raw) => raw,
        }
    }

    /// The mode that `raw` names; a number without a name is kept as it is.
    pub fn from_raw(raw: u32) -> (m: PinentryMode)
        ensures
            m == pinentry_mode_of(raw),
            m.number() == raw,
    {
        if raw == 0 {
            PinentryMode::Default
        } else if raw == 1 {
            PinentryMode::Ask
        } else if raw == 2 {
            PinentryMode::Cancel
        } else if raw == 3 {
            PinentryMode::Error
        } else if raw == 4 {
            PinentryMode::Loopback
        } else {
            PinentryMode::Other(raw)
        }
    }

    /// The number the engine gives the mode.
    pub fn raw(&self) -> (raw: u32)
        ensures
            raw == self.number(),
    {
        match self {
            PinentryMode::Default => 0,
            PinentryMode::Ask => 1,
            PinentryMode::Cancel => 2,
            PinentryMode::Error => 3,
            PinentryMode::Loopback => 4,
            PinentryMode::Other(raw) => *raw,
        }
    }
}

/// The form of a signature.
#[derive(Clone, Copy, Debug, PartialEq, Eq, Structural)]
pub enum SignMode {
    Normal,
    Detached,
    Clear,
    Other(u32),
}

impl SignMode {
    /// The number the engine gives the mode.
    pub open spec fn number(self) -> u32 {
        match self {
            SignMode::Normal => 0,
            SignMode::Detached => 1,
            SignMode::Clear => 2,
            SignMode::Other(raw) => raw,
        }
    }

    /// The number the engine gives the mode.
    pub fn raw(&self) -> (raw: u32)
        ensures
            raw == self.number(),
    {
        match self {
            SignMode::Normal => 0,
            SignMode::Detached => 1,
            SignMode::Clear => 2,
            SignMode::Other(raw) => *raw,
        }
    }
}

/// Bit of a key list mode: keys of the local key ring.
pub const KEY_LIST_LOCAL: u32 = 1;

/// Bit of a key list mode: keys of an external source.
pub const KEY_LIST_EXTERN: u32 = 2;

/// Bit of a key list mode: with key signatures.
pub const KEY_LIST_SIGS: u32 = 4;

/// Bit of a key list mode: with signature notations.
pub const KEY_LIST_SIG_NOTATIONS: u32 = 8;

/// Bit of a key list mode: with the secret parts, where there are any.
pub const KEY_LIST_WITH_SECRET: u32 = 16;

/// Bit of a key list mode: with trust records.
pub const KEY_LIST_WITH_TOFU: u32 = 32;

/// Bit of a key list mode: with keys marked ephemeral.
pub const KEY_LIST_EPHEMERAL: u32 = 128;

/// Bit of a key list mode: with validation.
pub const KEY_LIST_VALIDATE: u32 = 256;

/// Every bit that a key list mode can hold.
pub const KEY_LIST_ALL: u32 = 447;

/// Bit of an export mode: send to an external source.
pub const EXPORT_EXTERN: u32 = 2;

/// Bit of the flags of a key signature: user ids are separated by line
/// feeds.
pub const KEY_SIGN_LFSEP: u32 = 256;

/// Bit of the flags of a signature notation: the notation is critical.
pub const SIG_NOTATION_CRITICAL: u32 = 2;

/// Bit of the flags of a dialogue: it is held with a card.
pub const INTERACT_CARD: u32 = 1;

/// Bit of the flags of a decryption: the signatures on the message are
/// verified as well.
pub const DECRYPT_VERIFY: u32 = 1;

/// A set of key list bits.
#[derive(Clone, Copy, Debug, PartialEq, Eq, Structural)]
pub struct KeyListMode(pub u32);

impl KeyListMode {
    /// The set that holds those bits of `bits` that a key list mode can
    /// hold.
    pub fn from_bits_truncate(bits: u32) -> (m: KeyListMode)
        ensures
            m.0 == bits & KEY_LIST_ALL,
    {
        KeyListMode(bits & KEY_LIST_ALL)
    }

    /// The bits of the set.
    pub fn bits(&self) -> (b: u32)
        ensures
            b == self.0,
    {
        self.0
    }
}

/// A set of export bits.
#[derive(Clone, Copy, Debug, PartialEq, Eq, Structural)]
pub struct ExportMode(pub u32);

impl ExportMode {
    /// The set without any bit.
    pub fn empty() -> (f: ExportMode)
        ensures
            f.0 == 0,
    {
        ExportMode(0)
    }

    /// The bits of the set.
    pub fn bits(&self) -> (b: u32)
        ensures
            b == self.0,
    {
        self.0
    }

    /// The set that holds the bits of both sets.
    pub fn union(self, other: ExportMode) -> (f: ExportMode)
        ensures
            f.0 == self.0 | other.0,
    {
        ExportMode(self.0 | other.0)
    }
}

/// A set of flag bits for the creation of a key.
#[derive(Clone, Copy, Debug, PartialEq, Eq, Structural)]
pub struct CreateKeyFlags(pub u32);

impl CreateKeyFlags {
    /// The set without any bit.
    pub fn empty() -> (f: CreateKeyFlags)
        ensures
            f.0 == 0,
    {
        CreateKeyFlags(0)
    }

    /// The bits of the set.
    pub fn bits(&self) -> (b: u32)
        ensures
            b == self.0,
    {
        self.0
    }

    /// The set that holds the bits of both sets.
    pub fn union(self, other: CreateKeyFlags) -> (f: CreateKeyFlags)
        ensures
            f.0 == self.0 | other.0,
    {
        CreateKeyFlags(self.0 | other.0)
    }
}

/// A set of flag bits for the signing of a key.
#[derive(Clone, Copy, Debug, PartialEq, Eq, Structural)]
pub struct KeySigningFlags(pub u32);

impl KeySigningFlags {
    /// The set without any bit.
    pub fn empty() -> (f: KeySigningFlags)
        ensures
            f.0 == 0,
    {
        KeySigningFlags(0)
    }

    /// The bits of the set.
    pub fn bits(&self) -> (b: u32)
        ensures
            b == self.0,
    {
        self.0
    }

    /// The set that holds the bits of both sets.
    pub fn union(self, other: KeySigningFlags) -> (f: KeySigningFlags)
        ensures
            f.0 == self.0 | other.0,
    {
        KeySigningFlags(self.0 | other.0)
    }
}

/// A set of flag bits for encryption.
#[derive(Clone, Copy, Debug, PartialEq, Eq, Structural)]
pub struct EncryptFlags(pub u32);

impl EncryptFlags {
    /// The set without any bit.
    pub fn empty() -> (f: EncryptFlags)
        ensures
            f.0 == 0,
    {
        EncryptFlags(0)
    }

    /// The bits of the set.
    pub fn bits(&self) -> (b: u32)
        ensures
            b == self.0,
    {
        self.0
    }

    /// The set that holds the bits of both sets.
    pub fn union(self, other: EncryptFlags) -> (f: EncryptFlags)
        ensures
            f.0 == self.0 | other.0,
    {
        EncryptFlags(self.0 | other.0)
    }
}

/// A set of flag bits for decryption.
#[derive(Clone, Copy, Debug, PartialEq, Eq, Structural)]
pub struct DecryptFlags(pub u32);

impl DecryptFlags {
    /// The set without any bit.
    pub fn empty() -> (f: DecryptFlags)
        ensures
            f.0 == 0,
    {
        DecryptFlags(0)
    }

    /// The bits of the set.
    pub fn bits(&self) -> (b: u32)
        ensures
            b == self.0,
    {
        self.0
    }

    /// The set that holds the bits of both sets.
    pub fn union(self, other: DecryptFlags) -> (f: DecryptFlags)
        ensures
            f.0 == self.0 | other.0,
    {
        DecryptFlags(self.0 | other.0)
    }
}

/// A set of flag bits for the deletion of a key.
#[derive(Clone, Copy, Debug, PartialEq, Eq, Structural)]
pub struct DeleteKeyFlags(pub u32);

impl DeleteKeyFlags {
    /// The set without any bit.
    pub fn empty() -> (f: DeleteKeyFlags)
        ensures
            f.0 == 0,
    {
        DeleteKeyFlags(0)
    }

    /// The bits of the set.
    pub fn bits(&self) -> (b: u32)
        ensures
            b == self.0,
    {
        self.0
    }

    /// The set that holds the bits of both sets.
    pub fn union(self, other: DeleteKeyFlags) -> (f: DeleteKeyFlags)
        ensures
            f.0 == self.0 | other.0,
    {
        DeleteKeyFlags(self.0 | other.0)
    }
}

/// A set of flag bits for a signature notation.
#[derive(Clone, Copy, Debug, PartialEq, Eq, Structural)]
pub struct SignatureNotationFlags(pub u32);

impl SignatureNotationFlags {
    /// The set without any bit.
    pub fn empty() -> (f: SignatureNotationFlags)
        ensures
            f.0 == 0,
    {
        SignatureNotationFlags(0)
    }

    /// The bits of the set.
    pub fn bits(&self) -> (b: u32)
        ensures
            b == self.0,
    {
        self.0
    }

    /// The set that holds the bits of both sets.
    pub fn union(self, other: SignatureNotationFlags) -> (f: SignatureNotationFlags)
        ensures
            f.0 == self.0 | other.0,
    {
        SignatureNotationFlags(self.0 | other.0)
    }
}

/// A set of flag bits for the audit log.
#[derive(Clone, Copy, Debug, PartialEq, Eq, Structural)]
pub struct AuditLogFlags(pub u32);

impl AuditLogFlags {
    /// The set without any bit.
    pub fn empty() -> (f: AuditLogFlags)
        ensures
            f.0 == 0,
    {
        AuditLogFlags(0)
    }

    /// The bits of the set.
    pub fn bits(&self) -> (b: u32)
        ensures
            b == self.0,
    {
        self.0
    }

    /// The set that holds the bits of both sets.
    pub fn union(self, other: AuditLogFlags) -> (f: AuditLogFlags)
        ensures
            f.0 == self.0 | other.0,
    {
        AuditLogFlags(self.0 | other.0)
    }
}

} // verus!
