//! What the engine has learnt of an address by seeing it used: how often
//! and when it has seen signatures and encryptions, and the policy that is
//! set for it.

use crate::engine::Timestamp;
use crate::text::text_of;
use vstd::prelude::*;
use vstd::string::StringSliceAdditionalSpecFns;
use vstd::utf8::valid_utf8;

verus! {

/// The policy set for an address.
#[derive(Clone, Copy, Debug, PartialEq, Eq, Structural)]
pub enum TofuPolicy {
    NoPolicy,
    Auto,
    Good,
    Unknown,
    Bad,
    Ask,
    Other(u32),
}

/// The policy that a raw number names; a number without a name is kept as
/// it is.
pub open spec fn policy_of(raw: u32) -> TofuPolicy {
    if raw == 0 {
        TofuPolicy::NoPolicy
    } else if raw == 1 {
        TofuPolicy::Auto
    } else if raw == 2 {
        TofuPolicy::Good
    } else if raw == 3 {
        TofuPolicy::Unknown
    } else if raw == 4 {
        TofuPolicy::Bad
    } else if raw == 5 {
        TofuPolicy::Ask
    } else {
        TofuPolicy::Other(raw)
    }
}

impl TofuPolicy {
    /// The number the engine gives the policy.
    pub open spec fn number(self) -> u32 {
        match self {
            TofuPolicy::NoPolicy => 0,
            TofuPolicy::Auto => 1,
            TofuPolicy::Good => 2,
            TofuPolicy::Unknown => 3,
            TofuPolicy::Bad => 4,
            TofuPolicy::Ask => 5,
            TofuPolicy::Other(raw) => raw,
        }
    }

    /// The policy that `raw` names.
    pub fn from_raw(raw: u32) -> (p: TofuPolicy)
        ensures
            p == policy_of(raw),
            p.number() == raw,
    {
        if raw == 0 {
            TofuPolicy::NoPolicy
        } else if raw == 1 {
            TofuPolicy::Auto
        } else if raw == 2 {
            TofuPolicy::Good
        } else if raw == 3 {
            TofuPolicy::Unknown
        } else if raw == 4 {
            TofuPolicy::Bad
        } else if raw == 5 {
            TofuPolicy::Ask
        } else {
            TofuPolicy::Other(raw)
        }
    }

    /// The number the engine gives the policy.
    pub fn raw(&self) -> (raw: u32)
        ensures
            raw == self.number(),
    {
        match self {
            TofuPolicy::NoPolicy => 0,
            TofuPolicy::Auto => 1,
            TofuPolicy::Good => 2,
            TofuPolicy::Unknown => 3,
            TofuPolicy::Bad => 4,
            TofuPolicy::Ask => 5,
            TofuPolicy::Other(raw) => *raw,
        }
    }
}

/// The record the engine keeps of one address. Validity and policy share
/// one word: the validity in its three lowest bits, the policy in bits four
/// to seven.
#[derive(Clone, Debug, PartialEq, Eq)]
pub struct TofuInfo {
    pub bitfield: u32,
    pub signcount: libc::c_ushort,
    pub encrcount: libc::c_ushort,
    pub signfirst: libc::c_ulong,
    pub signlast: libc::c_ulong,
    pub encrfirst: libc::c_ulong,
    pub encrlast: libc::c_ulong,
    pub description: Option<Vec<u8>>,
}

/// The time that a count of seconds stands for: none for zero, which the
/// engine writes where it has seen nothing.
pub open spec fn seen_at(secs: libc::c_ulong) -> Option<Timestamp> {
    if secs > 0 {
        Some(Timestamp(secs as u64))
    } else {
        None
    }
}

/// The time that a count of seconds stands for.
pub fn time_seen(secs: libc::c_ulong) -> (t: Option<Timestamp>)
    ensures
        t == seen_at(secs),
{
    if secs > 0 {
        Some(Timestamp(secs as u64))
    } else {
        None
    }
}

impl TofuInfo {
    /// The validity of the address, from 0 to 7.
    pub fn validity(&self) -> (v: u32)
        ensures
            v == self.bitfield & 7,
            v <= 7,
    {
        let bits: u32 = self.bitfield;
        assert(bits & 7 <= 7) by (bit_vector);
        bits & 7
    }

    /// The policy set for the address.
    pub fn policy(&self) -> (p: TofuPolicy)
        ensures
            p == policy_of((self.bitfield & 0xF0) >> 4),
    {
        TofuPolicy::from_raw((self.bitfield & 0xF0) >> 4)
    }

    /// How many signatures the engine has seen.
    pub fn signature_count(&self) -> (n: u64)
        ensures
            n == self.signcount,
    {
        self.signcount as u64
    }

    /// How many encryptions the engine has seen.
    pub fn encrypted_count(&self) -> (n: u64)
        ensures
            n == self.encrcount,
    {
        self.encrcount as u64
    }

    /// When the engine first saw a signature, if it has seen one.
    pub fn first_signed(&self) -> (t: Option<Timestamp>)
        ensures
            t == seen_at(self.signfirst),
    {
        time_seen(self.signfirst)
    }

    /// When the engine last saw a signature, if it has seen one.
    pub fn last_signed(&self) -> (t: Option<Timestamp>)
        ensures
            t == seen_at(self.signlast),
    {
        time_seen(self.signlast)
    }

    /// When the engine first saw an encryption, if it has seen one.
    pub fn first_encrypted(&self) -> (t: Option<Timestamp>)
        ensures
            t == seen_at(self.encrfirst),
    {
        time_seen(self.encrfirst)
    }

    /// When the engine last saw an encryption, if it has seen one.
    pub fn last_encrypted(&self) -> (t: Option<Timestamp>)
        ensures
            t == seen_at(self.encrlast),
    {
        time_seen(self.encrlast)
    }

    /// The description of the record, as the engine holds it.
    pub fn description_raw(&self) -> (r: Option<&[u8]>)
        ensures
            r is Some == self.description is Some,
            r matches Some(text) ==> text@ == self.description->Some_0@,
    {
        match &self.description {
            None => None,
            Some(text) => Some(text.as_slice()),
        }
    }

    /// The description of the record as text.
    pub fn description(&self) -> (r: Result<&str, Option<core::str::Utf8Error>>)
        ensures
            r is Ok <==> (self.description matches Some(bytes) && valid_utf8(bytes@)),
            r matches Ok(text) ==> text.spec_bytes() == self.description->Some_0@,
            r matches Err(cause) ==> (cause is None <==> self.description is None),
    {
        text_of(self.description_raw())
    }
}

} // verus!
