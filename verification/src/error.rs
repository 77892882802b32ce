//! Error values in the engine's native encoding.

use vstd::prelude::*;

verus! {

/// Mask that selects the error code from a raw error value.
pub const CODE_MASK: u32 = 0xFFFF;

/// Number of bits the error source is shifted by in a raw error value.
pub const SOURCE_SHIFT: u32 = 24;

/// Mask that selects the error source once it is shifted down.
pub const SOURCE_MASK: u32 = 0x7F;

/// Code of the value that reports success.
pub const CODE_NO_ERROR: u32 = 0;

/// Code of an unspecified failure.
pub const CODE_GENERAL: u32 = 1;

/// Code for an operation that the engine in use does not offer.
pub const CODE_NOT_SUPPORTED: u32 = 60;

/// Code for a name that matches more than one key.
pub const CODE_AMBIGUOUS_NAME: u32 = 107;

/// Code with which a result list reports that it is exhausted.
pub const CODE_EOF: u32 = 16383;

/// What a caller can do about an error, by its code.
#[derive(Clone, Copy, Debug, PartialEq, Eq, Structural)]
pub enum ErrorKind {
    /// The value reports success.
    Success,
    /// A result list is exhausted; not a failure.
    EndOfSequence,
    /// The engine in use does not offer the operation.
    NotSupported,
    /// The operation was attempted and failed.
    Failed,
}

/// An error as the engine encodes it: the code in the low sixteen bits, the
/// component that raised it in bits 24 to 30. The value zero reports success.
#[derive(Clone, Copy, Debug, PartialEq, Eq, Structural)]
pub struct Error(pub u32);

/// The code part of a raw error value.
pub open spec fn code_of(raw: u32) -> u32 {
    raw & CODE_MASK
}

/// The source part of a raw error value.
pub open spec fn source_of(raw: u32) -> u32 {
    (raw >> SOURCE_SHIFT) & SOURCE_MASK
}

/// The kind of error that a code stands for.
pub open spec fn kind_of_code(code: u32) -> ErrorKind {
    if code == CODE_NO_ERROR {
        ErrorKind::Success
    } else if code == CODE_EOF {
        ErrorKind::EndOfSequence
    } else if code == CODE_NOT_SUPPORTED {
        ErrorKind::NotSupported
    } else {
        ErrorKind::Failed
    }
}

/// What checking a raw return value yields: success for zero, and the value
/// itself as the error otherwise.
pub open spec fn checked(raw: u32) -> Result<(), Error> {
    if raw == 0 {
        Ok(())
    } else {
        Err(Error(raw))
    }
}

/// Why an operation did not succeed, in the cases that a caller tells
/// apart.
#[derive(Clone, Copy, Debug, PartialEq, Eq, Structural)]
pub enum Failure {
    /// The engine in use does not offer the operation.
    NotSupported(Error),
    /// A handler of the caller reported a failure while the operation ran.
    HandlerAborted(Error),
    /// The operation was attempted and failed.
    Failed(Error),
}

/// The failure that an error of the engine stands for.
pub open spec fn failure_of(cause: Error) -> Failure {
    if code_of(cause.0) == CODE_NOT_SUPPORTED {
        Failure::NotSupported(cause)
    } else {
        Failure::Failed(cause)
    }
}

/// The outcome of an operation as its caller sees it. A failure that a
/// handler reported while the operation ran is the outcome, whatever the
/// engine made of it; otherwise the outcome is that of the engine.
pub open spec fn surfaced<T>(outcome: Result<T, Error>, aborted: Option<Error>) -> Result<
    T,
    Failure,
> {
    match aborted {
        Some(cause) => Err(Failure::HandlerAborted(cause)),
        None => match outcome {
            Ok(value) => Ok(value),
            Err(cause) => Err(failure_of(cause)),
        },
    }
}

/// The outcome of an operation as its caller sees it, from the outcome of
/// the engine and the failure that a handler reported while it ran, if one
/// did.
pub fn surface<T>(outcome: Result<T, Error>, aborted: Option<Error>) -> (r: Result<T, Failure>)
    ensures
        r == surfaced(outcome, aborted),
{
    match aborted {
        Some(cause) => Err(Failure::HandlerAborted(cause)),
        None => match outcome {
            Ok(value) => Ok(value),
            Err(cause) => {
                if cause.code() == CODE_NOT_SUPPORTED {
                    Err(Failure::NotSupported(cause))
                } else {
                    Err(Failure::Failed(cause))
                }
            },
        },
    }
}

impl Failure {
    /// The error behind the failure.
    pub fn cause(&self) -> (e: Error)
        ensures
            e == match *self {
                Failure::NotSupported(cause) => cause,
                Failure::HandlerAborted(cause) => cause,
                Failure::Failed(cause) => cause,
            },
    {
        match self {
            Failure::NotSupported(cause) => *cause,
            Failure::HandlerAborted(cause) => *cause,
            Failure::Failed(cause) => *cause,
        }
    }
}

/// An error made from a code alone has that code, and no source: taking
/// the code part twice is the same as taking it once.
pub proof fn lemma_code_alone_has_no_source(code: u32)
    ensures
        code_of(code_of(code)) == code_of(code),
        source_of(code_of(code)) == 0,
        code <= CODE_MASK ==> code_of(code) == code,
{
    assert((code & 0xFFFFu32) & 0xFFFFu32 == code & 0xFFFFu32) by (bit_vector);
    assert(((code & 0xFFFFu32) >> 24u32) & 0x7Fu32 == 0) by (bit_vector);
    assert(code <= 0xFFFFu32 ==> code & 0xFFFFu32 == code) by (bit_vector);
}

/// The code part of any value is at most the mask.
pub proof fn lemma_code_of_bounded(raw: u32)
    ensures
        code_of(raw) <= CODE_MASK,
        source_of(raw) <= SOURCE_MASK,
{
    assert(raw & 0xFFFFu32 <= 0xFFFFu32) by (bit_vector);
    assert((raw >> 24u32) & 0x7Fu32 <= 0x7Fu32) by (bit_vector);
}

impl Error {
    /// The value that reports success.
    pub fn no_error() -> (e: Error)
        ensures
            e == Error(CODE_NO_ERROR),
    {
        Error(CODE_NO_ERROR)
    }

    /// An unspecified failure.
    pub fn general() -> (e: Error)
        ensures
            e == Error(CODE_GENERAL),
    {
        Error(CODE_GENERAL)
    }

    /// The engine in use does not offer the operation.
    pub fn not_supported() -> (e: Error)
        ensures
            e == Error(CODE_NOT_SUPPORTED),
    {
        Error(CODE_NOT_SUPPORTED)
    }

    /// A name matches more than one key, or none can be told from it.
    pub fn ambiguous_name() -> (e: Error)
        ensures
            e == Error(CODE_AMBIGUOUS_NAME),
    {
        Error(CODE_AMBIGUOUS_NAME)
    }

    /// A result list is exhausted.
    pub fn eof() -> (e: Error)
        ensures
            e == Error(CODE_EOF),
    {
        Error(CODE_EOF)
    }

    /// Wraps a raw value as the engine returned it.
    pub fn new(raw: u32) -> (e: Error)
        ensures
            e.0 == raw,
    {
        Error(raw)
    }

    /// An error that carries `code` and no source.
    pub fn from_code(code: u32) -> (e: Error)
        ensures
            e.0 == code_of(code),
    {
        Error(code & CODE_MASK)
    }

    /// The raw value, as the engine expects it back.
    pub fn raw(&self) -> (r: u32)
        ensures
            r == self.0,
    {
        self.0
    }

    /// The error code, without the source.
    pub fn code(&self) -> (c: u32)
        ensures
            c == code_of(self.0),
            c <= CODE_MASK,
    {
        proof {
            lemma_code_of_bounded(self.0);
        }
        self.0 & CODE_MASK
    }

    /// The component that raised the error.
    pub fn source(&self) -> (s: u32)
        ensures
            s == source_of(self.0),
            s <= SOURCE_MASK,
    {
        proof {
            lemma_code_of_bounded(self.0);
        }
        (self.0 >> SOURCE_SHIFT) & SOURCE_MASK
    }

    /// Whether the value reports success.
    pub fn is_success(&self) -> (b: bool)
        ensures
            b == (self.0 == 0),
    {
        self.0 == 0
    }

    /// Whether the value reports the end of a result list.
    pub fn is_eof(&self) -> (b: bool)
        ensures
            b == (code_of(self.0) == CODE_EOF),
    {
        self.code() == CODE_EOF
    }

    /// The kind of the error, by its code.
    pub fn kind(&self) -> (k: ErrorKind)
        ensures
            k == kind_of_code(code_of(self.0)),
    {
        let code: u32 = self.code();
        if code == CODE_NO_ERROR {
            ErrorKind::Success
        } else if code == CODE_EOF {
            ErrorKind::EndOfSequence
        } else if code == CODE_NOT_SUPPORTED {
            ErrorKind::NotSupported
        } else {
            ErrorKind::Failed
        }
    }

    /// Turns a raw return value into a result: success for zero, the value
    /// as an error otherwise.
    pub fn check(raw: u32) -> (r: Result<(), Error>)
        ensures
            r == checked(raw),
    {
        if raw == 0 {
            Ok(())
        } else {
            Err(Error(raw))
        }
    }
}

} // verus!
