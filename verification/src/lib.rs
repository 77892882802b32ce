//! A client layer for sessions with a handle-based cryptographic engine.
//!
//! The engine is driven through blocking calls that may re-enter the caller
//! through registered handlers. This crate holds every decision the client
//! makes around such a call: which call to issue and with what arguments,
//! how a handler is installed for the span of one call and put back
//! afterwards, how a key-editing dialogue advances from one status line to
//! the next, and how a result list is pulled and released. The calls
//! themselves are issued by the program that links the engine.

pub mod callbacks;
pub mod context;
mod convert;
pub mod crypto;
pub mod cursor;
pub mod edit;
pub mod engine;
pub mod error;
pub mod flags;
pub mod keyring;
pub mod text;
pub mod tofu;

pub use crate::callbacks::EditInteractor;
pub use crate::callbacks::Interactor;
pub use crate::callbacks::PassphraseProvider;
pub use crate::callbacks::PassphraseRequest;
pub use crate::callbacks::ProgressHandler;
pub use crate::callbacks::ProgressInfo;
pub use crate::callbacks::StatusHandler;
pub use crate::context::Context;
pub use crate::cursor::Keys;
pub use crate::cursor::Signers;
pub use crate::cursor::TrustItems;
pub use crate::engine::Data;
pub use crate::engine::Key;
pub use crate::engine::TrustItem;
pub use crate::error::Error;
pub use crate::flags::ExportMode;
pub use crate::flags::KeyListMode;
pub use crate::flags::PinentryMode;
pub use crate::flags::Protocol;
pub use crate::flags::SignMode;
pub use crate::tofu::TofuInfo;
pub use crate::tofu::TofuPolicy;
