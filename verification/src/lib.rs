//! Construction engine for HTTP clients.
//!
//! A declarative [`settings::ClientSettings`] value is validated and applied,
//! group by group, to the underlying transport engine's builder, yielding a
//! shareable [`client::RequestClient`] handle or a descriptive
//! [`error::RhttpError`].  The crate also provides the static name-resolution
//! override subsystem: per-hostname bindings and a catch-all fallback, each
//! answering lookups with precomputed addresses and never touching a real
//! resolver.
//!
//! One capability gap is declared up front: the underlying engine offers
//! HTTP/3 only behind an unstable build flag this build cannot set, so the
//! `Http3` version preference always aborts construction with the
//! unsupported-capability error (see
//! [`settings::HttpVersionPref`]).

pub mod addr;
pub mod client;
pub mod error;
pub mod resolver;
pub mod settings;
