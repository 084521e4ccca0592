//! Construction errors.
//!
//! Every failure aborts construction immediately and is returned as a value;
//! nothing is swallowed and nothing panics.  The variants are the four kinds
//! of failure the pipeline can meet, each carrying what identifies the
//! offending input.

use vstd::prelude::*;

verus! {

/// Why client construction failed.
#[derive(Debug)]
pub enum RhttpError {
    /// A supplied duration cannot be converted for the underlying engine
    /// (it is negative).
    RhttpInvalidDurationError,
    /// The trusted root certificate at this position in
    /// `trusted_root_certificates` failed to parse as PEM.
    RhttpInvalidCertificateError { index: usize },
    /// The concatenated certificate + private-key identity blob failed to
    /// parse.
    RhttpInvalidIdentityError,
    /// A DNS override or fallback entry is not a literal IP address; the
    /// offending literal and the parse failure reason are carried along.
    RhttpInvalidAddressError { literal: String, reason: String },
    /// The underlying engine rejected the fully-configured builder, or lacks
    /// a requested capability; its own message is passed through opaquely.
    RhttpUnknownError { message: String },
}

} // verus!
