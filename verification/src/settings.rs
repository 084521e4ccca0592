//! The settings model: pure data describing the desired client behaviour.
//!
//! Every sub-group is independently optional; absence means "use the
//! underlying engine's default".  No field combination is invalid at this
//! layer: validation of derived values (durations, certificates, address
//! literals) happens in the construction pipeline.

use vstd::prelude::*;

verus! {

/// A signed time span with millisecond resolution.
///
/// A negative span cannot be handed to the underlying engine and makes
/// construction fail; a keep-alive timeout of exactly zero is treated as
/// "disabled", not as an immediate timeout.
#[derive(Clone, Copy, PartialEq, Eq, Structural, Debug)]
pub struct TimeSpan {
    pub millis: i64,
}

/// The HTTP version negotiation preference for a client.
///
/// `Http10` and `Http11` force HTTP/1-only negotiation, `Http2` forces
/// HTTP/2 with prior knowledge, and `All` leaves the engine's default
/// negotiation untouched.  `Http3` asks for HTTP/3 with prior knowledge,
/// which the underlying engine offers only behind an unstable build flag
/// that this build cannot set: construction with `Http3` always aborts
/// with the unsupported-capability error rather than negotiating some
/// other version silently.
#[derive(Clone, Copy, PartialEq, Eq, Structural, Debug)]
pub enum HttpVersionPref {
    Http10,
    Http11,
    Http2,
    Http3,
    All,
}

/// Proxy behaviour; the only variant disables all proxying, including
/// proxies the engine would derive from the environment.
#[derive(Clone, Copy, PartialEq, Eq, Structural, Debug)]
pub enum ProxySettings {
    NoProxy,
}

/// Redirect policy: stop on every redirect, or follow a limited number.
/// The limit is signed so that callers can pass sentinel values through;
/// non-positive limits are not special-cased here.
#[derive(Clone, Copy, PartialEq, Eq, Structural, Debug)]
pub enum RedirectSettings {
    NoRedirect,
    LimitedRedirects(i32),
}

/// Optional timeouts.  The keep-alive idle timeout, when strictly positive,
/// also enables HTTP/2 keep-alive pings while idle with the same duration —
/// a deliberate coupling so pooled idle HTTP/2 connections are not dropped
/// silently by intermediaries.
#[derive(Clone, Copy, PartialEq, Eq, Structural, Debug)]
pub struct TimeoutSettings {
    pub timeout: Option<TimeSpan>,
    pub connect_timeout: Option<TimeSpan>,
    pub keep_alive_timeout: Option<TimeSpan>,
    pub keep_alive_ping: Option<TimeSpan>,
}

/// Bounds for TLS protocol version negotiation.
#[derive(Clone, Copy, PartialEq, Eq, Structural, Debug)]
pub enum TlsVersion {
    Tls1_2,
    Tls1_3,
}

/// A client identity for mutual TLS: a PEM certificate and a PEM private
/// key, combined by the pipeline into one identity blob.
#[derive(Clone, Debug)]
pub struct ClientCertificate {
    pub certificate: Vec<u8>,
    pub private_key: Vec<u8>,
}

/// TLS trust and identity configuration.
#[derive(Clone, Debug)]
pub struct TlsSettings {
    pub trust_root_certificates: bool,
    pub trusted_root_certificates: Vec<Vec<u8>>,
    pub verify_certificates: bool,
    pub client_certificate: Option<ClientCertificate>,
    pub min_tls_version: Option<TlsVersion>,
    pub max_tls_version: Option<TlsVersion>,
}

/// One name-resolution override: a hostname bound to an ordered list of
/// literal IP address strings that resolution must return for it.
///
/// Supply the hostname in lower case: the underlying engine lower-cases
/// hostnames and matches them case-insensitively on the wire, while the
/// library's own lookup model compares them exactly as given.
#[derive(Clone, Debug)]
pub struct DnsOverride {
    pub hostname: String,
    pub addresses: Vec<String>,
}

/// Name-resolution settings: per-hostname overrides, and an optional
/// catch-all fallback address used for every hostname not overridden.
/// When two overrides name the same hostname the later entry wins.
///
/// Address literals are dotted-quad IPv4 (`"203.0.113.7"`); IPv6 literals
/// are not supported and abort construction with the invalid-address
/// error.
#[derive(Clone, Debug)]
pub struct DnsSettings {
    pub overrides: Vec<DnsOverride>,
    pub fallback: Option<String>,
}

/// The aggregate settings model consumed once by the construction pipeline.
#[derive(Clone, Debug)]
pub struct ClientSettings {
    pub http_version_pref: HttpVersionPref,
    pub timeout_settings: Option<TimeoutSettings>,
    pub throw_on_status_code: bool,
    pub proxy_settings: Option<ProxySettings>,
    pub redirect_settings: Option<RedirectSettings>,
    pub tls_settings: Option<TlsSettings>,
    pub dns_settings: Option<DnsSettings>,
}

impl Default for ClientSettings {
    /// All HTTP versions, no timeouts, throw on non-2xx status, and no
    /// proxy, redirect, TLS or DNS overrides.
    fn default() -> (s: Self)
        ensures
            s.http_version_pref == HttpVersionPref::All,
            s.timeout_settings.is_none(),
            s.throw_on_status_code,
            s.proxy_settings.is_none(),
            s.redirect_settings.is_none(),
            s.tls_settings.is_none(),
            s.dns_settings.is_none(),
    {
        ClientSettings {
            http_version_pref: HttpVersionPref::All,
            timeout_settings: None,
            throw_on_status_code: true,
            proxy_settings: None,
            redirect_settings: None,
            tls_settings: None,
            dns_settings: None,
        }
    }
}

} // verus!
