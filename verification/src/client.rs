//! The client construction pipeline and the built client handle.
//!
//! [`create_client`] applies each present settings group to the underlying
//! engine's builder in a fixed order — proxy, redirects, timeouts, TLS,
//! DNS, then HTTP version forcing, so that a prior-knowledge version is the
//! final word — and produces a [`RequestClient`] or aborts, fail-fast, with
//! the first invalid derived value.
//!
//! The builder itself is opaque to verification; its contents are modelled
//! by [`builder_ops`], the sequence of configuration operations applied to
//! it, and each trusted wrapper extends that sequence by exactly the
//! operation its engine call performs.

use vstd::prelude::*;

use crate::addr::{ipv4_of, ipv4_text, is_ipv4_literal, Ipv4};
use crate::error::RhttpError;
use crate::resolver::{dns_valid, first_bad_literal_at, plan_dns, StaticResolver};
use crate::settings::{
    ClientSettings, DnsOverride, DnsSettings, HttpVersionPref, ProxySettings, RedirectSettings,
    TimeoutSettings, TlsSettings, TlsVersion,
};

verus! {

/// One configuration operation applied to the engine's builder.
pub enum BuildOp {
    NoProxy,
    RedirectNone,
    RedirectLimited(i32),
    TotalTimeout(u64),
    ConnectTimeout(u64),
    TcpKeepAlive(u64),
    Http2KeepAliveWhileIdle(bool),
    Http2KeepAliveTimeout(u64),
    Http2KeepAliveInterval(u64),
    BuiltInRoots(bool),
    AddRootCertificate(Seq<u8>),
    DangerAcceptInvalidCerts(bool),
    Identity(Seq<u8>),
    MinTlsVersion(TlsVersion),
    MaxTlsVersion(TlsVersion),
    Http1Only,
    Http2PriorKnowledge,
    ResolveHost(Seq<char>, Seq<Ipv4>),
}

#[verifier::external_type_specification]
#[verifier::external_body]
pub struct ExClientBuilder(reqwest::ClientBuilder);

#[verifier::external_type_specification]
#[verifier::external_body]
pub struct ExClient(reqwest::Client);

#[verifier::external_type_specification]
#[verifier::external_body]
pub struct ExCertificate(reqwest::Certificate);

#[verifier::external_type_specification]
#[verifier::external_body]
pub struct ExIdentity(reqwest::Identity);

#[verifier::external_type_specification]
#[verifier::external_body]
pub struct ExCancellationToken(tokio_util::sync::CancellationToken);

/// The configuration operations applied to a builder since its creation.
pub uninterp spec fn builder_ops(b: reqwest::ClientBuilder) -> Seq<BuildOp>;

/// The configuration a built client was constructed from.
pub uninterp spec fn client_config(c: reqwest::Client) -> Seq<BuildOp>;

/// Whether these bytes decode as PEM holding at least one certificate
/// section, with every section well-formed.
pub uninterp spec fn pem_certificate_ok(pem: Seq<u8>) -> bool;

/// The PEM bytes a parsed certificate was read from.
pub uninterp spec fn certificate_pem(c: reqwest::Certificate) -> Seq<u8>;

/// Whether these bytes parse as a combined certificate + key identity.
pub uninterp spec fn pem_identity_ok(pem: Seq<u8>) -> bool;

/// The PEM bytes a parsed identity was read from.
pub uninterp spec fn identity_pem(i: reqwest::Identity) -> Seq<u8>;

/// The identity of the shared flag behind a cancellation token: clones of
/// one token observe one flag.
pub uninterp spec fn token_instance(t: tokio_util::sync::CancellationToken) -> int;

/// Relies on reqwest::Client::builder: a fresh builder with nothing
/// applied yet.
#[verifier::external_body]
fn new_builder() -> (b: reqwest::ClientBuilder)
    ensures
        builder_ops(b) == Seq::<BuildOp>::empty(),
{
    reqwest::Client::builder()
}

/// Relies on reqwest::ClientBuilder::no_proxy: disables all proxying,
/// including proxies read from the environment.
#[verifier::external_body]
fn builder_no_proxy(b: reqwest::ClientBuilder) -> (r: reqwest::ClientBuilder)
    ensures
        builder_ops(r) == builder_ops(b).push(BuildOp::NoProxy),
{
    b.no_proxy()
}

/// Relies on reqwest::ClientBuilder::redirect with
/// reqwest::redirect::Policy::none: stop on every redirect.
#[verifier::external_body]
fn builder_redirect_none(b: reqwest::ClientBuilder) -> (r: reqwest::ClientBuilder)
    ensures
        builder_ops(r) == builder_ops(b).push(BuildOp::RedirectNone),
{
    b.redirect(reqwest::redirect::Policy::none())
}

/// Relies on reqwest::ClientBuilder::redirect with
/// reqwest::redirect::Policy::limited: follow at most that many
/// redirects.  The signed limit is passed through uninterpreted, as the
/// engine's own cast semantics govern the edge cases.
#[verifier::external_body]
fn builder_redirect_limited(b: reqwest::ClientBuilder, max_redirects: i32) -> (r:
    reqwest::ClientBuilder)
    ensures
        builder_ops(r) == builder_ops(b).push(BuildOp::RedirectLimited(max_redirects)),
{
    b.redirect(reqwest::redirect::Policy::limited(max_redirects as usize))
}

/// Relies on reqwest::ClientBuilder::timeout: a total request timeout.
#[verifier::external_body]
fn builder_timeout_ms(b: reqwest::ClientBuilder, ms: u64) -> (r: reqwest::ClientBuilder)
    ensures
        builder_ops(r) == builder_ops(b).push(BuildOp::TotalTimeout(ms)),
{
    b.timeout(std::time::Duration::from_millis(ms))
}

/// Relies on reqwest::ClientBuilder::connect_timeout.
#[verifier::external_body]
fn builder_connect_timeout_ms(b: reqwest::ClientBuilder, ms: u64) -> (r: reqwest::ClientBuilder)
    ensures
        builder_ops(r) == builder_ops(b).push(BuildOp::ConnectTimeout(ms)),
{
    b.connect_timeout(std::time::Duration::from_millis(ms))
}

/// Relies on reqwest::ClientBuilder::tcp_keepalive.
#[verifier::external_body]
fn builder_tcp_keepalive_ms(b: reqwest::ClientBuilder, ms: u64) -> (r: reqwest::ClientBuilder)
    ensures
        builder_ops(r) == builder_ops(b).push(BuildOp::TcpKeepAlive(ms)),
{
    b.tcp_keepalive(std::time::Duration::from_millis(ms))
}

/// Relies on reqwest::ClientBuilder::http2_keep_alive_while_idle.
#[verifier::external_body]
fn builder_http2_keep_alive_while_idle(b: reqwest::ClientBuilder, enabled: bool) -> (r:
    reqwest::ClientBuilder)
    ensures
        builder_ops(r) == builder_ops(b).push(BuildOp::Http2KeepAliveWhileIdle(enabled)),
{
    b.http2_keep_alive_while_idle(enabled)
}

/// Relies on reqwest::ClientBuilder::http2_keep_alive_timeout.
#[verifier::external_body]
fn builder_http2_keep_alive_timeout_ms(b: reqwest::ClientBuilder, ms: u64) -> (r:
    reqwest::ClientBuilder)
    ensures
        builder_ops(r) == builder_ops(b).push(BuildOp::Http2KeepAliveTimeout(ms)),
{
    b.http2_keep_alive_timeout(std::time::Duration::from_millis(ms))
}

/// Relies on reqwest::ClientBuilder::http2_keep_alive_interval.
#[verifier::external_body]
fn builder_http2_keep_alive_interval_ms(b: reqwest::ClientBuilder, ms: u64) -> (r:
    reqwest::ClientBuilder)
    ensures
        builder_ops(r) == builder_ops(b).push(BuildOp::Http2KeepAliveInterval(ms)),
{
    b.http2_keep_alive_interval(std::time::Duration::from_millis(ms))
}

/// Relies on reqwest::ClientBuilder::tls_built_in_root_certs: whether the
/// platform/built-in CA set is trusted.
#[verifier::external_body]
fn builder_built_in_roots(b: reqwest::ClientBuilder, trust: bool) -> (r: reqwest::ClientBuilder)
    ensures
        builder_ops(r) == builder_ops(b).push(BuildOp::BuiltInRoots(trust)),
{
    b.tls_built_in_root_certs(trust)
}

/// Relies on reqwest::Certificate::from_pem_bundle for the eager PEM
/// decode that the engine's build step would otherwise repeat — the
/// bytes must hold at least one certificate section and every section
/// must decode — and on reqwest::Certificate::from_pem for the
/// certificate value added to the trust set.  Both depend on the bytes
/// alone.
#[verifier::external_body]
fn certificate_from_pem(pem: &Vec<u8>) -> (r: Option<reqwest::Certificate>)
    ensures
        r.is_some() == pem_certificate_ok(pem@),
        r matches Some(c) ==> certificate_pem(c) == pem@,
{
    match reqwest::Certificate::from_pem_bundle(pem.as_slice()) {
        Ok(sections) if !sections.is_empty() => match reqwest::Certificate::from_pem(
            pem.as_slice(),
        ) {
            Ok(c) => Some(c),
            Err(_) => None,
        },
        _ => None,
    }
}

/// Relies on reqwest::ClientBuilder::add_root_certificate: adds the
/// certificate to the trust set.
#[verifier::external_body]
fn builder_add_root_certificate(b: reqwest::ClientBuilder, cert: reqwest::Certificate) -> (r:
    reqwest::ClientBuilder)
    ensures
        builder_ops(r) == builder_ops(b).push(BuildOp::AddRootCertificate(certificate_pem(cert))),
{
    b.add_root_certificate(cert)
}

/// Relies on reqwest::ClientBuilder::danger_accept_invalid_certs:
/// disables certificate validation entirely.
#[verifier::external_body]
fn builder_danger_accept_invalid_certs(b: reqwest::ClientBuilder, accept: bool) -> (r:
    reqwest::ClientBuilder)
    ensures
        builder_ops(r) == builder_ops(b).push(BuildOp::DangerAcceptInvalidCerts(accept)),
{
    b.danger_accept_invalid_certs(accept)
}

/// Relies on reqwest::Identity::from_pem: parses a combined
/// certificate + private-key blob; the outcome depends on the bytes alone.
#[verifier::external_body]
fn identity_from_pem(pem: &Vec<u8>) -> (r: Option<reqwest::Identity>)
    ensures
        r.is_some() == pem_identity_ok(pem@),
        r matches Some(i) ==> identity_pem(i) == pem@,
{
    match reqwest::Identity::from_pem(pem.as_slice()) {
        Ok(i) => Some(i),
        Err(_) => None,
    }
}

/// Relies on reqwest::ClientBuilder::identity: sets the client identity
/// for mutual TLS.
#[verifier::external_body]
fn builder_identity(b: reqwest::ClientBuilder, id: reqwest::Identity) -> (r:
    reqwest::ClientBuilder)
    ensures
        builder_ops(r) == builder_ops(b).push(BuildOp::Identity(identity_pem(id))),
{
    b.identity(id)
}

/// Relies on reqwest::ClientBuilder::min_tls_version; the library's
/// version bounds map one to one onto the engine's.
#[verifier::external_body]
fn builder_min_tls_version(b: reqwest::ClientBuilder, v: &TlsVersion) -> (r:
    reqwest::ClientBuilder)
    ensures
        builder_ops(r) == builder_ops(b).push(BuildOp::MinTlsVersion(*v)),
{
    b.min_tls_version(
        match v {
            TlsVersion::Tls1_2 => reqwest::tls::Version::TLS_1_2,
            TlsVersion::Tls1_3 => reqwest::tls::Version::TLS_1_3,
        },
    )
}

/// Relies on reqwest::ClientBuilder::max_tls_version; the library's
/// version bounds map one to one onto the engine's.
#[verifier::external_body]
fn builder_max_tls_version(b: reqwest::ClientBuilder, v: &TlsVersion) -> (r:
    reqwest::ClientBuilder)
    ensures
        builder_ops(r) == builder_ops(b).push(BuildOp::MaxTlsVersion(*v)),
{
    b.max_tls_version(
        match v {
            TlsVersion::Tls1_2 => reqwest::tls::Version::TLS_1_2,
            TlsVersion::Tls1_3 => reqwest::tls::Version::TLS_1_3,
        },
    )
}

/// Relies on reqwest::ClientBuilder::http1_only.
#[verifier::external_body]
fn builder_http1_only(b: reqwest::ClientBuilder) -> (r: reqwest::ClientBuilder)
    ensures
        builder_ops(r) == builder_ops(b).push(BuildOp::Http1Only),
{
    b.http1_only()
}

/// Relies on reqwest::ClientBuilder::http2_prior_knowledge.
#[verifier::external_body]
fn builder_http2_prior_knowledge(b: reqwest::ClientBuilder) -> (r: reqwest::ClientBuilder)
    ensures
        builder_ops(r) == builder_ops(b).push(BuildOp::Http2PriorKnowledge),
{
    b.http2_prior_knowledge()
}

/// Relies on reqwest::ClientBuilder::resolve_to_addrs: binds resolution
/// of this hostname to exactly these addresses.  The engine ignores the
/// port at resolution time, so a placeholder port is attached.
#[verifier::external_body]
fn builder_resolve_to_addrs(
    b: reqwest::ClientBuilder,
    host: &String,
    addrs: &Vec<Ipv4>,
    port: u16,
) -> (r: reqwest::ClientBuilder)
    ensures
        builder_ops(r) == builder_ops(b).push(BuildOp::ResolveHost(host@, addrs@)),
{
    let mut sock_addrs = Vec::with_capacity(addrs.len());
    for ip in addrs.iter() {
        sock_addrs.push(format!("{}.{}.{}.{}:{}", ip.a, ip.b, ip.c, ip.d, port).parse().unwrap());
    }
    b.resolve_to_addrs(host.as_str(), sock_addrs.as_slice())
}

/// Relies on reqwest::ClientBuilder::build: the engine's own
/// construction step, keeping the applied configuration; its failures are
/// internal to the engine and surface only as a message.
#[verifier::external_body]
fn builder_build(b: reqwest::ClientBuilder) -> (r: Result<reqwest::Client, String>)
    ensures
        r matches Ok(c) ==> client_config(c) == builder_ops(b),
{
    match b.build() {
        Ok(c) => Ok(c),
        Err(e) => Err(format!("{e:?}")),
    }
}

/// Relies on tokio_util::sync::CancellationToken::new: a fresh token,
/// distinct from every other; nothing more can be promised of a value
/// whose observable state is shared and mutable.
#[verifier::external_body]
fn new_cancel_token() -> (t: tokio_util::sync::CancellationToken) {
    tokio_util::sync::CancellationToken::new()
}

/// Relies on tokio_util::sync::CancellationToken::clone: a clone observes
/// the very same flag as the token it was cloned from.
pub assume_specification[ <tokio_util::sync::CancellationToken as Clone>::clone ](
    t: &tokio_util::sync::CancellationToken,
) -> (r: tokio_util::sync::CancellationToken)
    ensures
        token_instance(r) == token_instance(*t),
;

/// Relies on reqwest::Client::clone: clones share one inner client, so
/// the configuration is the same.
pub assume_specification[ <reqwest::Client as Clone>::clone ](c: &reqwest::Client) -> (r:
    reqwest::Client)
    ensures
        client_config(r) == client_config(*c),
;

/// The engine operations for the proxy group.
pub open spec fn proxy_ops(p: Option<ProxySettings>) -> Seq<BuildOp> {
    match p {
        Some(ProxySettings::NoProxy) => seq![BuildOp::NoProxy],
        None => seq![],
    }
}

/// The engine operations for the redirect group.
pub open spec fn redirect_ops(r: Option<RedirectSettings>) -> Seq<BuildOp> {
    match r {
        Some(RedirectSettings::NoRedirect) => seq![BuildOp::RedirectNone],
        Some(RedirectSettings::LimitedRedirects(n)) => seq![BuildOp::RedirectLimited(n)],
        None => seq![],
    }
}

/// Every present duration is convertible: not negative.
pub open spec fn timeouts_valid(t: Option<TimeoutSettings>) -> bool {
    match t {
        Some(ts) => {
            &&& (ts.timeout matches Some(d) ==> d.millis >= 0)
            &&& (ts.connect_timeout matches Some(d) ==> d.millis >= 0)
            &&& (ts.keep_alive_timeout matches Some(d) ==> d.millis >= 0)
            &&& (ts.keep_alive_ping matches Some(d) ==> d.millis >= 0)
        },
        None => true,
    }
}

/// The engine operations for the timeout group.  A keep-alive timeout of
/// zero applies nothing; a positive one applies TCP keep-alive and both
/// HTTP/2 idle keep-alive settings with the same duration.
pub open spec fn timeout_ops(t: Option<TimeoutSettings>) -> Seq<BuildOp> {
    match t {
        Some(ts) => (match ts.timeout {
            Some(d) => seq![BuildOp::TotalTimeout(d.millis as u64)],
            None => seq![],
        }) + (match ts.connect_timeout {
            Some(d) => seq![BuildOp::ConnectTimeout(d.millis as u64)],
            None => seq![],
        }) + (match ts.keep_alive_timeout {
            Some(d) => if d.millis > 0 {
                seq![
                    BuildOp::TcpKeepAlive(d.millis as u64),
                    BuildOp::Http2KeepAliveWhileIdle(true),
                    BuildOp::Http2KeepAliveTimeout(d.millis as u64),
                ]
            } else {
                seq![]
            },
            None => seq![],
        }) + (match ts.keep_alive_ping {
            Some(d) => seq![BuildOp::Http2KeepAliveInterval(d.millis as u64)],
            None => seq![],
        }),
        None => seq![],
    }
}

/// The identity blob: certificate PEM, one newline, private-key PEM.
pub open spec fn identity_blob(cert: Seq<u8>, key: Seq<u8>) -> Seq<u8> {
    cert + seq![10u8] + key
}

/// Every supplied trusted root certificate parses.
pub open spec fn certs_valid(certs: Seq<Vec<u8>>) -> bool {
    forall|i: int| 0 <= i < certs.len() ==> pem_certificate_ok(#[trigger] certs[i]@)
}

/// The TLS group is applicable: all roots parse and, when present, the
/// client identity blob parses.
pub open spec fn tls_valid(t: Option<TlsSettings>) -> bool {
    match t {
        Some(tl) => {
            &&& certs_valid(tl.trusted_root_certificates@)
            &&& (tl.client_certificate matches Some(cc) ==> pem_identity_ok(
                identity_blob(cc.certificate@, cc.private_key@),
            ))
        },
        None => true,
    }
}

/// The engine operations for the trust-store part of the TLS group.
pub open spec fn tls_root_ops(tl: TlsSettings) -> Seq<BuildOp> {
    (if !tl.trust_root_certificates {
        seq![BuildOp::BuiltInRoots(false)]
    } else {
        seq![]
    }) + tl.trusted_root_certificates@.map(|i: int, c: Vec<u8>| BuildOp::AddRootCertificate(c@))
}

/// The engine operations for the validation, identity and version-bound
/// part of the TLS group.
pub open spec fn tls_rest_ops(tl: TlsSettings) -> Seq<BuildOp> {
    (if !tl.verify_certificates {
        seq![BuildOp::DangerAcceptInvalidCerts(true)]
    } else {
        seq![]
    }) + (match tl.client_certificate {
        Some(cc) => seq![BuildOp::Identity(identity_blob(cc.certificate@, cc.private_key@))],
        None => seq![],
    }) + (match tl.min_tls_version {
        Some(v) => seq![BuildOp::MinTlsVersion(v)],
        None => seq![],
    }) + (match tl.max_tls_version {
        Some(v) => seq![BuildOp::MaxTlsVersion(v)],
        None => seq![],
    })
}

/// The engine operations for the TLS group.
pub open spec fn tls_ops(t: Option<TlsSettings>) -> Seq<BuildOp> {
    match t {
        Some(tl) => tls_root_ops(tl) + tls_rest_ops(tl),
        None => seq![],
    }
}

/// The engine operation for one override entry: the hostname bound to its
/// parsed addresses.
pub open spec fn override_op(o: DnsOverride) -> BuildOp {
    BuildOp::ResolveHost(o.hostname@, o.addresses@.map(|j: int, a: String| ipv4_of(a@)))
}

/// The DNS group is applicable: every literal parses.
pub open spec fn dns_group_valid(d: Option<DnsSettings>) -> bool {
    match d {
        Some(ds) => dns_valid(ds),
        None => true,
    }
}

/// The engine operations for the DNS group: one binding per override.
/// The fallback is a distinct binding carried on the handle, not an
/// engine operation.
pub open spec fn dns_ops(d: Option<DnsSettings>) -> Seq<BuildOp> {
    match d {
        Some(ds) => ds.overrides@.map(|i: int, o: DnsOverride| override_op(o)),
        None => seq![],
    }
}

/// Version preferences the engine linked here can force.  HTTP/3 prior
/// knowledge is not available in this build of the engine.
pub open spec fn version_supported(p: HttpVersionPref) -> bool {
    p != HttpVersionPref::Http3
}

/// The engine operations for version forcing.
pub open spec fn version_ops(p: HttpVersionPref) -> Seq<BuildOp> {
    match p {
        HttpVersionPref::Http10 => seq![BuildOp::Http1Only],
        HttpVersionPref::Http11 => seq![BuildOp::Http1Only],
        HttpVersionPref::Http2 => seq![BuildOp::Http2PriorKnowledge],
        HttpVersionPref::Http3 => seq![],
        HttpVersionPref::All => seq![],
    }
}

/// Every settings group can be applied.
pub open spec fn settings_valid(s: ClientSettings) -> bool {
    &&& timeouts_valid(s.timeout_settings)
    &&& tls_valid(s.tls_settings)
    &&& dns_group_valid(s.dns_settings)
    &&& version_supported(s.http_version_pref)
}

/// All engine operations the pipeline applies for these settings, in
/// their fixed order.
pub open spec fn settings_ops(s: ClientSettings) -> Seq<BuildOp> {
    proxy_ops(s.proxy_settings) + redirect_ops(s.redirect_settings) + timeout_ops(
        s.timeout_settings,
    ) + tls_ops(s.tls_settings) + dns_ops(s.dns_settings) + version_ops(s.http_version_pref)
}

/// The error the fail-fast pipeline owes for invalid settings: the first
/// failing group in application order decides the kind.
pub open spec fn expected_error(s: ClientSettings, e: RhttpError) -> bool {
    if !timeouts_valid(s.timeout_settings) {
        e is RhttpInvalidDurationError
    } else if !(s.tls_settings matches Some(tl) ==> certs_valid(tl.trusted_root_certificates@)) {
        e matches RhttpError::RhttpInvalidCertificateError { index } && (s.tls_settings
            matches Some(tl) && 0 <= index < tl.trusted_root_certificates@.len()
            && !pem_certificate_ok(tl.trusted_root_certificates@[index as int]@) && (forall|k: int|
            0 <= k < index as int ==> pem_certificate_ok(
                #[trigger] tl.trusted_root_certificates@[k]@,
            )))
    } else if !tls_valid(s.tls_settings) {
        e is RhttpInvalidIdentityError
    } else if !dns_group_valid(s.dns_settings) {
        e matches RhttpError::RhttpInvalidAddressError { literal, reason } && (s.dns_settings
            matches Some(ds) && !is_ipv4_literal(literal@) && reason@.len() > 0 && ((ds.fallback
            matches Some(f) && literal@ == f@) || exists|i: int, j: int| first_bad_literal_at(
            ds,
            literal@,
            i,
            j,
        )) && (ds.fallback matches Some(f) ==> (is_ipv4_literal(f@) || literal@ == f@)))
    } else {
        e is RhttpUnknownError
    }
}

/// A fully configured builder, ready for the engine's own build step,
/// together with what the handle will carry.
pub struct PreparedClient {
    pub builder: reqwest::ClientBuilder,
    pub fallback: Option<StaticResolver>,
    pub http_version_pref: HttpVersionPref,
    pub throw_on_status_code: bool,
}

/// The built client handle: the engine client, the retained version
/// preference and status policy, the catch-all resolver binding when one
/// was configured, and the shared cancellation token.
pub struct RequestClient {
    pub client: reqwest::Client,
    pub http_version_pref: HttpVersionPref,
    pub throw_on_status_code: bool,
    pub fallback_resolver: Option<StaticResolver>,
    pub cancel_token: tokio_util::sync::CancellationToken,
}

fn apply_proxy(b: reqwest::ClientBuilder, p: &Option<ProxySettings>) -> (r:
    reqwest::ClientBuilder)
    ensures
        builder_ops(r) == builder_ops(b) + proxy_ops(*p),
{
    match p {
        Some(ProxySettings::NoProxy) => {
            let r = builder_no_proxy(b);
            proof {
                assert(builder_ops(r) =~= builder_ops(b) + proxy_ops(*p));
            }
            r
        },
        None => {
            proof {
                assert(builder_ops(b) =~= builder_ops(b) + proxy_ops(*p));
            }
            b
        },
    }
}

fn apply_redirect(b: reqwest::ClientBuilder, p: &Option<RedirectSettings>) -> (r:
    reqwest::ClientBuilder)
    ensures
        builder_ops(r) == builder_ops(b) + redirect_ops(*p),
{
    match p {
        Some(RedirectSettings::NoRedirect) => {
            let r = builder_redirect_none(b);
            proof {
                assert(builder_ops(r) =~= builder_ops(b) + redirect_ops(*p));
            }
            r
        },
        Some(RedirectSettings::LimitedRedirects(n)) => {
            let r = builder_redirect_limited(b, *n);
            proof {
                assert(builder_ops(r) =~= builder_ops(b) + redirect_ops(*p));
            }
            r
        },
        None => {
            proof {
                assert(builder_ops(b) =~= builder_ops(b) + redirect_ops(*p));
            }
            b
        },
    }
}

fn apply_timeouts(b: reqwest::ClientBuilder, t: &Option<TimeoutSettings>) -> (r: Result<
    reqwest::ClientBuilder,
    RhttpError,
>)
    ensures
        r.is_ok() <==> timeouts_valid(*t),
        r matches Ok(rb) ==> builder_ops(rb) == builder_ops(b) + timeout_ops(*t),
        r matches Err(e) ==> e is RhttpInvalidDurationError,
{
    match t {
        Some(ts) => {
            let mut b = b;
            let ghost base = builder_ops(b);
            if let Some(d) = &ts.timeout {
                if d.millis < 0 {
                    return Err(RhttpError::RhttpInvalidDurationError);
                }
                b = builder_timeout_ms(b, d.millis as u64);
            }
            if let Some(d) = &ts.connect_timeout {
                if d.millis < 0 {
                    return Err(RhttpError::RhttpInvalidDurationError);
                }
                b = builder_connect_timeout_ms(b, d.millis as u64);
            }
            if let Some(d) = &ts.keep_alive_timeout {
                if d.millis < 0 {
                    return Err(RhttpError::RhttpInvalidDurationError);
                }
                if d.millis > 0 {
                    b = builder_tcp_keepalive_ms(b, d.millis as u64);
                    b = builder_http2_keep_alive_while_idle(b, true);
                    b = builder_http2_keep_alive_timeout_ms(b, d.millis as u64);
                }
            }
            if let Some(d) = &ts.keep_alive_ping {
                if d.millis < 0 {
                    return Err(RhttpError::RhttpInvalidDurationError);
                }
                b = builder_http2_keep_alive_interval_ms(b, d.millis as u64);
            }
            proof {
                assert(builder_ops(b) =~= base + timeout_ops(*t));
            }
            Ok(b)
        },
        None => {
            proof {
                assert(builder_ops(b) =~= builder_ops(b) + timeout_ops(*t));
            }
            Ok(b)
        },
    }
}

/// Builds the mutual-TLS identity blob: certificate, newline, key.
fn build_identity_blob(cert: &Vec<u8>, key: &Vec<u8>) -> (r: Vec<u8>)
    ensures
        r@ == identity_blob(cert@, key@),
{
    let mut out: Vec<u8> = Vec::new();
    let mut i: usize = 0;
    while i < cert.len()
        invariant
            i <= cert@.len(),
            out@ =~= cert@.subrange(0, i as int),
        decreases cert@.len() - i as int,
    {
        out.push(cert[i]);
        i += 1;
    }
    out.push(10u8);
    let mut j: usize = 0;
    while j < key.len()
        invariant
            j <= key@.len(),
            out@ =~= cert@ + seq![10u8] + key@.subrange(0, j as int),
        decreases key@.len() - j as int,
    {
        out.push(key[j]);
        j += 1;
    }
    proof {
        assert(out@ =~= identity_blob(cert@, key@));
    }
    out
}

fn apply_tls(b: reqwest::ClientBuilder, t: &Option<TlsSettings>) -> (r: Result<
    reqwest::ClientBuilder,
    RhttpError,
>)
    ensures
        r.is_ok() <==> tls_valid(*t),
        r matches Ok(rb) ==> builder_ops(rb) == builder_ops(b) + tls_ops(*t),
        r matches Err(e) ==> {
            if !(*t matches Some(tl) ==> certs_valid(tl.trusted_root_certificates@)) {
                e matches RhttpError::RhttpInvalidCertificateError { index } && (*t matches Some(
                    tl,
                ) && 0 <= index < tl.trusted_root_certificates@.len() && !pem_certificate_ok(
                    tl.trusted_root_certificates@[index as int]@,
                ) && (forall|k: int|
                    0 <= k < index as int ==> pem_certificate_ok(
                        #[trigger] tl.trusted_root_certificates@[k]@,
                    )))
            } else {
                e is RhttpInvalidIdentityError
            }
        },
{
    match t {
        Some(tl) => {
            let ghost base = builder_ops(b);
            let b = match apply_tls_roots(b, tl) {
                Ok(b) => b,
                Err(e) => {
                    return Err(e);
                },
            };
            let b = match apply_tls_rest(b, tl) {
                Ok(b) => b,
                Err(e) => {
                    return Err(e);
                },
            };
            proof {
                assert(builder_ops(b) =~= base + tls_ops(*t));
            }
            Ok(b)
        },
        None => {
            proof {
                assert(builder_ops(b) =~= builder_ops(b) + tls_ops(*t));
            }
            Ok(b)
        },
    }
}

#[verifier::loop_isolation(false)]
fn apply_tls_roots(b: reqwest::ClientBuilder, tl: &TlsSettings) -> (r: Result<
    reqwest::ClientBuilder,
    RhttpError,
>)
    ensures
        r.is_ok() <==> certs_valid(tl.trusted_root_certificates@),
        r matches Ok(rb) ==> builder_ops(rb) == builder_ops(b) + tls_root_ops(*tl),
        r matches Err(e) ==> (e matches RhttpError::RhttpInvalidCertificateError { index } && 0
            <= index < tl.trusted_root_certificates@.len() && !pem_certificate_ok(
            tl.trusted_root_certificates@[index as int]@,
        ) && (forall|k: int|
            0 <= k < index as int ==> pem_certificate_ok(
                #[trigger] tl.trusted_root_certificates@[k]@,
            ))),
{
    let mut b = b;
    let ghost base = builder_ops(b);
    if !tl.trust_root_certificates {
        b = builder_built_in_roots(b, false);
    }
    let ghost after_roots = builder_ops(b);
    let certs = &tl.trusted_root_certificates;
    let mut i: usize = 0;
    while i < certs.len()
        invariant
            i <= certs@.len(),
            forall|k: int| 0 <= k < i as int ==> pem_certificate_ok(#[trigger] certs@[k]@),
            builder_ops(b) == after_roots + certs@.subrange(0, i as int).map(
                |k: int, c: Vec<u8>| BuildOp::AddRootCertificate(c@),
            ),
        decreases certs@.len() - i as int,
    {
        match certificate_from_pem(&certs[i]) {
            Some(c) => {
                b = builder_add_root_certificate(b, c);
                proof {
                    assert(certs@.subrange(0, i as int + 1).map(
                        |k: int, c: Vec<u8>| BuildOp::AddRootCertificate(c@),
                    ) =~= certs@.subrange(0, i as int).map(
                        |k: int, c: Vec<u8>| BuildOp::AddRootCertificate(c@),
                    ).push(BuildOp::AddRootCertificate(certs@[i as int]@)));
                    assert(builder_ops(b) =~= after_roots + certs@.subrange(0, i as int + 1).map(
                        |k: int, c: Vec<u8>| BuildOp::AddRootCertificate(c@),
                    ));
                }
            },
            None => {
                proof {
                    assert(!pem_certificate_ok(certs@[i as int]@));
                    assert(!certs_valid(certs@));
                }
                return Err(RhttpError::RhttpInvalidCertificateError { index: i });
            },
        }
        i += 1;
    }
    proof {
        assert(certs@.subrange(0, certs@.len() as int) =~= certs@);
        assert(builder_ops(b) =~= base + tls_root_ops(*tl));
    }
    Ok(b)
}

fn apply_tls_rest(b: reqwest::ClientBuilder, tl: &TlsSettings) -> (r: Result<
    reqwest::ClientBuilder,
    RhttpError,
>)
    ensures
        r.is_ok() <==> (tl.client_certificate matches Some(cc) ==> pem_identity_ok(
            identity_blob(cc.certificate@, cc.private_key@),
        )),
        r matches Ok(rb) ==> builder_ops(rb) == builder_ops(b) + tls_rest_ops(*tl),
        r matches Err(e) ==> e is RhttpInvalidIdentityError,
{
    let mut b = b;
    let ghost base = builder_ops(b);
    if !tl.verify_certificates {
        b = builder_danger_accept_invalid_certs(b, true);
    }
    let ghost after_verify = builder_ops(b);
    if let Some(cc) = &tl.client_certificate {
        let blob = build_identity_blob(&cc.certificate, &cc.private_key);
        match identity_from_pem(&blob) {
            Some(id) => {
                b = builder_identity(b, id);
            },
            None => {
                return Err(RhttpError::RhttpInvalidIdentityError);
            },
        }
    }
    let ghost after_identity = builder_ops(b);
    proof {
        assert(after_identity =~= after_verify + (match tl.client_certificate {
            Some(cc) => seq![BuildOp::Identity(identity_blob(cc.certificate@, cc.private_key@))],
            None => seq![],
        }));
    }
    if let Some(v) = &tl.min_tls_version {
        b = builder_min_tls_version(b, v);
    }
    if let Some(v) = &tl.max_tls_version {
        b = builder_max_tls_version(b, v);
    }
    proof {
        assert(builder_ops(b) =~= base + tls_rest_ops(*tl));
    }
    Ok(b)
}

fn apply_dns(b: reqwest::ClientBuilder, d: &Option<DnsSettings>) -> (r: Result<
    (reqwest::ClientBuilder, Option<StaticResolver>),
    RhttpError,
>)
    ensures
        r.is_ok() <==> dns_group_valid(*d),
        r matches Ok(p) ==> {
            &&& builder_ops(p.0) == builder_ops(b) + dns_ops(*d)
            &&& (match *d {
                Some(ds) => p.1.is_some() == ds.fallback.is_some() && (ds.fallback matches Some(f)
                    ==> f@ == ipv4_text(p.1.unwrap().address)),
                None => p.1.is_none(),
            })
        },
        r matches Err(e) ==> (e matches RhttpError::RhttpInvalidAddressError { literal, reason }
            && (*d matches Some(ds) && !is_ipv4_literal(literal@) && reason@.len() > 0 && ((
            ds.fallback matches Some(f) && literal@ == f@) || exists|i: int, j: int|
            first_bad_literal_at(ds, literal@, i, j)) && (ds.fallback matches Some(f) ==> (
            is_ipv4_literal(f@) || literal@ == f@)))),
{
    match d {
        Some(ds) => {
            let plan = match plan_dns(ds) {
                Ok(p) => p,
                Err(e) => {
                    return Err(e);
                },
            };
            let mut b = b;
            let ghost base = builder_ops(b);
            let mut i: usize = 0;
            while i < plan.bindings.len()
                invariant
                    i <= plan.bindings@.len(),
                    plan.bindings@.len() == ds.overrides@.len(),
                    forall|k: int|
                        0 <= k < ds.overrides@.len() ==> {
                            &&& (#[trigger] plan.bindings@[k]).hostname@
                                == ds.overrides@[k].hostname@
                            &&& plan.bindings@[k].addresses@.len()
                                == ds.overrides@[k].addresses@.len()
                            &&& forall|j: int|
                                0 <= j < ds.overrides@[k].addresses@.len()
                                    ==> #[trigger] ds.overrides@[k].addresses@[j]@ == ipv4_text(
                                    plan.bindings@[k].addresses@[j],
                                )
                        },
                    builder_ops(b) == base + ds.overrides@.subrange(0, i as int).map(
                        |k: int, o: DnsOverride| override_op(o),
                    ),
                decreases plan.bindings@.len() - i as int,
            {
                let binding = &plan.bindings[i];
                // the engine ignores the port when resolving; 1111 is the
                // placeholder it is given
                b = builder_resolve_to_addrs(b, &binding.hostname, &binding.addresses, 1111);
                proof {
                    let o = ds.overrides@[i as int];
                    assert forall|j: int| 0 <= j < o.addresses@.len() implies #[trigger] o.addresses@[j]@
                        == ipv4_text(binding.addresses@[j]) by {}
                    assert forall|j: int| 0 <= j < o.addresses@.len() implies ipv4_of(
                        #[trigger] o.addresses@[j]@,
                    ) == binding.addresses@[j] by {
                        crate::addr::lemma_ipv4_of(o.addresses@[j]@, binding.addresses@[j]);
                    }
                    assert(o.addresses@.map(|j: int, a: String| ipv4_of(a@))
                        =~= binding.addresses@);
                    assert(override_op(o) == BuildOp::ResolveHost(
                        binding.hostname@,
                        binding.addresses@,
                    ));
                    assert(ds.overrides@.subrange(0, i as int + 1).map(
                        |k: int, o: DnsOverride| override_op(o),
                    ) =~= ds.overrides@.subrange(0, i as int).map(
                        |k: int, o: DnsOverride| override_op(o),
                    ).push(override_op(o)));
                    assert(builder_ops(b) =~= base + ds.overrides@.subrange(0, i as int + 1).map(
                        |k: int, o: DnsOverride| override_op(o),
                    ));
                }
                i += 1;
            }
            proof {
                assert(ds.overrides@.subrange(0, ds.overrides@.len() as int) =~= ds.overrides@);
            }
            Ok((b, plan.fallback))
        },
        None => {
            proof {
                assert(builder_ops(b) =~= builder_ops(b) + dns_ops(*d));
            }
            Ok((b, None))
        },
    }
}

fn apply_version(b: reqwest::ClientBuilder, p: &HttpVersionPref) -> (r: Result<
    reqwest::ClientBuilder,
    RhttpError,
>)
    ensures
        r.is_ok() <==> version_supported(*p),
        r matches Ok(rb) ==> builder_ops(rb) == builder_ops(b) + version_ops(*p),
        r matches Err(e) ==> e is RhttpUnknownError,
{
    match p {
        HttpVersionPref::Http10 | HttpVersionPref::Http11 => {
            let r = builder_http1_only(b);
            proof {
                assert(builder_ops(r) =~= builder_ops(b) + version_ops(*p));
            }
            Ok(r)
        },
        HttpVersionPref::Http2 => {
            let r = builder_http2_prior_knowledge(b);
            proof {
                assert(builder_ops(r) =~= builder_ops(b) + version_ops(*p));
            }
            Ok(r)
        },
        HttpVersionPref::Http3 => Err(
            RhttpError::RhttpUnknownError {
                message: "HTTP/3 prior knowledge is not available in this build of the underlying engine".to_owned(),
            },
        ),
        HttpVersionPref::All => {
            proof {
                assert(builder_ops(b) =~= builder_ops(b) + version_ops(*p));
            }
            Ok(b)
        },
    }
}

/// Validates and applies every settings group, in the pipeline's fixed
/// order, to a fresh engine builder.  Succeeds exactly on valid settings;
/// fails fast with the first offending group's error.
pub fn configure(settings: ClientSettings) -> (r: Result<PreparedClient, RhttpError>)
    ensures
        r.is_ok() <==> settings_valid(settings),
        r matches Ok(p) ==> {
            &&& builder_ops(p.builder) == settings_ops(settings)
            &&& p.http_version_pref == settings.http_version_pref
            &&& p.throw_on_status_code == settings.throw_on_status_code
            &&& (match settings.dns_settings {
                Some(ds) => p.fallback.is_some() == ds.fallback.is_some() && (ds.fallback
                    matches Some(f) ==> f@ == ipv4_text(p.fallback.unwrap().address)),
                None => p.fallback.is_none(),
            })
        },
        r matches Err(e) ==> !settings_valid(settings) && expected_error(settings, e),
{
    let b = new_builder();
    proof {
        assert(builder_ops(b) + proxy_ops(settings.proxy_settings) =~= proxy_ops(
            settings.proxy_settings,
        ));
    }
    let b = apply_proxy(b, &settings.proxy_settings);
    let b = apply_redirect(b, &settings.redirect_settings);
    let b = match apply_timeouts(b, &settings.timeout_settings) {
        Ok(b) => b,
        Err(e) => {
            return Err(e);
        },
    };
    let b = match apply_tls(b, &settings.tls_settings) {
        Ok(b) => b,
        Err(e) => {
            return Err(e);
        },
    };
    let (b, fallback) = match apply_dns(b, &settings.dns_settings) {
        Ok(p) => p,
        Err(e) => {
            return Err(e);
        },
    };
    let b = match apply_version(b, &settings.http_version_pref) {
        Ok(b) => b,
        Err(e) => {
            return Err(e);
        },
    };
    proof {
        assert(builder_ops(b) =~= settings_ops(settings));
    }
    Ok(
        PreparedClient {
            builder: b,
            fallback,
            http_version_pref: settings.http_version_pref,
            throw_on_status_code: settings.throw_on_status_code,
        },
    )
}

/// Runs the engine's own build step on a prepared builder and bundles the
/// handle: the built client, the retained preference and policy, the
/// fallback binding, and a fresh cancellation token.
pub fn finish(p: PreparedClient) -> (r: Result<RequestClient, RhttpError>)
    ensures
        r matches Ok(h) ==> {
            &&& client_config(h.client) == builder_ops(p.builder)
            &&& h.http_version_pref == p.http_version_pref
            &&& h.throw_on_status_code == p.throw_on_status_code
            &&& h.fallback_resolver == p.fallback
        },
        r matches Err(e) ==> e is RhttpUnknownError,
{
    match builder_build(p.builder) {
        Ok(c) => Ok(
            RequestClient {
                client: c,
                http_version_pref: p.http_version_pref,
                throw_on_status_code: p.throw_on_status_code,
                fallback_resolver: p.fallback,
                cancel_token: new_cancel_token(),
            },
        ),
        Err(m) => Err(RhttpError::RhttpUnknownError { message: m }),
    }
}

/// The construction pipeline: validates and applies the settings, builds
/// the engine client, and returns the handle.  Aborts, fail-fast, with
/// the first invalid derived value; on valid settings only the engine's
/// own build step can still fail.
pub fn create_client(settings: ClientSettings) -> (r: Result<RequestClient, RhttpError>)
    ensures
        r.is_ok() ==> settings_valid(settings),
        r matches Ok(h) ==> {
            &&& client_config(h.client) == settings_ops(settings)
            &&& h.http_version_pref == settings.http_version_pref
            &&& h.throw_on_status_code == settings.throw_on_status_code
            &&& (match settings.dns_settings {
                Some(ds) => h.fallback_resolver.is_some() == ds.fallback.is_some() && (ds.fallback
                    matches Some(f) ==> f@ == ipv4_text(h.fallback_resolver.unwrap().address)),
                None => h.fallback_resolver.is_none(),
            })
        },
        r matches Err(e) ==> {
            if settings_valid(settings) {
                e is RhttpUnknownError
            } else {
                expected_error(settings, e)
            }
        },
{
    match configure(settings) {
        Ok(p) => finish(p),
        Err(e) => Err(e),
    }
}

impl RequestClient {
    /// Constructs a client from these settings: exactly the pipeline's
    /// outcome, nothing added.
    pub fn new(settings: ClientSettings) -> (r: Result<RequestClient, RhttpError>)
        ensures
            r.is_ok() ==> settings_valid(settings),
            r matches Ok(h) ==> {
                &&& client_config(h.client) == settings_ops(settings)
                &&& h.http_version_pref == settings.http_version_pref
                &&& h.throw_on_status_code == settings.throw_on_status_code
                &&& (match settings.dns_settings {
                    Some(ds) => h.fallback_resolver.is_some() == ds.fallback.is_some() && (
                    ds.fallback matches Some(f) ==> f@ == ipv4_text(
                        h.fallback_resolver.unwrap().address,
                    )),
                    None => h.fallback_resolver.is_none(),
                })
            },
            r matches Err(e) ==> {
                if settings_valid(settings) {
                    e is RhttpUnknownError
                } else {
                    expected_error(settings, e)
                }
            },
    {
        create_client(settings)
    }

    /// Constructs a client from the default settings, which are always
    /// valid: only the engine's own build step can fail.
    pub fn new_default() -> (r: Result<RequestClient, RhttpError>)
        ensures
            r matches Ok(h) ==> h.http_version_pref == HttpVersionPref::All
                && h.throw_on_status_code && h.fallback_resolver.is_none(),
            r matches Err(e) ==> e is RhttpUnknownError,
    {
        let settings = ClientSettings::default();
        proof {
            assert(settings_valid(settings));
        }
        create_client(settings)
    }

    /// Relies on tokio_util::sync::CancellationToken::cancel: requests
    /// cancellation of every operation observing this handle's token;
    /// idempotent.
    #[verifier::external_body]
    pub fn cancel(&self)
    {
        self.cancel_token.cancel()
    }

    /// Relies on tokio_util::sync::CancellationToken::is_cancelled:
    /// observes whether this handle's token has been cancelled.
    #[verifier::external_body]
    pub fn is_cancelled(&self) -> bool {
        self.cancel_token.is_cancelled()
    }
}

impl Clone for RequestClient {
    /// A clone shares the engine client, and with it the connection
    /// pools, and observes the very same cancellation token.
    fn clone(&self) -> (r: Self)
        ensures
            client_config(r.client) == client_config(self.client),
            token_instance(r.cancel_token) == token_instance(self.cancel_token),
            r.http_version_pref == self.http_version_pref,
            r.throw_on_status_code == self.throw_on_status_code,
            r.fallback_resolver == self.fallback_resolver,
    {
        RequestClient {
            client: self.client.clone(),
            http_version_pref: self.http_version_pref,
            throw_on_status_code: self.throw_on_status_code,
            fallback_resolver: self.fallback_resolver,
            cancel_token: self.cancel_token.clone(),
        }
    }
}

/// Law: settings that carry no certificate or address material, no
/// negative duration, and a version preference this engine supports are
/// always valid, so construction is owed past every validation step.
pub proof fn lemma_plain_settings_valid(s: ClientSettings)
    requires
        timeouts_valid(s.timeout_settings),
        s.tls_settings matches Some(tl) ==> tl.trusted_root_certificates@.len() == 0
            && tl.client_certificate.is_none(),
        s.dns_settings.is_none(),
        s.http_version_pref != HttpVersionPref::Http3,
    ensures
        settings_valid(s),
{
}

/// Law: a keep-alive timeout of exactly zero applies none of the three
/// keep-alive operations; a strictly positive one applies TCP keep-alive
/// and both HTTP/2 idle keep-alive operations with the same duration.
pub proof fn lemma_keep_alive_coupling(ts: TimeoutSettings)
    ensures
        (ts.keep_alive_timeout is Some && ts.keep_alive_timeout.unwrap().millis == 0)
            ==> forall|i: int|
            0 <= i < timeout_ops(Some(ts)).len() ==> !((#[trigger] timeout_ops(Some(ts))[i])
                is TcpKeepAlive) && !(timeout_ops(Some(ts))[i] is Http2KeepAliveWhileIdle) && !(
            timeout_ops(Some(ts))[i] is Http2KeepAliveTimeout),
        (ts.keep_alive_timeout is Some && ts.keep_alive_timeout.unwrap().millis > 0)
            ==> timeout_ops(Some(ts)).contains(
            BuildOp::TcpKeepAlive(ts.keep_alive_timeout.unwrap().millis as u64),
        ) && timeout_ops(Some(ts)).contains(BuildOp::Http2KeepAliveWhileIdle(true)) && timeout_ops(
            Some(ts),
        ).contains(BuildOp::Http2KeepAliveTimeout(ts.keep_alive_timeout.unwrap().millis as u64)),
{
    let ops = timeout_ops(Some(ts));
    let s1 = match ts.timeout {
        Some(d) => seq![BuildOp::TotalTimeout(d.millis as u64)],
        None => seq![],
    };
    let s2 = match ts.connect_timeout {
        Some(d) => seq![BuildOp::ConnectTimeout(d.millis as u64)],
        None => seq![],
    };
    let s3 = match ts.keep_alive_timeout {
        Some(d) => if d.millis > 0 {
            seq![
                BuildOp::TcpKeepAlive(d.millis as u64),
                BuildOp::Http2KeepAliveWhileIdle(true),
                BuildOp::Http2KeepAliveTimeout(d.millis as u64),
            ]
        } else {
            seq![]
        },
        None => seq![],
    };
    let s4 = match ts.keep_alive_ping {
        Some(d) => seq![BuildOp::Http2KeepAliveInterval(d.millis as u64)],
        None => seq![],
    };
    assert(ops =~= s1 + s2 + s3 + s4);
    if ts.keep_alive_timeout is Some && ts.keep_alive_timeout.unwrap().millis > 0 {
        let k = ts.keep_alive_timeout.unwrap();
        let base = (s1 + s2).len() as int;
        assert(ops[base] == BuildOp::TcpKeepAlive(k.millis as u64));
        assert(ops[base + 1] == BuildOp::Http2KeepAliveWhileIdle(true));
        assert(ops[base + 2] == BuildOp::Http2KeepAliveTimeout(k.millis as u64));
    }
}

} // verus!
