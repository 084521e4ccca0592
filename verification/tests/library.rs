use rhttp::addr::{parse_ipv4, Ipv4};
use rhttp::client::{create_client, RequestClient};
use rhttp::error::RhttpError;
use rhttp::resolver::{lookup, plan_dns, StaticResolver};
use rhttp::settings::{
    ClientSettings, DnsOverride, DnsSettings, HttpVersionPref, ProxySettings, RedirectSettings,
    TimeSpan, TimeoutSettings, TlsSettings,
};

fn ip(a: u8, b: u8, c: u8, d: u8) -> Ipv4 {
    Ipv4 { a, b, c, d }
}

#[test]
fn default_settings() {
    let s = ClientSettings::default();
    assert!(matches!(s.http_version_pref, HttpVersionPref::All));
    assert!(s.timeout_settings.is_none());
    assert!(s.throw_on_status_code);
    assert!(s.proxy_settings.is_none());
    assert!(s.redirect_settings.is_none());
    assert!(s.tls_settings.is_none());
    assert!(s.dns_settings.is_none());
}

#[test]
fn parse_ipv4_accepts_literals() {
    assert_eq!(parse_ipv4("1.2.3.4"), Some(ip(1, 2, 3, 4)));
    assert_eq!(parse_ipv4("0.0.0.0"), Some(ip(0, 0, 0, 0)));
    assert_eq!(parse_ipv4("255.255.255.255"), Some(ip(255, 255, 255, 255)));
    assert_eq!(parse_ipv4("9.9.9.9"), Some(ip(9, 9, 9, 9)));
    assert_eq!(parse_ipv4("192.168.10.1"), Some(ip(192, 168, 10, 1)));
}

#[test]
fn parse_ipv4_rejects_non_literals() {
    assert_eq!(parse_ipv4(""), None);
    assert_eq!(parse_ipv4("not-an-ip"), None);
    assert_eq!(parse_ipv4("1.2.3"), None);
    assert_eq!(parse_ipv4("1.2.3.4.5"), None);
    assert_eq!(parse_ipv4("256.1.1.1"), None);
    assert_eq!(parse_ipv4("01.2.3.4"), None);
    assert_eq!(parse_ipv4("1.2.3.4 "), None);
    assert_eq!(parse_ipv4("1..3.4"), None);
    assert_eq!(parse_ipv4("1.2.3.1234"), None);
}

#[test]
fn plain_settings_construct_and_keep_fields() {
    let settings = ClientSettings {
        http_version_pref: HttpVersionPref::Http11,
        throw_on_status_code: false,
        proxy_settings: Some(ProxySettings::NoProxy),
        redirect_settings: Some(RedirectSettings::LimitedRedirects(5)),
        ..ClientSettings::default()
    };
    let handle = create_client(settings).unwrap();
    assert!(matches!(handle.http_version_pref, HttpVersionPref::Http11));
    assert!(!handle.throw_on_status_code);
    assert!(handle.fallback_resolver.is_none());
}

#[test]
fn default_client_constructs() {
    let handle = RequestClient::new_default().unwrap();
    assert!(matches!(handle.http_version_pref, HttpVersionPref::All));
    assert!(handle.throw_on_status_code);
}

#[test]
fn no_redirect_constructs() {
    let settings = ClientSettings {
        redirect_settings: Some(RedirectSettings::NoRedirect),
        ..ClientSettings::default()
    };
    assert!(create_client(settings).is_ok());
}

#[test]
fn timeouts_apply() {
    let settings = ClientSettings {
        timeout_settings: Some(TimeoutSettings {
            timeout: Some(TimeSpan { millis: 30_000 }),
            connect_timeout: Some(TimeSpan { millis: 5_000 }),
            keep_alive_timeout: Some(TimeSpan { millis: 60_000 }),
            keep_alive_ping: Some(TimeSpan { millis: 15_000 }),
        }),
        ..ClientSettings::default()
    };
    assert!(create_client(settings).is_ok());
}

#[test]
fn zero_keep_alive_timeout_is_inert() {
    let settings = ClientSettings {
        timeout_settings: Some(TimeoutSettings {
            timeout: None,
            connect_timeout: None,
            keep_alive_timeout: Some(TimeSpan { millis: 0 }),
            keep_alive_ping: None,
        }),
        ..ClientSettings::default()
    };
    assert!(create_client(settings).is_ok());
}

#[test]
fn negative_duration_aborts() {
    let settings = ClientSettings {
        timeout_settings: Some(TimeoutSettings {
            timeout: Some(TimeSpan { millis: -1 }),
            connect_timeout: None,
            keep_alive_timeout: None,
            keep_alive_ping: None,
        }),
        ..ClientSettings::default()
    };
    let err = create_client(settings).err().unwrap();
    assert!(matches!(err, RhttpError::RhttpInvalidDurationError));
}

#[test]
fn invalid_root_certificate_aborts() {
    let settings = ClientSettings {
        tls_settings: Some(TlsSettings {
            trust_root_certificates: true,
            trusted_root_certificates: vec![b"not a pem certificate".to_vec()],
            verify_certificates: true,
            client_certificate: None,
            min_tls_version: None,
            max_tls_version: None,
        }),
        ..ClientSettings::default()
    };
    let err = create_client(settings).err().unwrap();
    assert!(matches!(err, RhttpError::RhttpInvalidCertificateError { index: 0 }));
}

#[test]
fn invalid_identity_aborts() {
    let settings = ClientSettings {
        tls_settings: Some(TlsSettings {
            trust_root_certificates: true,
            trusted_root_certificates: Vec::new(),
            verify_certificates: true,
            client_certificate: Some(rhttp::settings::ClientCertificate {
                certificate: b"junk".to_vec(),
                private_key: b"junk".to_vec(),
            }),
            min_tls_version: None,
            max_tls_version: None,
        }),
        ..ClientSettings::default()
    };
    let err = create_client(settings).err().unwrap();
    assert!(matches!(err, RhttpError::RhttpInvalidIdentityError));
}

#[test]
fn invalid_override_address_aborts_naming_literal() {
    let settings = ClientSettings {
        dns_settings: Some(DnsSettings {
            overrides: vec![DnsOverride {
                hostname: "example.test".to_string(),
                addresses: vec!["1.2.3.4".to_string(), "not-an-ip".to_string()],
            }],
            fallback: None,
        }),
        ..ClientSettings::default()
    };
    match create_client(settings) {
        Err(RhttpError::RhttpInvalidAddressError { literal, reason }) => {
            assert_eq!(literal, "not-an-ip");
            assert!(!reason.is_empty());
        }
        other => panic!("expected an invalid-address error, got {:?}", other.map(|_| ())),
    }
}

#[test]
fn invalid_fallback_address_aborts_naming_literal() {
    let settings = ClientSettings {
        dns_settings: Some(DnsSettings {
            overrides: Vec::new(),
            fallback: Some("999.0.0.1".to_string()),
        }),
        ..ClientSettings::default()
    };
    match create_client(settings) {
        Err(RhttpError::RhttpInvalidAddressError { literal, .. }) => {
            assert_eq!(literal, "999.0.0.1");
        }
        _ => panic!("expected an invalid-address error"),
    }
}

#[test]
fn fallback_resolves_every_hostname() {
    let settings = ClientSettings {
        dns_settings: Some(DnsSettings {
            overrides: Vec::new(),
            fallback: Some("9.9.9.9".to_string()),
        }),
        ..ClientSettings::default()
    };
    let handle = create_client(settings).unwrap();
    let resolver = handle.fallback_resolver.unwrap();
    assert_eq!(resolver.resolve("anything.example"), ip(9, 9, 9, 9));
    assert_eq!(resolver.resolve("completely.other.name"), ip(9, 9, 9, 9));
    assert_eq!(resolver.resolve(""), ip(9, 9, 9, 9));
}

#[test]
fn override_takes_precedence_over_fallback() {
    let dns = DnsSettings {
        overrides: vec![DnsOverride {
            hostname: "a.test".to_string(),
            addresses: vec!["10.0.0.1".to_string()],
        }],
        fallback: Some("10.0.0.2".to_string()),
    };
    let plan = plan_dns(&dns).unwrap();
    assert_eq!(lookup(&plan, &"a.test".to_string()), Some(vec![ip(10, 0, 0, 1)]));
    assert_eq!(lookup(&plan, &"b.test".to_string()), Some(vec![ip(10, 0, 0, 2)]));
    assert_eq!(lookup(&plan, &"".to_string()), Some(vec![ip(10, 0, 0, 2)]));
}

#[test]
fn later_override_wins_for_same_hostname() {
    let dns = DnsSettings {
        overrides: vec![
            DnsOverride {
                hostname: "a.test".to_string(),
                addresses: vec!["10.0.0.1".to_string()],
            },
            DnsOverride {
                hostname: "a.test".to_string(),
                addresses: vec!["10.0.0.3".to_string()],
            },
        ],
        fallback: None,
    };
    let plan = plan_dns(&dns).unwrap();
    assert_eq!(lookup(&plan, &"a.test".to_string()), Some(vec![ip(10, 0, 0, 3)]));
    assert_eq!(lookup(&plan, &"b.test".to_string()), None);
}

#[test]
fn static_resolver_ignores_hostname() {
    let r = StaticResolver { address: ip(1, 1, 1, 1) };
    assert_eq!(r.resolve("x"), ip(1, 1, 1, 1));
    assert_eq!(r.resolve("y.example"), ip(1, 1, 1, 1));
}

#[test]
fn http3_is_reported_as_engine_gap() {
    let settings = ClientSettings {
        http_version_pref: HttpVersionPref::Http3,
        ..ClientSettings::default()
    };
    let err = create_client(settings).err().unwrap();
    assert!(matches!(err, RhttpError::RhttpUnknownError { .. }));
}

#[test]
fn http2_prior_knowledge_constructs() {
    let settings = ClientSettings {
        http_version_pref: HttpVersionPref::Http2,
        ..ClientSettings::default()
    };
    assert!(create_client(settings).is_ok());
}

#[test]
fn cancellation_is_shared_across_clones() {
    let handle = RequestClient::new_default().unwrap();
    let clone_a = handle.clone();
    let clone_b = handle.clone();
    assert!(!handle.is_cancelled());
    assert!(!clone_a.is_cancelled());
    clone_a.cancel();
    assert!(handle.is_cancelled());
    assert!(clone_a.is_cancelled());
    assert!(clone_b.is_cancelled());
}

#[test]
fn cancelling_twice_is_a_no_op() {
    let handle = RequestClient::new_default().unwrap();
    handle.cancel();
    assert!(handle.is_cancelled());
    handle.cancel();
    assert!(handle.is_cancelled());
    let clone = handle.clone();
    clone.cancel();
    assert!(clone.is_cancelled());
}

#[test]
fn dns_overrides_install_and_construct() {
    let settings = ClientSettings {
        dns_settings: Some(DnsSettings {
            overrides: vec![
                DnsOverride {
                    hostname: "a.test".to_string(),
                    addresses: vec!["10.0.0.1".to_string(), "10.0.0.2".to_string()],
                },
                DnsOverride {
                    hostname: "b.test".to_string(),
                    addresses: vec!["10.0.0.3".to_string()],
                },
            ],
            fallback: Some("10.0.0.4".to_string()),
        }),
        ..ClientSettings::default()
    };
    let handle = create_client(settings).unwrap();
    let resolver = handle.fallback_resolver.unwrap();
    assert_eq!(resolver.resolve("c.test"), ip(10, 0, 0, 4));
}

#[test]
fn configure_succeeds_on_plain_settings() {
    let settings = ClientSettings {
        http_version_pref: HttpVersionPref::Http10,
        timeout_settings: Some(TimeoutSettings {
            timeout: Some(TimeSpan { millis: 1 }),
            connect_timeout: None,
            keep_alive_timeout: Some(TimeSpan { millis: 0 }),
            keep_alive_ping: None,
        }),
        ..ClientSettings::default()
    };
    let prepared = rhttp::client::configure(settings).unwrap();
    assert!(matches!(prepared.http_version_pref, HttpVersionPref::Http10));
    assert!(prepared.throw_on_status_code);
    assert!(prepared.fallback.is_none());
}

#[test]
fn negative_keep_alive_ping_aborts() {
    let settings = ClientSettings {
        timeout_settings: Some(TimeoutSettings {
            timeout: None,
            connect_timeout: None,
            keep_alive_timeout: None,
            keep_alive_ping: Some(TimeSpan { millis: -5 }),
        }),
        ..ClientSettings::default()
    };
    let err = create_client(settings).err().unwrap();
    assert!(matches!(err, RhttpError::RhttpInvalidDurationError));
}

#[test]
fn tls_options_construct() {
    let settings = ClientSettings {
        tls_settings: Some(TlsSettings {
            trust_root_certificates: false,
            trusted_root_certificates: Vec::new(),
            verify_certificates: false,
            client_certificate: None,
            min_tls_version: Some(rhttp::settings::TlsVersion::Tls1_2),
            max_tls_version: Some(rhttp::settings::TlsVersion::Tls1_3),
        }),
        ..ClientSettings::default()
    };
    assert!(create_client(settings).is_ok());
}
