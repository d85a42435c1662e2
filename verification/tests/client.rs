use http::header::{HeaderMap, HeaderValue};
use reqwestx::client::impersonate::{
    ClientHelloId, ClientHelloSpec, CurveID, Http2PriorityParam, Http2Setting,
    ImpersonationConfig, SignatureScheme, TlsExtension, TlsVersion, UTlsConfig,
    GREASE_PLACEHOLDER, TLS_AES_128_GCM_SHA256, TLS_AES_256_GCM_SHA384,
    TLS_CHACHA20_POLY1305_SHA256, TLS_ECDHE_ECDSA_WITH_AES_128_GCM_SHA256,
    TLS_ECDHE_ECDSA_WITH_AES_256_GCM_SHA384, TLS_ECDHE_ECDSA_WITH_CHACHA20_POLY1305,
    TLS_ECDHE_ECDSA_WITH_CHACHA20_POLY1305_SHA256, TLS_ECDHE_RSA_WITH_AES_128_CBC_SHA,
    TLS_ECDHE_RSA_WITH_AES_128_GCM_SHA256, TLS_ECDHE_RSA_WITH_AES_256_CBC_SHA,
    TLS_ECDHE_RSA_WITH_AES_256_GCM_SHA384, TLS_ECDHE_RSA_WITH_CHACHA20_POLY1305,
    TLS_ECDHE_RSA_WITH_CHACHA20_POLY1305_SHA256, TLS_FALLBACK_SCSV, TLS_RSA_WITH_AES_128_CBC_SHA,
    TLS_RSA_WITH_AES_128_GCM_SHA256, TLS_RSA_WITH_AES_256_CBC_SHA,
    TLS_RSA_WITH_AES_256_GCM_SHA384, TLS_RSA_WITH_RC4_128_SHA,
};
use reqwestx::client::{
    init_client, receive, send, set_proxy, update_impersonation_config, BoundaryCall,
    ClientConfig, ClientState, Profile,
};
use reqwestx::error::go_error::GoError;
use reqwestx::error::ErrorType;
use reqwestx::ffi::{
    ClientHelloIdFfi, ClientHelloSpecFfi, GoResultFfi, GoResultHttpResponseFfi, HttpHeaderFfi,
    HttpRequestFfi, HttpResponseFfi, ImpersonationConfigFfi, TlsExtensionFfi, UTlsConfigFfi,
};
use reqwestx::response::HttpVersion;
use reqwestx::request::{Method, Request, Uri};

fn ok() -> GoResultFfi {
    GoResultFfi { code: 0, message: String::new() }
}

fn failed(code: i32, message: &str) -> GoResultFfi {
    GoResultFfi { code, message: message.to_string() }
}

fn direct() -> ClientConfig {
    ClientConfig { proxy: "direct".to_string(), impersonation_template: 0 }
}

fn bare(ext_type: u16) -> TlsExtensionFfi {
    TlsExtensionFfi::bare(ext_type)
}

fn profile() -> ImpersonationConfig {
    let mut common_headers = HeaderMap::with_capacity(16);
    common_headers.insert("pragma", HeaderValue::from_static("no-cache"));
    common_headers.insert("cache-control", HeaderValue::from_static("no-cache"));
    common_headers.insert("sec-ch-ua-mobile", HeaderValue::from_static("?0"));
    common_headers.append("accept", HeaderValue::from_static("text/html"));
    common_headers.append("accept", HeaderValue::from_static("*/*;q=0.8"));
    common_headers.insert("x-bytes", HeaderValue::from_bytes(b"caf\xe9").unwrap());
    ImpersonationConfig {
        utls_config: UTlsConfig { id: ClientHelloId::Custom, spec: None },
        http2_settings_frame: vec![
            Http2Setting { setting_id: 0x1, setting_val: 65536 },
            Http2Setting { setting_id: 0x2, setting_val: 0 },
            Http2Setting { setting_id: 0x3, setting_val: 1000 },
            Http2Setting { setting_id: 0x4, setting_val: 6291456 },
            Http2Setting { setting_id: 0x6, setting_val: 262144 },
        ],
        http2_connection_flow: 15663105,
        common_pseudo_header_order: vec![
            ":method".to_string(),
            ":authority".to_string(),
            ":scheme".to_string(),
            ":path".to_string(),
        ],
        common_header_order: vec!["host".to_string(), "pragma".to_string(), "cookie".to_string()],
        common_headers,
        http2_header_priority: Http2PriorityParam { exclusive: true, stream_dep: 0, weight: 255 },
    }
}

#[test]
fn the_cipher_suite_numbers() {
    assert_eq!(TLS_RSA_WITH_RC4_128_SHA, 0x0005);
    assert_eq!(TLS_AES_128_GCM_SHA256, 0x1301);
    assert_eq!(TLS_AES_256_GCM_SHA384, 0x1302);
    assert_eq!(TLS_CHACHA20_POLY1305_SHA256, 0x1303);
    assert_eq!(TLS_FALLBACK_SCSV, 0x5600);
    assert_eq!(TLS_ECDHE_RSA_WITH_CHACHA20_POLY1305, 0xcca8);
    assert_eq!(TLS_ECDHE_ECDSA_WITH_CHACHA20_POLY1305, 0xcca9);
    assert_eq!(
        TLS_ECDHE_RSA_WITH_CHACHA20_POLY1305,
        TLS_ECDHE_RSA_WITH_CHACHA20_POLY1305_SHA256
    );
    assert_eq!(
        TLS_ECDHE_ECDSA_WITH_CHACHA20_POLY1305,
        TLS_ECDHE_ECDSA_WITH_CHACHA20_POLY1305_SHA256
    );
}

#[test]
fn browsers_and_their_names() {
    let all = [
        (ClientHelloId::Firefox("105"), "Firefox", "105"),
        (ClientHelloId::Chrome("106"), "Chrome", "106"),
        (ClientHelloId::IOS("14"), "iOS", "14"),
        (ClientHelloId::Android11Okhttp("11"), "Android", "11"),
        (ClientHelloId::Edge("85"), "Edge", "85"),
        (ClientHelloId::Safari("16.0"), "Safari", "16.0"),
        (ClientHelloId::Custom, "Custom", "0"),
    ];
    for (id, client, version) in all {
        assert_eq!(id.client(), client);
        assert_eq!(id.version(), version);
    }
}

#[test]
fn a_new_client_hello_in_flat_form() {
    let expected = ClientHelloSpecFfi {
        cipher_suites: vec![],
        compression_methods: vec![0],
        extensions: vec![],
        tls_version_min: 0x0303,
        tls_version_max: 0x0304,
    };
    assert_eq!(ClientHelloSpecFfi::from(ClientHelloSpec::new()), expected);
    assert_eq!(ClientHelloSpecFfi::from(ClientHelloSpec::default()), expected);
}

#[test]
fn the_builder_sets_and_adds() {
    let spec = ClientHelloSpec::new()
        .add_cipher_suite(GREASE_PLACEHOLDER)
        .add_cipher_suites(vec![TLS_AES_128_GCM_SHA256, TLS_AES_256_GCM_SHA384])
        .add_cipher_suite(TLS_AES_128_GCM_SHA256)
        .set_compression_method(vec![1, 0])
        .add_extension(TlsExtension::ServerName)
        .add_extensions(vec![TlsExtension::SCT, TlsExtension::PSKModes(vec![1])])
        .add_extension(TlsExtension::TLSGrease)
        .set_tls_version_min(TlsVersion::VersionTLS10)
        .set_tls_version_max(TlsVersion::VersionTLS12);
    assert_eq!(
        ClientHelloSpecFfi::from(spec),
        ClientHelloSpecFfi {
            cipher_suites: vec![0x0a0a, 0x1301, 0x1302, 0x1301],
            compression_methods: vec![1, 0],
            extensions: vec![
                bare(0),
                bare(18),
                TlsExtensionFfi { vec_u8: vec![1], ..bare(45) },
                bare(0x0a0a),
            ],
            tls_version_min: 0x0301,
            tls_version_max: 0x0303,
        }
    );
}

#[test]
fn set_replaces_what_was_there() {
    let spec = ClientHelloSpec::new()
        .add_cipher_suite(1)
        .set_cipher_suites(vec![
            TLS_ECDHE_ECDSA_WITH_AES_128_GCM_SHA256,
            TLS_ECDHE_RSA_WITH_AES_128_GCM_SHA256,
        ])
        .add_extension(TlsExtension::SCT)
        .set_extensions(false, vec![TlsExtension::StatusRequest, TlsExtension::SessionTicket]);
    let flat = ClientHelloSpecFfi::from(spec);
    assert_eq!(flat.cipher_suites, vec![0xc02b, 0xc02f]);
    assert_eq!(flat.extensions, vec![bare(5), bare(35)]);
    assert_eq!(flat.compression_methods, vec![0]);
}

#[test]
fn a_chrome_like_client_hello_in_flat_form() {
    let spec = ClientHelloSpec::new()
        .set_cipher_suites(vec![
            GREASE_PLACEHOLDER,
            TLS_AES_128_GCM_SHA256,
            TLS_AES_256_GCM_SHA384,
            TLS_CHACHA20_POLY1305_SHA256,
            TLS_ECDHE_ECDSA_WITH_AES_128_GCM_SHA256,
            TLS_ECDHE_RSA_WITH_AES_128_GCM_SHA256,
            TLS_ECDHE_ECDSA_WITH_AES_256_GCM_SHA384,
            TLS_ECDHE_RSA_WITH_AES_256_GCM_SHA384,
            TLS_ECDHE_ECDSA_WITH_CHACHA20_POLY1305,
            TLS_ECDHE_RSA_WITH_CHACHA20_POLY1305,
            TLS_ECDHE_RSA_WITH_AES_128_CBC_SHA,
            TLS_ECDHE_RSA_WITH_AES_256_CBC_SHA,
            TLS_RSA_WITH_AES_128_GCM_SHA256,
            TLS_RSA_WITH_AES_256_GCM_SHA384,
            TLS_RSA_WITH_AES_128_CBC_SHA,
            TLS_RSA_WITH_AES_256_CBC_SHA,
        ])
        .set_extensions(
            false,
            vec![
                TlsExtension::TLSGrease,
                TlsExtension::ServerName,
                TlsExtension::ExtendedMasterSecret,
                TlsExtension::RenegotiationInfo(1, vec![]),
                TlsExtension::SupportedCurves(vec![
                    CurveID::Custom(GREASE_PLACEHOLDER),
                    CurveID::X25519,
                    CurveID::CurveP256,
                    CurveID::CurveP384,
                ]),
                TlsExtension::SupportedPoints(vec![0x00]),
                TlsExtension::SessionTicket,
                TlsExtension::ALPN(vec!["h2", "http/1.1"]),
                TlsExtension::StatusRequest,
                TlsExtension::SignatureAlgorithms(vec![
                    SignatureScheme::ECDSAWithP256AndSHA256,
                    SignatureScheme::PSSWithSHA256,
                    SignatureScheme::PKCS1WithSHA256,
                    SignatureScheme::ECDSAWithP384AndSHA384,
                    SignatureScheme::PSSWithSHA384,
                    SignatureScheme::PKCS1WithSHA384,
                    SignatureScheme::PSSWithSHA512,
                    SignatureScheme::PKCS1WithSHA512,
                ]),
                TlsExtension::SCT,
                TlsExtension::KeyShare(vec![
                    (CurveID::Custom(GREASE_PLACEHOLDER), vec![0x00]),
                    (CurveID::X25519, vec![]),
                ]),
                TlsExtension::PSKModes(vec![1]),
                TlsExtension::SupportedVersions(vec![
                    GREASE_PLACEHOLDER,
                    TlsVersion::VersionTLS13.code(),
                    TlsVersion::VersionTLS12.code(),
                ]),
                TlsExtension::UtlsExtensionCompressCertificate(vec![0x0002]),
                TlsExtension::UtlsExtensionApplicationSettings(vec!["h2".to_string()]),
                TlsExtension::TLSGrease,
                TlsExtension::UtlsExtensionPadding,
            ],
        );
    let flat = UTlsConfigFfi::from(UTlsConfig { id: ClientHelloId::Custom, spec: Some(spec) });
    assert_eq!(flat.id, ClientHelloIdFfi { client: "Custom".to_string(), version: "0".to_string() });
    assert_eq!(
        flat.spec.cipher_suites,
        vec![
            0x0a0a, 0x1301, 0x1302, 0x1303, 0xc02b, 0xc02f, 0xc02c, 0xc030, 0xcca9, 0xcca8, 0xc013,
            0xc014, 0x009c, 0x009d, 0x002f, 0x0035
        ]
    );
    assert_eq!(flat.spec.compression_methods, vec![0]);
    assert_eq!(flat.spec.tls_version_min, 0x0303);
    assert_eq!(flat.spec.tls_version_max, 0x0304);
    assert_eq!(
        flat.spec.extensions,
        vec![
            bare(0x0a0a),
            bare(0),
            bare(23),
            TlsExtensionFfi { data_isize: 1, ..bare(0xff01) },
            TlsExtensionFfi { vec_u16: vec![0x0a0a, 29, 23, 24], ..bare(10) },
            TlsExtensionFfi { vec_u8: vec![0], ..bare(11) },
            bare(35),
            TlsExtensionFfi {
                vec_string: vec!["h2".to_string(), "http/1.1".to_string()],
                ..bare(16)
            },
            bare(5),
            TlsExtensionFfi {
                vec_u16: vec![0x0403, 0x0804, 0x0401, 0x0503, 0x0805, 0x0501, 0x0806, 0x0601],
                ..bare(13)
            },
            bare(18),
            TlsExtensionFfi {
                vec_u16: vec![0x0a0a, 29],
                vec_u8: vec![0],
                vec_usize: vec![1, 0],
                ..bare(51)
            },
            TlsExtensionFfi { vec_u8: vec![1], ..bare(45) },
            TlsExtensionFfi { vec_u16: vec![0x0a0a, 0x0304, 0x0303], ..bare(43) },
            TlsExtensionFfi { vec_u16: vec![2], ..bare(27) },
            TlsExtensionFfi { vec_string: vec!["h2".to_string()], ..bare(17513) },
            bare(0x0a0a),
            bare(21),
        ]
    );
}

#[test]
fn a_tls_config_without_client_hello_gets_a_new_one() {
    let flat = UTlsConfigFfi::from(UTlsConfig { id: ClientHelloId::Chrome("106"), spec: None });
    assert_eq!(
        flat,
        UTlsConfigFfi {
            id: ClientHelloIdFfi { client: "Chrome".to_string(), version: "106".to_string() },
            spec: ClientHelloSpecFfi::from(ClientHelloSpec::new()),
        }
    );
}

#[test]
fn a_profile_in_flat_form() {
    let flat = ImpersonationConfigFfi::from(profile());
    assert_eq!(
        flat.utls_config,
        UTlsConfigFfi::from(UTlsConfig { id: ClientHelloId::Custom, spec: None })
    );
    assert_eq!(flat.http2_settings_frame.len(), 5);
    assert_eq!(flat.http2_settings_frame[3], Http2Setting { setting_id: 4, setting_val: 6291456 });
    assert_eq!(flat.http2_connection_flow, 15663105);
    assert_eq!(flat.common_pseudo_header_order, vec![":method", ":authority", ":scheme", ":path"]);
    assert_eq!(flat.common_header_order, vec!["host", "pragma", "cookie"]);
    assert_eq!(
        flat.http2_header_priority,
        Http2PriorityParam { exclusive: true, stream_dep: 0, weight: 255 }
    );
    assert_eq!(
        flat.common_headers,
        vec![
            HttpHeaderFfi { k: "pragma".to_string(), v: vec!["no-cache".to_string()] },
            HttpHeaderFfi { k: "cache-control".to_string(), v: vec!["no-cache".to_string()] },
            HttpHeaderFfi { k: "sec-ch-ua-mobile".to_string(), v: vec!["?0".to_string()] },
            HttpHeaderFfi {
                k: "accept".to_string(),
                v: vec!["text/html".to_string(), "*/*;q=0.8".to_string()]
            },
            HttpHeaderFfi { k: "x-bytes".to_string(), v: vec![String::new()] },
        ]
    );
}

#[test]
fn a_new_state_is_uninitialized() {
    let state = ClientState::new();
    assert!(!state.is_configured());
    assert_eq!(state.proxy(), None);
    assert_eq!(state.profile(), None);
    assert_eq!(state.guard(), Err(ErrorType::GoError(GoError::ClientNotInitialized)));
}

#[test]
fn initialising_configures_the_client() {
    let mut state = ClientState::new();
    let call = init_client(direct());
    assert_eq!(call, BoundaryCall::InitClient(direct()));
    assert_eq!(state.complete(call, ok()), Ok(()));
    assert!(state.is_configured());
    assert_eq!(state.proxy(), Some("direct"));
    assert_eq!(state.profile(), Some(Profile::Template(0)));
    assert_eq!(state.guard(), Ok(()));
}

#[test]
fn a_failed_initialisation_changes_nothing() {
    let mut state = ClientState::new();
    let r = state.complete(init_client(direct()), failed(3, "no such proxy"));
    assert_eq!(r, Err(ErrorType::GoError(GoError::Unknown("no such proxy".to_string()))));
    assert!(!state.is_configured());
}

#[test]
fn updates_are_refused_before_the_initialisation() {
    let state = ClientState::new();
    assert_eq!(
        set_proxy(&state, "socks5://127.0.0.1:9923".to_string()),
        Err(ErrorType::GoError(GoError::ClientNotInitialized))
    );
    assert_eq!(
        update_impersonation_config(&state, profile()),
        Err(ErrorType::GoError(GoError::ClientNotInitialized))
    );
}

#[test]
fn an_update_that_the_engine_accepts_without_initialisation_is_not_recorded() {
    let mut state = ClientState::new();
    let r = state.complete(BoundaryCall::SetProxy("auto".to_string()), ok());
    assert_eq!(r, Ok(()));
    assert!(!state.is_configured());
}

#[test]
fn the_last_proxy_counts() {
    let mut state = ClientState::new();
    state.complete(init_client(direct()), ok()).unwrap();
    let call = set_proxy(&state, "socks5://127.0.0.1:9923".to_string()).unwrap();
    assert_eq!(call, BoundaryCall::SetProxy("socks5://127.0.0.1:9923".to_string()));
    state.complete(call, ok()).unwrap();
    assert_eq!(state.proxy(), Some("socks5://127.0.0.1:9923"));
    let call = set_proxy(&state, "env".to_string()).unwrap();
    state.complete(call, ok()).unwrap();
    assert_eq!(state.proxy(), Some("env"));
    let call = set_proxy(&state, "env".to_string()).unwrap();
    state.complete(call, ok()).unwrap();
    assert_eq!(state.proxy(), Some("env"));
    assert_eq!(state.profile(), Some(Profile::Template(0)));
}

#[test]
fn a_refused_update_changes_nothing() {
    let mut state = ClientState::new();
    state.complete(init_client(direct()), ok()).unwrap();
    let call = set_proxy(&state, "nonsense".to_string()).unwrap();
    let r = state.complete(call, failed(-1_000_000, "not initialized"));
    assert_eq!(r, Err(ErrorType::GoError(GoError::ClientNotInitialized)));
    assert_eq!(state.proxy(), Some("direct"));
    assert!(state.is_configured());
}

#[test]
fn a_profile_of_the_callers_takes_the_place_of_the_template() {
    let mut state = ClientState::new();
    let config = ClientConfig { proxy: "direct".to_string(), impersonation_template: 0xff };
    state.complete(init_client(config), ok()).unwrap();
    assert_eq!(state.profile(), Some(Profile::Template(255)));
    let call = update_impersonation_config(&state, profile()).unwrap();
    assert_eq!(
        call,
        BoundaryCall::UpdateImpersonationConfig(ImpersonationConfigFfi::from(profile()))
    );
    let r = state.complete(call, failed(-1_001_001, "unknown extension type 99999"));
    assert_eq!(
        r,
        Err(ErrorType::GoError(GoError::InvalidTlsExtension(
            "unknown extension type 99999".to_string()
        )))
    );
    assert_eq!(state.profile(), Some(Profile::Template(255)));
    let call = update_impersonation_config(&state, profile()).unwrap();
    state.complete(call, ok()).unwrap();
    assert_eq!(state.profile(), Some(Profile::Custom));
    assert_eq!(state.proxy(), Some("direct"));
}

#[test]
fn initialising_again_starts_over() {
    let mut state = ClientState::new();
    state.complete(init_client(direct()), ok()).unwrap();
    let call = update_impersonation_config(&state, profile()).unwrap();
    state.complete(call, ok()).unwrap();
    let again = ClientConfig { proxy: "auto".to_string(), impersonation_template: 2 };
    state.complete(init_client(again), ok()).unwrap();
    assert_eq!(state.proxy(), Some("auto"));
    assert_eq!(state.profile(), Some(Profile::Template(2)));
}

#[test]
fn a_request_is_refused_before_the_initialisation() {
    let state = ClientState::new();
    let request = Request::get(Uri::parse("https://example.test/").unwrap());
    assert_eq!(send(&state, request), Err(ErrorType::GoError(GoError::ClientNotInitialized)));
}

#[test]
fn an_unsupported_verb_is_refused_first() {
    let uri = Uri::parse("https://example.test/").unwrap();
    let state = ClientState::new();
    let request = Request::new(uri.clone(), Method::from_name("TRACE"));
    assert_eq!(send(&state, request), Err(ErrorType::UnsupportedHttpMethod));
    let mut state = ClientState::new();
    state.complete(init_client(direct()), ok()).unwrap();
    let request = Request::new(uri, Method::from_name("TRACE"));
    assert_eq!(send(&state, request), Err(ErrorType::UnsupportedHttpMethod));
}

#[test]
fn a_request_of_a_configured_client_goes_out() {
    let mut state = ClientState::new();
    state.complete(init_client(direct()), ok()).unwrap();
    let request = Request::get(Uri::parse("https://example.test/").unwrap());
    assert_eq!(
        send(&state, request),
        Ok(HttpRequestFfi {
            url: "https://example.test/".to_string(),
            method: 0,
            body: vec![],
            headers: vec![],
        })
    );
}

fn answer(code: i32, status: isize, major: isize, minor: isize) -> GoResultHttpResponseFfi {
    GoResultHttpResponseFfi {
        code,
        message: "message".to_string(),
        data: HttpResponseFfi {
            code: status,
            proto_major: major,
            proto_minor: minor,
            headers: vec![HttpHeaderFfi {
                k: "set-cookie".to_string(),
                v: vec!["a".to_string(), "b".to_string()],
            }],
            data: b"body".to_vec(),
        },
    }
}

#[test]
fn a_good_answer_becomes_a_response() {
    let versions = [
        (1, 0, HttpVersion::Http10),
        (1, 1, HttpVersion::Http11),
        (2, 0, HttpVersion::Http2),
        (3, 0, HttpVersion::Http3),
    ];
    for status in [200isize, 204, 301, 404, 500, 599] {
        for (major, minor, version) in versions {
            let r = receive(answer(0, status, major, minor)).unwrap().unwrap();
            assert_eq!(r.status() as isize, status);
            assert_eq!(r.version(), version);
            assert_eq!(r.headers().len(), 2);
            assert_eq!(r.body(), &b"body".to_vec());
        }
    }
}

#[test]
fn an_answer_with_a_code_becomes_an_error() {
    let r = receive(answer(-1_000_000, 200, 1, 1));
    assert_eq!(r.err(), Some(ErrorType::GoError(GoError::ClientNotInitialized)));
    let r = receive(answer(9, 200, 1, 1));
    assert_eq!(r.err(), Some(ErrorType::GoError(GoError::Unknown("message".to_string()))));
}

#[test]
fn an_answer_that_is_no_response_becomes_none() {
    assert!(receive(answer(0, 200, 4, 0)).unwrap().is_none());
    assert!(receive(answer(0, 99, 1, 1)).unwrap().is_none());
}
