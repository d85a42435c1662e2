use reqwestx::client::codec::EXT_TYPE_KEY_SHARE;
use reqwestx::client::impersonate::{
    CurveID, SignatureScheme, TlsExtension, TlsVersion, GREASE_PLACEHOLDER,
};
use reqwestx::ffi::TlsExtensionFfi;

fn bare(ext_type: u16) -> TlsExtensionFfi {
    TlsExtensionFfi {
        ext_type,
        vec_u32: vec![],
        vec_u16: vec![],
        vec_u8: vec![],
        vec_usize: vec![],
        vec_string: vec![],
        data_isize: 0,
        data_bool: false,
    }
}

#[test]
fn the_default_record_is_bare() {
    assert_eq!(TlsExtensionFfi::default(), bare(0));
    assert_eq!(TlsExtensionFfi::bare(17513), bare(17513));
}

#[test]
fn extensions_without_payload_carry_their_number_only() {
    let cases = vec![
        (TlsExtension::ServerName, 0u16),
        (TlsExtension::StatusRequest, 5),
        (TlsExtension::StatusRequestV2, 17),
        (TlsExtension::SCT, 18),
        (TlsExtension::ExtendedMasterSecret, 23),
        (TlsExtension::SessionTicket, 35),
        (TlsExtension::QUICTransportParameters, 57),
        (TlsExtension::UtlsExtensionPadding, 21),
        (TlsExtension::UtlsExtensionECH, 0xfe0d),
        (TlsExtension::UtlsExtensionECHOuterExtensions, 0xfd00),
        (TlsExtension::FakeExtensionPreSharedKey, 41),
        (TlsExtension::TLSGrease, 0x0a0a),
        (TlsExtension::Custom(99), 99),
        (TlsExtension::Custom(0xffff), 0xffff),
    ];
    for (ext, number) in cases {
        assert_eq!(ext.ext_type(), number);
        assert_eq!(TlsExtensionFfi::from(ext), bare(number));
    }
}

#[test]
fn grease_is_the_placeholder() {
    assert_eq!(GREASE_PLACEHOLDER, 0x0a0a);
    assert_eq!(TlsExtensionFfi::from(TlsExtension::TLSGrease).ext_type, GREASE_PLACEHOLDER);
}

#[test]
fn curves_go_by_their_registry_numbers() {
    let ext = TlsExtension::SupportedCurves(vec![
        CurveID::Custom(GREASE_PLACEHOLDER),
        CurveID::X25519,
        CurveID::CurveP256,
        CurveID::CurveP384,
        CurveID::CurveP521,
    ]);
    let flat: TlsExtensionFfi = ext.into();
    assert_eq!(flat, TlsExtensionFfi { vec_u16: vec![0x0a0a, 29, 23, 24, 25], ..bare(10) });
}

#[test]
fn curve_numbers_and_back() {
    assert_eq!(CurveID::CurveP256.code(), 23);
    assert_eq!(CurveID::CurveP384.code(), 24);
    assert_eq!(CurveID::CurveP521.code(), 25);
    assert_eq!(CurveID::X25519.code(), 29);
    assert_eq!(CurveID::Custom(4588).code(), 4588);
    assert_eq!(CurveID::from_code(23), CurveID::CurveP256);
    assert_eq!(CurveID::from_code(24), CurveID::CurveP384);
    assert_eq!(CurveID::from_code(25), CurveID::CurveP521);
    assert_eq!(CurveID::from_code(29), CurveID::X25519);
    assert_eq!(CurveID::from_code(26), CurveID::Custom(26));
    assert_eq!(CurveID::from_code(0), CurveID::Custom(0));
}

#[test]
fn signature_schemes_go_by_their_registry_numbers() {
    let all = vec![
        (SignatureScheme::PKCS1WithSHA256, 0x0401u16),
        (SignatureScheme::PKCS1WithSHA384, 0x0501),
        (SignatureScheme::PKCS1WithSHA512, 0x0601),
        (SignatureScheme::PSSWithSHA256, 0x0804),
        (SignatureScheme::PSSWithSHA384, 0x0805),
        (SignatureScheme::PSSWithSHA512, 0x0806),
        (SignatureScheme::ECDSAWithP256AndSHA256, 0x0403),
        (SignatureScheme::ECDSAWithP384AndSHA384, 0x0503),
        (SignatureScheme::ECDSAWithP521AndSHA512, 0x0603),
        (SignatureScheme::Ed25519, 0x0807),
        (SignatureScheme::PKCS1WithSHA1, 0x0201),
        (SignatureScheme::ECDSAWithSHA1, 0x0203),
    ];
    for (scheme, number) in &all {
        assert_eq!(scheme.code(), *number);
    }
    let schemes: Vec<SignatureScheme> = all.iter().map(|p| p.0).collect();
    let numbers: Vec<u16> = all.iter().map(|p| p.1).collect();
    assert_eq!(
        TlsExtensionFfi::from(TlsExtension::SignatureAlgorithms(schemes.clone())),
        TlsExtensionFfi { vec_u16: numbers.clone(), ..bare(13) }
    );
    assert_eq!(
        TlsExtensionFfi::from(TlsExtension::SignatureAlgorithmsCert(schemes.clone())),
        TlsExtensionFfi { vec_u16: numbers.clone(), ..bare(50) }
    );
    assert_eq!(
        TlsExtensionFfi::from(TlsExtension::FakeExtensionDelegatedCredentials(schemes)),
        TlsExtensionFfi { vec_u16: numbers, ..bare(34) }
    );
}

#[test]
fn tls_versions_go_by_their_numbers() {
    assert_eq!(TlsVersion::VersionSSL30.code(), 0x0300);
    assert_eq!(TlsVersion::VersionTLS10.code(), 0x0301);
    assert_eq!(TlsVersion::VersionTLS11.code(), 0x0302);
    assert_eq!(TlsVersion::VersionTLS12.code(), 0x0303);
    assert_eq!(TlsVersion::VersionTLS13.code(), 0x0304);
}

#[test]
fn byte_lists_go_into_the_byte_slot() {
    assert_eq!(
        TlsExtensionFfi::from(TlsExtension::SupportedPoints(vec![0x00])),
        TlsExtensionFfi { vec_u8: vec![0], ..bare(11) }
    );
    assert_eq!(
        TlsExtensionFfi::from(TlsExtension::PSKModes(vec![1, 0])),
        TlsExtensionFfi { vec_u8: vec![1, 0], ..bare(45) }
    );
}

#[test]
fn number_lists_go_into_the_u16_slot() {
    assert_eq!(
        TlsExtensionFfi::from(TlsExtension::SupportedVersions(vec![0x0a0a, 0x0304, 0x0303])),
        TlsExtensionFfi { vec_u16: vec![0x0a0a, 0x0304, 0x0303], ..bare(43) }
    );
    assert_eq!(
        TlsExtensionFfi::from(TlsExtension::UtlsExtensionCompressCertificate(vec![0x0002])),
        TlsExtensionFfi { vec_u16: vec![2], ..bare(27) }
    );
}

#[test]
fn names_go_into_the_string_slot() {
    assert_eq!(
        TlsExtensionFfi::from(TlsExtension::ALPN(vec!["h2", "http/1.1"])),
        TlsExtensionFfi {
            vec_string: vec!["h2".to_string(), "http/1.1".to_string()],
            ..bare(16)
        }
    );
    assert_eq!(
        TlsExtensionFfi::from(TlsExtension::UtlsExtensionApplicationSettings(vec![
            "h2".to_string()
        ])),
        TlsExtensionFfi { vec_string: vec!["h2".to_string()], ..bare(17513) }
    );
}

#[test]
fn renegotiation_info_uses_scalar_and_bytes() {
    assert_eq!(
        TlsExtensionFfi::from(TlsExtension::RenegotiationInfo(1, vec![])),
        TlsExtensionFfi { data_isize: 1, ..bare(0xff01) }
    );
    assert_eq!(
        TlsExtensionFfi::from(TlsExtension::RenegotiationInfo(-2, vec![9, 8])),
        TlsExtensionFfi { data_isize: -2, vec_u8: vec![9, 8], ..bare(0xff01) }
    );
}

#[test]
fn token_binding_puts_the_versions_before_the_parameters() {
    assert_eq!(
        TlsExtensionFfi::from(TlsExtension::FakeExtensionTokenBinding(1, 0, vec![2, 1, 0])),
        TlsExtensionFfi { vec_u8: vec![1, 0, 2, 1, 0], ..bare(24) }
    );
    assert_eq!(
        TlsExtensionFfi::from(TlsExtension::FakeExtensionTokenBinding(0, 13, vec![])),
        TlsExtensionFfi { vec_u8: vec![0, 13], ..bare(24) }
    );
}

#[test]
fn channel_id_uses_the_flag() {
    assert_eq!(
        TlsExtensionFfi::from(TlsExtension::FakeOldExtensionChannelID(true)),
        TlsExtensionFfi { data_bool: true, ..bare(30031) }
    );
    assert_eq!(
        TlsExtensionFfi::from(TlsExtension::FakeExtensionChannelID(false)),
        bare(30032)
    );
    assert_eq!(
        TlsExtensionFfi::from(TlsExtension::FakeExtensionChannelID(true)),
        TlsExtensionFfi { data_bool: true, ..bare(30032) }
    );
}

#[test]
fn key_shares_go_into_three_slots() {
    let ext = TlsExtension::KeyShare(vec![
        (CurveID::Custom(GREASE_PLACEHOLDER), vec![0x00]),
        (CurveID::X25519, vec![]),
        (CurveID::CurveP256, vec![7, 8, 9]),
    ]);
    let flat = TlsExtensionFfi::from(ext);
    assert_eq!(
        flat,
        TlsExtensionFfi {
            vec_u16: vec![0x0a0a, 29, 23],
            vec_u8: vec![0, 7, 8, 9],
            vec_usize: vec![1, 0, 3],
            ..bare(51)
        }
    );
    assert_eq!(flat.vec_usize.len(), flat.vec_u16.len());
    assert_eq!(flat.vec_usize.iter().sum::<usize>(), flat.vec_u8.len());
}

#[test]
fn key_shares_come_back_from_the_record() {
    let shares = vec![
        (CurveID::Custom(GREASE_PLACEHOLDER), vec![0x00]),
        (CurveID::X25519, vec![]),
        (CurveID::CurveP521, vec![1, 2, 3, 4, 5]),
        (CurveID::CurveP384, vec![]),
        (CurveID::Custom(30), vec![255]),
    ];
    let flat = TlsExtensionFfi::from(TlsExtension::KeyShare(shares.clone()));
    assert_eq!(flat.key_shares(), Some(shares));
}

#[test]
fn no_key_shares_come_back_as_none() {
    let flat = TlsExtensionFfi::from(TlsExtension::KeyShare(vec![]));
    assert_eq!(flat, bare(EXT_TYPE_KEY_SHARE));
    assert_eq!(flat.key_shares(), Some(vec![]));
}

#[test]
fn a_custom_group_with_a_named_number_comes_back_named() {
    let flat = TlsExtensionFfi::from(TlsExtension::KeyShare(vec![(
        CurveID::Custom(23),
        vec![1],
    )]));
    assert_eq!(flat.key_shares(), Some(vec![(CurveID::CurveP256, vec![1])]));
}

#[test]
fn records_that_hold_no_key_shares() {
    // another extension
    assert_eq!(bare(10).key_shares(), None);
    // a length is missing
    let r = TlsExtensionFfi { vec_u16: vec![29, 23], vec_usize: vec![0], ..bare(51) };
    assert_eq!(r.key_shares(), None);
    // the lengths ask for more bytes than there are
    let r = TlsExtensionFfi { vec_u16: vec![29], vec_usize: vec![2], vec_u8: vec![1], ..bare(51) };
    assert_eq!(r.key_shares(), None);
    // bytes are left over
    let r = TlsExtensionFfi { vec_u16: vec![29], vec_usize: vec![1], vec_u8: vec![1, 2], ..bare(51) };
    assert_eq!(r.key_shares(), None);
    // a length beyond every buffer
    let r = TlsExtensionFfi {
        vec_u16: vec![29, 23],
        vec_usize: vec![1, usize::MAX],
        vec_u8: vec![1, 2],
        ..bare(51)
    };
    assert_eq!(r.key_shares(), None);
}

#[test]
fn a_record_made_by_hand_is_decoded() {
    let r = TlsExtensionFfi {
        vec_u16: vec![29, 6969],
        vec_usize: vec![2, 1],
        vec_u8: vec![10, 11, 12],
        ..bare(51)
    };
    assert_eq!(
        r.key_shares(),
        Some(vec![(CurveID::X25519, vec![10, 11]), (CurveID::Custom(6969), vec![12])])
    );
}
