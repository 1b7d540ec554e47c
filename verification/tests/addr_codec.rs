use p2p_core::addr::{BareIp, PeerAddr};
use p2p_core::global::{init_global_chain_type, set_local_chain_type, ChainTypes, GlobalState};
use p2p_core::ser::Error as SerError;
use p2p_core::types::Error;

#[test]
fn wire_format_ipv4_is_bit_exact() {
    let a = PeerAddr::Ipv4 { addr: [127, 0, 0, 1], port: 3414 };
    let bytes = a.encode().unwrap();
    assert_eq!(bytes, vec![0u8, 127, 0, 0, 1, 13, 86]);
}

#[test]
fn wire_format_ipv6_is_bit_exact() {
    let a = PeerAddr::Ipv6 { segs: [0x2001, 0x0db8, 0, 0, 0, 0, 0, 1], port: 0x0102 };
    let bytes = a.encode().unwrap();
    assert_eq!(
        bytes,
        vec![1u8, 0x20, 0x01, 0x0d, 0xb8, 0, 0, 0, 0, 0, 0, 0, 0, 0, 0, 0, 1, 1, 2]
    );
}

#[test]
fn wire_format_onion_is_length_prefixed() {
    let a = PeerAddr::Onion("ab".to_string());
    let bytes = a.encode().unwrap();
    assert_eq!(bytes, vec![2u8, 0, 0, 0, 0, 0, 0, 0, 2, b'a', b'b']);
}

#[test]
fn round_trip_ipv4() {
    let a = PeerAddr::Ipv4 { addr: [10, 1, 2, 3], port: 8080 };
    let bytes = a.encode().unwrap();
    let (back, next) = PeerAddr::read(&bytes, 0).unwrap();
    assert_eq!(next, bytes.len());
    match back {
        PeerAddr::Ipv4 { addr, port } => {
            assert_eq!(addr, [10, 1, 2, 3]);
            assert_eq!(port, 8080);
        }
        _ => panic!("wrong variant"),
    }
}

#[test]
fn round_trip_ipv6() {
    let a = PeerAddr::Ipv6 { segs: [0x2001, 0x0db8, 0, 0, 0, 0, 0, 7], port: 3414 };
    let bytes = a.encode().unwrap();
    let (back, next) = PeerAddr::read(&bytes, 0).unwrap();
    assert_eq!(next, bytes.len());
    match back {
        PeerAddr::Ipv6 { segs, port } => {
            assert_eq!(segs, [0x2001, 0x0db8, 0, 0, 0, 0, 0, 7]);
            assert_eq!(port, 3414);
        }
        _ => panic!("wrong variant"),
    }
}

#[test]
fn round_trip_onion_multibyte_utf8() {
    let a = PeerAddr::Onion("tör-service.onion".to_string());
    let bytes = a.encode().unwrap();
    let (back, next) = PeerAddr::read(&bytes, 0).unwrap();
    assert_eq!(next, bytes.len());
    match back {
        PeerAddr::Onion(host) => assert_eq!(host, "tör-service.onion"),
        _ => panic!("wrong variant"),
    }
}

#[test]
fn round_trip_at_offset() {
    let a = PeerAddr::Ipv4 { addr: [8, 8, 8, 8], port: 53 };
    let mut bytes = vec![0xaa, 0xbb];
    bytes.extend(a.encode().unwrap());
    let (back, next) = PeerAddr::read(&bytes, 2).unwrap();
    assert_eq!(next, bytes.len());
    assert!(matches!(back, PeerAddr::Ipv4 { addr: [8, 8, 8, 8], port: 53 }));
}

#[test]
fn mapped_ipv4_in_ipv6_canonicalizes_on_decode() {
    // The wire form ::ffff:127.0.0.1 decodes as the IPv4 variant.
    let a = PeerAddr::Ipv6 { segs: [0, 0, 0, 0, 0, 0xffff, 0x7f00, 0x0001], port: 3414 };
    let bytes = a.encode().unwrap();
    let (back, _) = PeerAddr::read(&bytes, 0).unwrap();
    match back {
        PeerAddr::Ipv4 { addr, port } => {
            assert_eq!(addr, [127, 0, 0, 1]);
            assert_eq!(port, 3414);
        }
        _ => panic!("mapped address did not canonicalize"),
    }
}

#[test]
fn compatible_ipv4_in_ipv6_canonicalizes_on_decode() {
    let a = PeerAddr::Ipv6 { segs: [0, 0, 0, 0, 0, 0, 0x0102, 0x0304], port: 1 };
    let bytes = a.encode().unwrap();
    let (back, _) = PeerAddr::read(&bytes, 0).unwrap();
    assert!(matches!(back, PeerAddr::Ipv4 { addr: [1, 2, 3, 4], port: 1 }));
}

#[test]
fn onion_size_guard() {
    // 101 bytes is refused, 100 bytes is accepted.
    let too_long = PeerAddr::Onion("a".repeat(101));
    match too_long.encode() {
        Err(SerError::TooLargeWriteErr(_)) => {}
        _ => panic!("oversized onion advertisement was not refused"),
    }
    let just_fits = PeerAddr::Onion("a".repeat(100));
    let bytes = just_fits.encode().unwrap();
    assert_eq!(bytes.len(), 1 + 8 + 100);
}

#[test]
fn onion_size_guard_counts_bytes_not_chars() {
    // 51 two-byte characters are 102 bytes.
    let too_long = PeerAddr::Onion("ö".repeat(51));
    assert!(too_long.encode().is_err());
    let just_fits = PeerAddr::Onion("ö".repeat(50));
    assert!(just_fits.encode().is_ok());
}

#[test]
fn malformed_utf8_onion_decodes_to_empty_name() {
    let bytes = vec![2u8, 0, 0, 0, 0, 0, 0, 0, 2, 0xff, 0xfe];
    let (back, next) = PeerAddr::read(&bytes, 0).unwrap();
    assert_eq!(next, bytes.len());
    match back {
        PeerAddr::Onion(host) => assert_eq!(host, ""),
        _ => panic!("wrong variant"),
    }
}

#[test]
fn unknown_tag_reads_as_onion() {
    let bytes = vec![9u8, 0, 0, 0, 0, 0, 0, 0, 2, b'h', b'i'];
    let (back, _) = PeerAddr::read(&bytes, 0).unwrap();
    assert!(matches!(back, PeerAddr::Onion(h) if h == "hi"));
}

#[test]
fn truncated_input_is_an_error() {
    assert!(matches!(PeerAddr::read(&[], 0), Err(SerError::UnexpectedEof)));
    assert!(matches!(PeerAddr::read(&[0u8, 127, 0, 0], 0), Err(SerError::UnexpectedEof)));
    assert!(matches!(PeerAddr::read(&[1u8, 0, 0], 0), Err(SerError::UnexpectedEof)));
    // Onion length prefix promising more bytes than remain.
    assert!(matches!(
        PeerAddr::read(&[2u8, 0, 0, 0, 0, 0, 0, 0, 9, b'a'], 0),
        Err(SerError::UnexpectedEof)
    ));
}

#[test]
fn equality_asymmetry() {
    // Loopback: the port takes part, so these differ.
    let l1 = PeerAddr::Ipv4 { addr: [127, 0, 0, 1], port: 3414 };
    let l2 = PeerAddr::Ipv4 { addr: [127, 0, 0, 1], port: 9999 };
    assert!(l1 != l2);
    // Not loopback: the port is ignored, so these are the same peer.
    let r1 = PeerAddr::Ipv4 { addr: [8, 8, 8, 8], port: 3414 };
    let r2 = PeerAddr::Ipv4 { addr: [8, 8, 8, 8], port: 9999 };
    assert!(r1 == r2);
    // Different hosts differ.
    let r3 = PeerAddr::Ipv4 { addr: [8, 8, 4, 4], port: 3414 };
    assert!(r1 != r3);
}

#[test]
fn equality_asymmetry_ipv6() {
    let l1 = PeerAddr::Ipv6 { segs: [0, 0, 0, 0, 0, 0, 0, 1], port: 3414 };
    let l2 = PeerAddr::Ipv6 { segs: [0, 0, 0, 0, 0, 0, 0, 1], port: 9999 };
    assert!(l1 != l2);
    let r1 = PeerAddr::Ipv6 { segs: [0x2001, 0, 0, 0, 0, 0, 0, 1], port: 3414 };
    let r2 = PeerAddr::Ipv6 { segs: [0x2001, 0, 0, 0, 0, 0, 0, 1], port: 9999 };
    assert!(r1 == r2);
}

#[test]
fn equality_across_variants_and_onion() {
    let ip = PeerAddr::Ipv4 { addr: [1, 2, 3, 4], port: 1 };
    let onion = PeerAddr::Onion("1.2.3.4".to_string());
    assert!(ip != onion);
    let o1 = PeerAddr::Onion("svc.onion".to_string());
    let o2 = PeerAddr::Onion("svc.onion".to_string());
    let o3 = PeerAddr::Onion("svc".to_string());
    assert!(o1 == o2);
    assert!(o1 != o3);
}

#[test]
fn as_key_ipv4() {
    let lo = PeerAddr::Ipv4 { addr: [127, 0, 0, 1], port: 3414 };
    assert_eq!(lo.as_key(), "127.0.0.1:3414");
    let remote = PeerAddr::Ipv4 { addr: [8, 8, 8, 8], port: 3414 };
    assert_eq!(remote.as_key(), "8.8.8.8");
}

#[test]
fn as_key_ipv6() {
    let remote = PeerAddr::Ipv6 { segs: [0x2001, 0x0db8, 0, 0, 0, 0, 0, 1], port: 3414 };
    assert_eq!(remote.as_key(), "2001:db8::1");
    let lo = PeerAddr::Ipv6 { segs: [0, 0, 0, 0, 0, 0, 0, 1], port: 3414 };
    assert_eq!(lo.as_key(), "::1:3414");
    let zero = PeerAddr::Ipv6 { segs: [0, 0, 0, 0, 0, 0, 0, 0], port: 1 };
    assert_eq!(zero.as_key(), "::");
    let mapped = PeerAddr::Ipv6 { segs: [0, 0, 0, 0, 0, 0xffff, 0x0102, 0x0304], port: 1 };
    assert_eq!(mapped.as_key(), "::ffff:1.2.3.4");
    // A single zero group is not compressed.
    let single = PeerAddr::Ipv6 { segs: [1, 0, 1, 1, 1, 1, 1, 1], port: 1 };
    assert_eq!(single.as_key(), "1:0:1:1:1:1:1:1");
    // The leftmost of two equal zero runs is the one compressed.
    let tie = PeerAddr::Ipv6 { segs: [1, 0, 0, 1, 0, 0, 1, 1], port: 1 };
    assert_eq!(tie.as_key(), "1::1:0:0:1:1");
}

#[test]
fn as_key_onion() {
    let o = PeerAddr::Onion("svc.onion".to_string());
    assert_eq!(o.as_key(), "svc.onion");
}

#[test]
fn tor_pubkey_strips_suffix() {
    let with = PeerAddr::Onion("abcdef.onion".to_string());
    assert_eq!(with.tor_pubkey().unwrap(), "abcdef");
    let without = PeerAddr::Onion("abcdef".to_string());
    assert_eq!(without.tor_pubkey().unwrap(), "abcdef");
    let short = PeerAddr::Onion("abc".to_string());
    assert_eq!(short.tor_pubkey().unwrap(), "abc");
    let ip = PeerAddr::Ipv4 { addr: [1, 2, 3, 4], port: 1 };
    assert!(matches!(ip.tor_pubkey(), Err(Error::Internal(_))));
}

#[test]
fn from_ip_attaches_profile_default_port() {
    let mut g = GlobalState::new();
    init_global_chain_type(&mut g, ChainTypes::Mainnet);
    let a = PeerAddr::from_ip(BareIp::V4([9, 9, 9, 9]), &g);
    assert!(matches!(a, PeerAddr::Ipv4 { addr: [9, 9, 9, 9], port: 3414 }));
    set_local_chain_type(&mut g, ChainTypes::Floonet);
    let b = PeerAddr::from_ip(BareIp::V6([0, 0, 0, 0, 0, 0, 0, 2]), &g);
    assert!(matches!(b, PeerAddr::Ipv6 { segs: [0, 0, 0, 0, 0, 0, 0, 2], port: 13414 }));
}

#[test]
fn from_str_resolved_prefers_parse_then_resolution() {
    let parsed = PeerAddr::Ipv4 { addr: [1, 1, 1, 1], port: 80 };
    let resolved = PeerAddr::Ipv4 { addr: [2, 2, 2, 2], port: 80 };
    let r1 = PeerAddr::from_str_resolved("1.1.1.1:80", Some(parsed.clone()), Some(resolved.clone()));
    assert!(matches!(r1, PeerAddr::Ipv4 { addr: [1, 1, 1, 1], .. }));
    let r2 = PeerAddr::from_str_resolved("example.test:80", None, Some(resolved));
    assert!(matches!(r2, PeerAddr::Ipv4 { addr: [2, 2, 2, 2], .. }));
    let r3 = PeerAddr::from_str_resolved("svc.onion", None, None);
    assert!(matches!(r3, PeerAddr::Onion(h) if h == "svc.onion"));
}
