use p2p_core::addr::{BareIp, PeerAddr};
use p2p_core::consensus::{Difficulty, ProtocolVersion};
use p2p_core::types::{
    Capabilities, Direction, P2PConfig, PeerInfo, PeerLiveInfo, ReasonForBan, Seeding,
    CAP_FULL_NODE, CAP_HEADER_HIST, CAP_PEER_LIST, CAP_TOR_ADDRESS, CAP_TXHASHSET_HIST,
    CAP_TX_KERNEL_HASH,
};

#[test]
fn full_node_is_union_of_all_defined_bits() {
    let full = Capabilities::full_node();
    assert_eq!(
        full.bits,
        CAP_HEADER_HIST | CAP_TXHASHSET_HIST | CAP_PEER_LIST | CAP_TX_KERNEL_HASH | CAP_TOR_ADDRESS
    );
    assert!(full.contains(Capabilities::from_bits(CAP_PEER_LIST)));
    assert!(full.contains(Capabilities::from_bits(CAP_TOR_ADDRESS)));
    assert!(!Capabilities::unknown().contains(Capabilities::from_bits(CAP_HEADER_HIST)));
}

#[test]
fn negotiation_intersects_advertised_sets() {
    let ours = Capabilities::full_node();
    let theirs = Capabilities::from_bits(CAP_HEADER_HIST | CAP_PEER_LIST | 0b1000_0000);
    let shared = ours.intersection(theirs);
    assert_eq!(shared.bits, CAP_HEADER_HIST | CAP_PEER_LIST);
    // Unknown future bits are carried, never rejected.
    assert_eq!(theirs.bits & 0b1000_0000, 0b1000_0000);
    assert_eq!(ours.union(theirs).bits, CAP_FULL_NODE | 0b1000_0000);
}

#[test]
fn config_defaults_and_overrides() {
    let c = P2PConfig::default();
    assert!(matches!(c.host, BareIp::V4([0, 0, 0, 0])));
    assert_eq!(c.port, 3414);
    assert_eq!(c.seeding_type, Seeding::DNSSeed);
    assert_eq!(c.capabilities.bits, CAP_FULL_NODE);
    assert_eq!(c.ban_window(), 10800);
    assert_eq!(c.peer_max_inbound_count(), 128);
    assert_eq!(c.peer_max_outbound_count(), 8);
    assert_eq!(c.peer_min_preferred_outbound_count(), 8);
    assert_eq!(c.peer_listener_buffer_count(), 8);
    let over = P2PConfig { ban_window: Some(60), peer_max_outbound_count: Some(2), ..c };
    assert_eq!(over.ban_window(), 60);
    assert_eq!(over.peer_max_outbound_count(), 2);
    assert_eq!(over.peer_max_inbound_count(), 128);
}

#[test]
fn seeding_defaults_to_dns() {
    assert_eq!(Seeding::default(), Seeding::DNSSeed);
    assert_ne!(Seeding::NoSeeding, Seeding::Programmatic);
}

#[test]
fn ban_reasons_are_distinct() {
    assert_ne!(ReasonForBan::NotBanned, ReasonForBan::BadBlock);
    assert_ne!(ReasonForBan::ManualBan, ReasonForBan::FraudHeight);
    assert_ne!(ReasonForBan::BadHandshake, ReasonForBan::BadTxHashSet);
}

#[test]
fn new_live_info_samples_one_instant() {
    let li = PeerLiveInfo::new(Difficulty::from_num(9));
    assert_eq!(li.total_difficulty.to_num(), 9);
    assert_eq!(li.height, 0);
    assert_eq!(li.first_seen, li.last_seen);
    assert_eq!(li.last_seen, li.stuck_detector);
}

#[test]
fn liveness_update_semantics() {
    let mut li = PeerLiveInfo::new_at(Difficulty::from_num(5), 1_000);
    // An update with an unchanged difficulty refreshes everything except
    // the stuck detector.
    li.update_at(10, Difficulty::from_num(5), 2_000);
    assert_eq!(li.height, 10);
    assert_eq!(li.total_difficulty.to_num(), 5);
    assert_eq!(li.last_seen, 2_000);
    assert_eq!(li.first_seen, 1_000);
    assert_eq!(li.stuck_detector, 1_000);
    // Repeating it changes nothing further about the detector.
    li.update_at(10, Difficulty::from_num(5), 3_000);
    assert_eq!(li.stuck_detector, 1_000);
    assert_eq!(li.last_seen, 3_000);
    // A changed difficulty advances the detector to the call's own time.
    li.update_at(11, Difficulty::from_num(7), 4_000);
    assert_eq!(li.stuck_detector, 4_000);
    assert_eq!(li.height, 11);
    assert_eq!(li.total_difficulty.to_num(), 7);
}

fn sample_peer(direction: Direction) -> PeerInfo {
    PeerInfo {
        capabilities: Capabilities::full_node(),
        user_agent: "node".to_string(),
        version: ProtocolVersion(3),
        addr: PeerAddr::Ipv4 { addr: [8, 8, 8, 8], port: 3414 },
        direction,
        live_info: PeerLiveInfo::new_at(Difficulty::from_num(1), 500),
        header_sync_requested: 0,
        last_header: 500,
        last_header_reset: 500,
    }
}

#[test]
fn peer_direction_predicates() {
    assert!(sample_peer(Direction::Outbound).is_outbound());
    assert!(sample_peer(Direction::OutboundTor).is_outbound());
    assert!(!sample_peer(Direction::Inbound).is_outbound());
    assert!(!sample_peer(Direction::InboundTor).is_outbound());
    assert!(sample_peer(Direction::Inbound).is_inbound());
    assert!(sample_peer(Direction::InboundTor).is_inbound());
    assert!(!sample_peer(Direction::Outbound).is_inbound());
}

#[test]
fn peer_update_through_getters() {
    let mut p = sample_peer(Direction::Outbound);
    assert_eq!(p.total_difficulty().to_num(), 1);
    assert_eq!(p.height(), 0);
    assert_eq!(p.first_seen(), 500);
    let stuck_before = p.live_info.stuck_detector;
    // Unchanged difficulty: the stuck detector stays put.
    p.update(42, Difficulty::from_num(1));
    assert_eq!(p.height(), 42);
    assert_eq!(p.total_difficulty().to_num(), 1);
    assert_eq!(p.live_info.stuck_detector, stuck_before);
    assert_eq!(p.first_seen(), 500);
    // Changed difficulty: the detector advances to the update's time.
    p.update(43, Difficulty::from_num(2));
    assert_eq!(p.total_difficulty().to_num(), 2);
    assert_eq!(p.live_info.stuck_detector, p.last_seen());
}

#[test]
fn codec_errors_wrap_with_provenance() {
    let e = p2p_core::types::Error::from(p2p_core::ser::Error::UnexpectedEof);
    assert!(matches!(
        e,
        p2p_core::types::Error::Serialization(p2p_core::ser::Error::UnexpectedEof)
    ));
}
