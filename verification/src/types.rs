//! Vocabulary of the peer-to-peer layer: its error taxonomy, the
//! capability bits, direction and ban-reason codes exchanged during peer
//! interaction, the server configuration, and the per-peer liveness
//! record.
use crate::addr::{BareIp, PeerAddr};
use crate::consensus::{Difficulty, ProtocolVersion};
use crate::ser;
use vstd::prelude::*;

verus! {

/// Maximum number of block headers a peer should ever send.
pub const MAX_BLOCK_HEADERS: u32 = 512;

/// Maximum number of block bodies a peer should ever ask for and send.
pub const MAX_BLOCK_BODIES: u32 = 16;

/// Maximum number of peer addresses a peer should ever send.
pub const MAX_PEER_ADDRS: u32 = 256;

/// Maximum number of block header hashes to send as part of a locator.
pub const MAX_LOCATORS: u32 = 20;

/// How long a banned peer stays banned, in seconds.
pub const BAN_WINDOW: i64 = 10800;

/// The default maximum number of inbound peer connections.
pub const PEER_MAX_INBOUND_COUNT: u32 = 128;

/// The default maximum number of outbound peer connections.
pub const PEER_MAX_OUTBOUND_COUNT: u32 = 8;

/// The default minimum number of preferred outbound peers.
pub const PEER_MIN_PREFERRED_OUTBOUND_COUNT: u32 = 8;

/// The default listener overflow buffer: connections accepted beyond the
/// inbound ceiling to encourage network bootstrapping.
pub const PEER_LISTENER_BUFFER_COUNT: u32 = 8;

/// The tagged error of the peer-to-peer layer. Errors of collaborating
/// subsystems (serialization, connection transport, store, chain) are
/// wrapped with the originating subsystem, so logs keep provenance.
#[derive(Clone, Debug)]
pub enum Error {
    /// A wire encoding or decoding failed.
    Serialization(ser::Error),
    /// The connection transport failed; the message says how.
    Connection(String),
    /// A message header does not match the expected message type.
    BadMessage,
    /// A message length field is out of bounds.
    MsgLen,
    /// The peer is banned.
    Banned,
    /// The peer closed the connection.
    ConnectionClose,
    /// The peer timed out.
    Timeout,
    /// The peer store failed; the message says how.
    Store(String),
    /// The chain rejected the data; the message says how.
    Chain(String),
    /// The dialed address is our own.
    PeerWithSelf,
    /// No relay peer is configured for staged transaction relay.
    NoDandelionRelay,
    /// The peer runs a chain with a different genesis block.
    GenesisMismatch {
        /// Our genesis block hash.
        us: Vec<u8>,
        /// The peer's genesis block hash.
        peer: Vec<u8>,
    },
    /// Sending to the peer failed; the message says how.
    Send(String),
    /// No such peer is known.
    PeerNotFound,
    /// The peer is not banned.
    PeerNotBanned,
    /// The peer misbehaved; the message says how.
    PeerException(String),
    /// An internal invariant of this layer was violated.
    Internal(String),
}

impl From<ser::Error> for Error {
    /// A codec error wraps into the serialization arm of this layer's
    /// error, keeping its provenance.
    fn from(e: ser::Error) -> (r: Error) {
        Error::Serialization(e)
    }
}

impl vstd::std_specs::convert::FromSpecImpl<ser::Error> for Error {
    open spec fn obeys_from_spec() -> bool {
        true
    }

    open spec fn from_spec(e: ser::Error) -> Error {
        Error::Serialization(e)
    }
}

/// The features a peer advertises, as a forward-compatible bit set:
/// unknown future bits are carried, never rejected.
#[derive(Clone, Copy, Debug, PartialEq, Eq, Structural)]
pub struct Capabilities {
    /// The raw advertised bits.
    pub bits: u32,
}

/// Bit advertising a full header history back to genesis.
pub const CAP_HEADER_HIST: u32 = 0b0000_0001;

/// Bit advertising block headers and a recent-enough state archive.
pub const CAP_TXHASHSET_HIST: u32 = 0b0000_0010;

/// Bit advertising a list of healthy peers.
pub const CAP_PEER_LIST: u32 = 0b0000_0100;

/// Bit advertising transaction broadcast and request by kernel hash.
pub const CAP_TX_KERNEL_HASH: u32 = 0b0000_1000;

/// Bit advertising the exchange of Tor addresses.
pub const CAP_TOR_ADDRESS: u32 = 0b0001_0000;

/// The bits of a full node: the union of every currently defined
/// capability. Archival nodes keep longer histories internally but do
/// not advertise it.
pub const CAP_FULL_NODE: u32 = 0b0001_1111;

impl Capabilities {
    /// Nothing known (yet) about what the peer can do.
    pub fn unknown() -> (r: Capabilities)
        ensures
            r.bits == 0,
    {
        Capabilities { bits: 0 }
    }

    /// The capabilities every full node advertises.
    pub fn full_node() -> (r: Capabilities)
        ensures
            r.bits == CAP_FULL_NODE,
    {
        Capabilities { bits: CAP_FULL_NODE }
    }

    /// A capability set from raw advertised bits; unknown bits are kept.
    pub fn from_bits(bits: u32) -> (r: Capabilities)
        ensures
            r.bits == bits,
    {
        Capabilities { bits }
    }

    /// Whether every capability of `other` is advertised here.
    pub fn contains(&self, other: Capabilities) -> (r: bool)
        ensures
            r == (self.bits & other.bits == other.bits),
    {
        self.bits & other.bits == other.bits
    }

    /// The capabilities advertised by both peers; negotiation keeps the
    /// intersection of the two advertised sets.
    pub fn intersection(&self, other: Capabilities) -> (r: Capabilities)
        ensures
            r.bits == self.bits & other.bits,
    {
        Capabilities { bits: self.bits & other.bits }
    }

    /// The capabilities advertised by either peer.
    pub fn union(&self, other: Capabilities) -> (r: Capabilities)
        ensures
            r.bits == self.bits | other.bits,
    {
        Capabilities { bits: self.bits | other.bits }
    }
}

/// The direction of a peer connection, and whether it is Tor-tunneled.
#[derive(Clone, Copy, Debug, PartialEq, Eq, Structural)]
pub enum Direction {
    /// The peer dialed us.
    Inbound,
    /// We dialed the peer.
    Outbound,
    /// The peer dialed us over Tor.
    InboundTor,
    /// We dialed the peer over Tor.
    OutboundTor,
}

/// The recorded reason a peer was banned, a closed ordered code consumed
/// by the external ban-enforcement policy.
#[derive(Clone, Copy, Debug, PartialEq, Eq, Structural)]
pub enum ReasonForBan {
    /// Not banned.
    NotBanned,
    /// Sent a structurally invalid block.
    BadBlock,
    /// Sent a structurally invalid compact block.
    BadCompactBlock,
    /// Sent a structurally invalid block header.
    BadBlockHeader,
    /// Sent a structurally invalid state archive.
    BadTxHashSet,
    /// Banned by the operator.
    ManualBan,
    /// Claimed a fraudulent chain height.
    FraudHeight,
    /// Failed the handshake.
    BadHandshake,
}

/// How the server finds other peers on the network at startup.
#[derive(Clone, Copy, Debug, PartialEq, Eq, Structural)]
pub enum Seeding {
    /// No seeding, mostly for tests that connect programmatically.
    NoSeeding,
    /// A list of seed addresses or DNS names handed to the server.
    List,
    /// A list of seeds obtained from multiple DNS names.
    DNSSeed,
    /// Connections are initiated programmatically, mostly for tests.
    Programmatic,
}

impl Default for Seeding {
    /// Seeding defaults to DNS discovery.
    fn default() -> (r: Seeding)
        ensures
            r == Seeding::DNSSeed,
    {
        Seeding::DNSSeed
    }
}

/// A batch of peer addresses, as exchanged with other peers or listed in
/// the configuration.
#[derive(Clone, Debug)]
pub struct PeerAddrs {
    /// The addresses, in the order received.
    pub peers: Vec<PeerAddr>,
}

/// Configuration of the peer-to-peer server. The optional fields need not
/// appear in a configuration file; each resolves to a fixed default
/// through its getter and never reads as absent.
#[derive(Clone, Debug)]
pub struct P2PConfig {
    /// The address the listener binds to.
    pub host: BareIp,
    /// The port the listener binds to.
    pub port: u16,
    /// How the list of seed nodes for the initial bootstrap is obtained.
    pub seeding_type: Seeding,
    /// The list of seed nodes, when seeding from a list.
    pub seeds: Option<PeerAddrs>,
    /// The capabilities this node advertises, and which it prefers in
    /// the peers it connects to.
    pub capabilities: Capabilities,
    /// Addresses allowed to connect, when set.
    pub peers_allow: Option<PeerAddrs>,
    /// Addresses refused, when set.
    pub peers_deny: Option<PeerAddrs>,
    /// Addresses this node prefers to connect to.
    pub peers_preferred: Option<PeerAddrs>,
    /// Override of the ban duration, in seconds.
    pub ban_window: Option<i64>,
    /// Override of the inbound connection ceiling.
    pub peer_max_inbound_count: Option<u32>,
    /// Override of the outbound connection ceiling.
    pub peer_max_outbound_count: Option<u32>,
    /// Override of the minimum preferred-outbound count.
    pub peer_min_preferred_outbound_count: Option<u32>,
    /// Override of the listener overflow buffer size.
    pub peer_listener_buffer_count: Option<u32>,
    /// The single designated relay peer for staged transaction relay.
    pub dandelion_peer: Option<PeerAddr>,
}

impl Default for P2PConfig {
    /// The default configuration: listen on every IPv4 interface at port
    /// 3414, advertise a full node, seed from DNS, and leave every
    /// override unset.
    fn default() -> (r: P2PConfig)
        ensures
            r.host matches BareIp::V4(a) && a@ =~= seq![0u8, 0u8, 0u8, 0u8],
            r.port == 3414,
            r.seeding_type == Seeding::DNSSeed,
            r.seeds is None,
            r.capabilities.bits == CAP_FULL_NODE,
            r.peers_allow is None,
            r.peers_deny is None,
            r.peers_preferred is None,
            r.ban_window is None,
            r.peer_max_inbound_count is None,
            r.peer_max_outbound_count is None,
            r.peer_min_preferred_outbound_count is None,
            r.peer_listener_buffer_count is None,
            r.dandelion_peer is None,
    {
        P2PConfig {
            host: BareIp::V4([0, 0, 0, 0]),
            port: 3414,
            seeding_type: Seeding::DNSSeed,
            seeds: None,
            capabilities: Capabilities::full_node(),
            peers_allow: None,
            peers_deny: None,
            peers_preferred: None,
            ban_window: None,
            peer_max_inbound_count: None,
            peer_max_outbound_count: None,
            peer_min_preferred_outbound_count: None,
            peer_listener_buffer_count: None,
            dandelion_peer: None,
        }
    }
}

impl P2PConfig {
    /// The ban window: the configured override, else the default.
    pub fn ban_window(&self) -> (r: i64)
        ensures
            r == match self.ban_window {
                Some(n) => n,
                None => BAN_WINDOW,
            },
    {
        match self.ban_window {
            Some(n) => n,
            None => BAN_WINDOW,
        }
    }

    /// The inbound connection ceiling: the override, else the default.
    pub fn peer_max_inbound_count(&self) -> (r: u32)
        ensures
            r == match self.peer_max_inbound_count {
                Some(n) => n,
                None => PEER_MAX_INBOUND_COUNT,
            },
    {
        match self.peer_max_inbound_count {
            Some(n) => n,
            None => PEER_MAX_INBOUND_COUNT,
        }
    }

    /// The outbound connection ceiling: the override, else the default.
    pub fn peer_max_outbound_count(&self) -> (r: u32)
        ensures
            r == match self.peer_max_outbound_count {
                Some(n) => n,
                None => PEER_MAX_OUTBOUND_COUNT,
            },
    {
        match self.peer_max_outbound_count {
            Some(n) => n,
            None => PEER_MAX_OUTBOUND_COUNT,
        }
    }

    /// The minimum preferred-outbound count: the override, else the
    /// default.
    pub fn peer_min_preferred_outbound_count(&self) -> (r: u32)
        ensures
            r == match self.peer_min_preferred_outbound_count {
                Some(n) => n,
                None => PEER_MIN_PREFERRED_OUTBOUND_COUNT,
            },
    {
        match self.peer_min_preferred_outbound_count {
            Some(n) => n,
            None => PEER_MIN_PREFERRED_OUTBOUND_COUNT,
        }
    }

    /// The listener overflow buffer size: the override, else the default.
    pub fn peer_listener_buffer_count(&self) -> (r: u32)
        ensures
            r == match self.peer_listener_buffer_count {
                Some(n) => n,
                None => PEER_LISTENER_BUFFER_COUNT,
            },
    {
        match self.peer_listener_buffer_count {
            Some(n) => n,
            None => PEER_LISTENER_BUFFER_COUNT,
        }
    }
}

/// The boundary toward peer discovery, implemented by each embedding
/// context (the production node, or a test double). The chain-facing
/// half of that boundary — block, transaction and state-archive
/// submission — lives with the embedder beside it.
pub trait NetAdapter {
    /// Good known peers advertising the given capabilities.
    fn find_peer_addrs(&self, capab: Capabilities) -> Vec<PeerAddr>;

    /// A batch of peer addresses heard from one of our peers.
    fn peer_addrs_received(&self, addrs: Vec<PeerAddr>);

    /// A difficulty and height heard from a connected peer.
    fn peer_difficulty(&self, addr: PeerAddr, diff: Difficulty, height: u64);

    /// Whether this address is currently banned.
    fn is_banned(&self, addr: PeerAddr) -> bool;
}

/// Relies on chrono's Utc::now: the current UTC time, in milliseconds
/// since the epoch. The value depends on the system clock, so nothing is
/// promised of it; callers state how they store it, not what it is.
#[verifier::external_body]
fn now_millis() -> i64 {
    chrono::Utc::now().timestamp_millis()
}

/// The observed liveness of one connected peer: what it last reported
/// and when. All timestamps are UTC milliseconds. Owned by one
/// [`PeerInfo`] and mutated only through its update operation; the
/// embedding server shares it under a reader/writer lock, one per peer,
/// so updates for different peers never contend.
#[derive(Clone, Copy, Debug)]
pub struct PeerLiveInfo {
    /// The total chain difficulty the peer last reported.
    pub total_difficulty: Difficulty,
    /// The chain height the peer last reported.
    pub height: u64,
    /// When the peer was last heard from.
    pub last_seen: i64,
    /// When the peer's reported difficulty last changed. The external
    /// stuck-peer policy disconnects a peer whose detector is older than
    /// [`crate::global::STUCK_PEER_KICK_TIME`] while it trails our chain.
    pub stuck_detector: i64,
    /// When the peer was first seen.
    pub first_seen: i64,
}

impl PeerLiveInfo {
    /// The record after one liveness signal at time `now`: height,
    /// difficulty and last-seen always take the new values, and the stuck
    /// detector resets to `now` exactly when the reported difficulty
    /// changed.
    pub open spec fn spec_updated(self, height: u64, total_difficulty: Difficulty, now: i64)
        -> PeerLiveInfo {
        PeerLiveInfo {
            total_difficulty,
            height,
            last_seen: now,
            stuck_detector: if total_difficulty != self.total_difficulty {
                now
            } else {
                self.stuck_detector
            },
            first_seen: self.first_seen,
        }
    }

    /// A record created at handshake completion, at time `now`: the
    /// peer's announced difficulty, height zero, every timestamp `now`.
    pub fn new_at(difficulty: Difficulty, now: i64) -> (r: PeerLiveInfo)
        ensures
            r == (PeerLiveInfo {
                total_difficulty: difficulty,
                height: 0,
                last_seen: now,
                stuck_detector: now,
                first_seen: now,
            }),
    {
        PeerLiveInfo {
            total_difficulty: difficulty,
            height: 0,
            last_seen: now,
            stuck_detector: now,
            first_seen: now,
        }
    }

    /// A record created at handshake completion: the peer's announced
    /// difficulty, height zero, and all three timestamps the same,
    /// sampled from the clock.
    pub fn new(difficulty: Difficulty) -> (r: PeerLiveInfo)
        ensures
            r == PeerLiveInfo::spec_new_at(difficulty, r.last_seen),
    {
        let now = now_millis();
        PeerLiveInfo::new_at(difficulty, now)
    }

    /// The record `new_at` builds.
    pub open spec fn spec_new_at(difficulty: Difficulty, now: i64) -> PeerLiveInfo {
        PeerLiveInfo {
            total_difficulty: difficulty,
            height: 0,
            last_seen: now,
            stuck_detector: now,
            first_seen: now,
        }
    }

    /// Record a liveness signal observed at time `now`, as
    /// `spec_updated` describes.
    pub fn update_at(&mut self, height: u64, total_difficulty: Difficulty, now: i64)
        ensures
            *final(self) == old(self).spec_updated(height, total_difficulty, now),
    {
        if total_difficulty != self.total_difficulty {
            self.stuck_detector = now;
        }
        self.height = height;
        self.total_difficulty = total_difficulty;
        self.last_seen = now;
    }
}

/// A liveness signal with an unchanged difficulty leaves the stuck
/// detector where it was, however often it repeats; one with a changed
/// difficulty advances it to the signal's own time.
pub proof fn lemma_stuck_detector(
    info: PeerLiveInfo,
    height: u64,
    difficulty: Difficulty,
    now: i64,
)
    ensures
        difficulty == info.total_difficulty ==> info.spec_updated(
            height,
            difficulty,
            now,
        ).stuck_detector == info.stuck_detector,
        difficulty != info.total_difficulty ==> info.spec_updated(
            height,
            difficulty,
            now,
        ).stuck_detector == now,
{
}

/// What a connected peer is: its immutable identity, fixed at handshake,
/// the liveness record updated for the life of the connection, and the
/// header-sync bookkeeping beside it.
#[derive(Clone, Debug)]
pub struct PeerInfo {
    /// The capabilities the peer advertised.
    pub capabilities: Capabilities,
    /// The user agent the peer announced.
    pub user_agent: String,
    /// The protocol version negotiated with the peer.
    pub version: ProtocolVersion,
    /// The address the peer is known under.
    pub addr: PeerAddr,
    /// Which side dialed, and whether over Tor.
    pub direction: Direction,
    /// The observed liveness of the peer; the embedding server shares it
    /// under a per-peer reader/writer lock.
    pub live_info: PeerLiveInfo,
    /// Number of header requests in flight to this peer.
    pub header_sync_requested: u64,
    /// When the last headers arrived from this peer, in UTC milliseconds.
    pub last_header: i64,
    /// When the header-sync bookkeeping was last reset.
    pub last_header_reset: i64,
}

impl PeerInfo {
    /// The total difficulty the peer last reported.
    pub fn total_difficulty(&self) -> (r: Difficulty)
        ensures
            r == self.live_info.total_difficulty,
    {
        self.live_info.total_difficulty
    }

    /// Whether we dialed the peer, directly or over Tor.
    pub fn is_outbound(&self) -> (r: bool)
        ensures
            r == (self.direction == Direction::Outbound || self.direction
                == Direction::OutboundTor),
    {
        self.direction == Direction::Outbound || self.direction == Direction::OutboundTor
    }

    /// Whether the peer dialed us, directly or over Tor.
    pub fn is_inbound(&self) -> (r: bool)
        ensures
            r == (self.direction == Direction::Inbound || self.direction == Direction::InboundTor),
    {
        self.direction == Direction::Inbound || self.direction == Direction::InboundTor
    }

    /// The chain height the peer last reported.
    pub fn height(&self) -> (r: u64)
        ensures
            r == self.live_info.height,
    {
        self.live_info.height
    }

    /// When the peer was last heard from.
    pub fn last_seen(&self) -> (r: i64)
        ensures
            r == self.live_info.last_seen,
    {
        self.live_info.last_seen
    }

    /// When the peer was first seen.
    pub fn first_seen(&self) -> (r: i64)
        ensures
            r == self.live_info.first_seen,
    {
        self.live_info.first_seen
    }

    /// Record a liveness signal from the peer (a ping, pong or header
    /// announcement): height, difficulty and last-seen take the new
    /// values at the clock's current time, the stuck detector resets
    /// exactly when the difficulty changed, and nothing else moves.
    pub fn update(&mut self, height: u64, total_difficulty: Difficulty)
        ensures
            final(self).live_info == old(self).live_info.spec_updated(
                height,
                total_difficulty,
                final(self).live_info.last_seen,
            ),
            final(self).capabilities == old(self).capabilities,
            final(self).user_agent == old(self).user_agent,
            final(self).version == old(self).version,
            final(self).addr == old(self).addr,
            final(self).direction == old(self).direction,
            final(self).header_sync_requested == old(self).header_sync_requested,
            final(self).last_header == old(self).last_header,
            final(self).last_header_reset == old(self).last_header_reset,
    {
        let now = now_millis();
        self.live_info.update_at(height, total_difficulty, now);
    }
}

} // verus!
