//! Consensus-critical constants and the small data types they are measured
//! in: chain difficulty, block-header summaries used by the difficulty
//! adjustment, and the protocol version negotiated with peers.
use vstd::prelude::*;

verus! {

/// A block time interval in seconds.
pub const BLOCK_TIME_SEC: u64 = 60;

/// Nominal height of one day's worth of blocks.
pub const DAY_HEIGHT: u64 = 1440;

/// Nominal height of one week's worth of blocks.
pub const WEEK_HEIGHT: u64 = 7 * 1440;

/// Default minimum accepted proof-of-work graph size, in edge bits.
pub const DEFAULT_MIN_EDGE_BITS: u8 = 31;

/// Graph size of the secondary proof-of-work, in edge bits.
pub const SECOND_POW_EDGE_BITS: u8 = 29;

/// Reference graph size used to scale difficulty across graph sizes.
/// Changing it is a hard fork.
pub const BASE_EDGE_BITS: u8 = 24;

/// Number of cycle elements in a proof-of-work proof.
pub const PROOFSIZE: usize = 42;

/// Number of blocks before a coinbase output may be spent.
pub const COINBASE_MATURITY: u64 = 1440;

/// Depth beyond which spent outputs may be pruned from local state.
pub const CUT_THROUGH_HORIZON: u32 = 7 * 1440;

/// Height gap beyond which a node requests a full state archive instead
/// of individual blocks.
pub const STATE_SYNC_THRESHOLD: u32 = 2 * 1440;

/// Weight of one block output, in consensus weight units.
pub const BLOCK_OUTPUT_WEIGHT: u64 = 21;

/// Weight of one block kernel, in consensus weight units.
pub const BLOCK_KERNEL_WEIGHT: u64 = 3;

/// Maximum allowed block weight on production networks.
pub const MAX_BLOCK_WEIGHT: u64 = 40_000;

/// Difficulty of one graph attempt at the reference graph size:
/// `2^30 / BLOCK_TIME_SEC`, rounded down.
pub const UNIT_DIFFICULTY: u64 = 17_895_697;

/// Mining difficulty of the first blocks on production networks: one
/// million unit difficulties.
pub const INITIAL_DIFFICULTY: u64 = 1_000_000 * UNIT_DIFFICULTY;

/// Number of most recent blocks the difficulty adjustment looks at.
pub const DIFFICULTY_ADJUST_WINDOW: u64 = 60;

/// Scaling weight (`2^(1 + edge_bits - BASE_EDGE_BITS) * edge_bits`) of
/// the secondary proof-of-work graph at genesis.
pub const GENESIS_GRAPH_WEIGHT: u32 = 64 * 29;

/// The total accumulated proof-of-work difficulty of a chain or the
/// difficulty advertised by a peer.
#[derive(Clone, Copy, Debug, PartialEq, Eq, Structural)]
pub struct Difficulty {
    num: u64,
}

impl Difficulty {
    /// The amount of work represented, as a plain number.
    pub closed spec fn spec_num(self) -> u64 {
        self.num
    }

    /// Difficulty of the given amount of work.
    pub fn from_num(num: u64) -> (r: Difficulty)
        ensures
            r.spec_num() == num,
    {
        Difficulty { num }
    }

    /// The amount of work represented, as a plain number.
    pub fn to_num(self) -> (r: u64)
        ensures
            r == self.spec_num(),
    {
        self.num
    }
}

/// The protocol version negotiated with a peer during the handshake.
#[derive(Clone, Copy, Debug, PartialEq, Eq, Structural)]
pub struct ProtocolVersion(pub u32);

/// The local protocol version of this node.
pub const PROTOCOL_VERSION: u32 = 3;

/// Summary of one block header as consumed by the difficulty adjustment:
/// when the block was mined, at what total difficulty, and how the
/// secondary proof-of-work was scaled.
#[derive(Clone, Copy, Debug, PartialEq, Eq, Structural)]
pub struct HeaderInfo {
    /// Timestamp of the header, in seconds.
    pub timestamp: u64,
    /// Total accumulated difficulty at this header.
    pub difficulty: Difficulty,
    /// Difficulty scaling factor of the secondary proof-of-work.
    pub secondary_scaling: u32,
    /// Whether the header's proof is a secondary proof-of-work.
    pub is_secondary: bool,
}

impl HeaderInfo {
    /// A synthesized header sample carrying only a timestamp and a
    /// difficulty; used to pad a too-short difficulty window.
    pub fn from_ts_diff(timestamp: u64, difficulty: Difficulty, secondary_scaling: u32) -> (r:
        HeaderInfo)
        ensures
            r == (HeaderInfo {
                timestamp,
                difficulty,
                secondary_scaling,
                is_secondary: true,
            }),
    {
        HeaderInfo { timestamp, difficulty, secondary_scaling, is_secondary: true }
    }
}

} // verus!
