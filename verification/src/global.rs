//! Selection of the chain profile a node runs under, and every consensus
//! constant that depends on it.
//!
//! The profile lives in a two-level resolver: a write-once process-wide
//! slot and a context-local override that shadows it. A read before either
//! is set is a fatal configuration error, so the reading functions require
//! a resolvable state; embedders check [`has_chain_type`] first and treat
//! a failure as fatal.
use crate::consensus::{
    Difficulty, HeaderInfo, BASE_EDGE_BITS, BLOCK_KERNEL_WEIGHT, BLOCK_OUTPUT_WEIGHT,
    BLOCK_TIME_SEC, COINBASE_MATURITY, CUT_THROUGH_HORIZON, DEFAULT_MIN_EDGE_BITS,
    DIFFICULTY_ADJUST_WINDOW, GENESIS_GRAPH_WEIGHT, INITIAL_DIFFICULTY, MAX_BLOCK_WEIGHT,
    PROOFSIZE, SECOND_POW_EDGE_BITS, STATE_SYNC_THRESHOLD,
};
use vstd::prelude::*;

verus! {

/// Graph size floor while testing automatically.
pub const AUTOMATED_TESTING_MIN_EDGE_BITS: u8 = 10;

/// Proof size while testing automatically.
pub const AUTOMATED_TESTING_PROOF_SIZE: usize = 8;

/// Graph size floor while testing by hand.
pub const USER_TESTING_MIN_EDGE_BITS: u8 = 15;

/// Proof size while testing by hand.
pub const USER_TESTING_PROOF_SIZE: usize = 42;

/// Coinbase maturity while testing automatically.
pub const AUTOMATED_TESTING_COINBASE_MATURITY: u64 = 3;

/// Coinbase maturity while testing by hand.
pub const USER_TESTING_COINBASE_MATURITY: u64 = 3;

/// Cut-through horizon, in blocks, while testing automatically.
pub const AUTOMATED_TESTING_CUT_THROUGH_HORIZON: u32 = 20;

/// Cut-through horizon, in blocks, while testing by hand.
pub const USER_TESTING_CUT_THROUGH_HORIZON: u32 = 70;

/// State-sync trigger threshold, in blocks, on testing profiles.
pub const TESTING_STATE_SYNC_THRESHOLD: u32 = 20;

/// Initial secondary proof-of-work scaling on testing profiles.
pub const TESTING_INITIAL_GRAPH_WEIGHT: u32 = 1;

/// Initial block difficulty on testing profiles.
pub const TESTING_INITIAL_DIFFICULTY: u64 = 1;

/// Maximum block weight on testing profiles; artificially low, just
/// enough to support a few transactions.
pub const TESTING_MAX_BLOCK_WEIGHT: u64 = 250;

/// A peer whose reported difficulty stays below ours for this long, in
/// milliseconds, is presumed stuck and eligible for disconnection.
pub const STUCK_PEER_KICK_TIME: i64 = 2 * 3600 * 1000;

/// A peer last seen longer ago than this, in seconds, is forgotten.
pub const PEER_EXPIRATION_REMOVE_TIME: i64 = 7 * 2 * 24 * 3600;

/// Number of blocks a state archive is reused for on testing profiles.
pub const TESTING_TXHASHSET_ARCHIVE_INTERVAL: u64 = 10;

/// Number of blocks a state archive is reused for on production networks.
pub const TXHASHSET_ARCHIVE_INTERVAL: u64 = 12 * 60;

/// The named networks a node can run under; the profile dictates the
/// genesis block and every mining parameter.
#[derive(Clone, Copy, Debug, PartialEq, Eq, Structural)]
pub enum ChainTypes {
    /// For automated testing.
    AutomatedTesting,
    /// For performance testing.
    PerfTesting,
    /// For testing by hand.
    UserTesting,
    /// Protocol testing network.
    Floonet,
    /// Main production network.
    Mainnet,
}

impl ChainTypes {
    /// Short name of the chain type, as used in paths and identifiers.
    pub fn shortname(&self) -> (r: String)
        ensures
            r@ == match *self {
                ChainTypes::AutomatedTesting => "auto"@,
                ChainTypes::PerfTesting => "perf"@,
                ChainTypes::UserTesting => "user"@,
                ChainTypes::Floonet => "floo"@,
                ChainTypes::Mainnet => "main"@,
            },
    {
        match *self {
            ChainTypes::AutomatedTesting => "auto".to_owned(),
            ChainTypes::PerfTesting => "perf".to_owned(),
            ChainTypes::UserTesting => "user".to_owned(),
            ChainTypes::Floonet => "floo".to_owned(),
            ChainTypes::Mainnet => "main".to_owned(),
        }
    }
}

impl Default for ChainTypes {
    /// The default chain type is the main production network.
    fn default() -> (r: ChainTypes)
        ensures
            r == ChainTypes::Mainnet,
    {
        ChainTypes::Mainnet
    }
}

/// The process-shared configuration slots: the write-once chain type and
/// feature flag, each with its context-local override, and the liveness
/// flag polled by run loops. Embedders hold one value per process and
/// share it; only the functions below touch the slots.
pub struct GlobalState {
    chain_type_global: Option<ChainTypes>,
    chain_type_local: Option<ChainTypes>,
    nrd_global: Option<bool>,
    nrd_local: Option<bool>,
    server_running: bool,
}

impl GlobalState {
    /// The process-wide chain type, if initialized.
    pub closed spec fn global_chain_type(self) -> Option<ChainTypes> {
        self.chain_type_global
    }

    /// The context-local chain type override, if set.
    pub closed spec fn local_chain_type(self) -> Option<ChainTypes> {
        self.chain_type_local
    }

    /// The process-wide feature flag for no-recent-duplicate kernels.
    pub closed spec fn global_nrd(self) -> Option<bool> {
        self.nrd_global
    }

    /// The context-local override of the feature flag.
    pub closed spec fn local_nrd(self) -> Option<bool> {
        self.nrd_local
    }

    /// Whether the server liveness flag still reads "running".
    pub closed spec fn running(self) -> bool {
        self.server_running
    }

    /// Whether a chain type can be resolved at all; reading one before
    /// this holds is a fatal configuration error.
    pub open spec fn chain_type_set(self) -> bool {
        self.local_chain_type() is Some || self.global_chain_type() is Some
    }

    /// The resolved chain type: the local override if present, else the
    /// process-wide value. Meaningful only when `chain_type_set` holds.
    pub open spec fn chain_type(self) -> ChainTypes {
        match self.local_chain_type() {
            Some(t) => t,
            None => match self.global_chain_type() {
                Some(t) => t,
                None => ChainTypes::Mainnet,
            },
        }
    }

    /// The resolved feature flag: local override, else process-wide
    /// value, else disabled.
    pub open spec fn nrd_enabled(self) -> bool {
        match self.local_nrd() {
            Some(b) => b,
            None => match self.global_nrd() {
                Some(b) => b,
                None => false,
            },
        }
    }

    /// A fresh state: nothing configured, the server running.
    pub fn new() -> (r: GlobalState)
        ensures
            r.global_chain_type() is None,
            r.local_chain_type() is None,
            r.global_nrd() is None,
            r.local_nrd() is None,
            r.running(),
    {
        GlobalState {
            chain_type_global: None,
            chain_type_local: None,
            nrd_global: None,
            nrd_local: None,
            server_running: true,
        }
    }
}

/// Resolution precedence of the two chain-type slots: a context-local
/// override always shadows the process-wide value, and with no override
/// the process-wide value decides — there is no other source, and no
/// silent default enters while either slot is set.
pub proof fn lemma_chain_type_precedence(g: GlobalState)
    ensures
        forall|t: ChainTypes| g.local_chain_type() == Some(t) ==> g.chain_type() == t,
        g.local_chain_type() is None ==> forall|t: ChainTypes|
            g.global_chain_type() == Some(t) ==> g.chain_type() == t,
{
}

/// Set the context-local chain type, shadowing the process-wide value;
/// used by test harnesses that simulate several networks in one process.
pub fn set_local_chain_type(g: &mut GlobalState, new_type: ChainTypes)
    ensures
        final(g).local_chain_type() == Some(new_type),
        final(g).global_chain_type() == old(g).global_chain_type(),
        final(g).global_nrd() == old(g).global_nrd(),
        final(g).local_nrd() == old(g).local_nrd(),
        final(g).running() == old(g).running(),
{
    g.chain_type_local = Some(new_type);
}

/// Whether a chain type is resolvable. Embedders must treat a read
/// attempted while this is false as a fatal configuration error.
pub fn has_chain_type(g: &GlobalState) -> (r: bool)
    ensures
        r == g.chain_type_set(),
{
    g.chain_type_local.is_some() || g.chain_type_global.is_some()
}

/// The chain type: the context-local value if set, else the process-wide
/// one. Reading with neither set is fatal, so callers establish
/// `chain_type_set` first.
pub fn get_chain_type(g: &GlobalState) -> (r: ChainTypes)
    requires
        g.chain_type_set(),
    ensures
        r == g.chain_type(),
{
    match g.chain_type_local {
        Some(t) => t,
        None => match g.chain_type_global {
            Some(t) => t,
            None => ChainTypes::Mainnet,
        },
    }
}

/// One-time initialization of the process-wide chain type. A process must
/// never run under two consensus profiles, so a second initialization is
/// fatal: embedders check `global_chain_type() is None` and abort
/// otherwise.
pub fn init_global_chain_type(g: &mut GlobalState, new_type: ChainTypes)
    requires
        old(g).global_chain_type() is None,
    ensures
        final(g).global_chain_type() == Some(new_type),
        final(g).local_chain_type() == old(g).local_chain_type(),
        final(g).global_nrd() == old(g).global_nrd(),
        final(g).local_nrd() == old(g).local_nrd(),
        final(g).running() == old(g).running(),
{
    g.chain_type_global = Some(new_type);
}

/// Whether the process-wide chain type slot is still free; the guard
/// embedders test before `init_global_chain_type`.
pub fn can_init_chain_type(g: &GlobalState) -> (r: bool)
    ensures
        r == (g.global_chain_type() is None),
{
    g.chain_type_global.is_none()
}

/// One-time initialization of the process-wide feature flag for
/// no-recent-duplicate kernels; re-initialization is fatal, as for the
/// chain type.
pub fn init_global_nrd_enabled(g: &mut GlobalState, enabled: bool)
    requires
        old(g).global_nrd() is None,
    ensures
        final(g).global_nrd() == Some(enabled),
        final(g).global_chain_type() == old(g).global_chain_type(),
        final(g).local_chain_type() == old(g).local_chain_type(),
        final(g).local_nrd() == old(g).local_nrd(),
        final(g).running() == old(g).running(),
{
    g.nrd_global = Some(enabled);
}

/// Whether the process-wide feature flag slot is still free.
pub fn can_init_nrd_enabled(g: &GlobalState) -> (r: bool)
    ensures
        r == (g.global_nrd() is None),
{
    g.nrd_global.is_none()
}

/// Set the context-local feature flag, shadowing the process-wide value.
pub fn set_local_nrd_enabled(g: &mut GlobalState, enabled: bool)
    ensures
        final(g).local_nrd() == Some(enabled),
        final(g).global_chain_type() == old(g).global_chain_type(),
        final(g).local_chain_type() == old(g).local_chain_type(),
        final(g).global_nrd() == old(g).global_nrd(),
        final(g).running() == old(g).running(),
{
    g.nrd_local = Some(enabled);
}

/// Whether no-recent-duplicate kernels are enabled: the local override if
/// set, else the process-wide flag, else false. A soft-fork toggle, so an
/// unset state resolves to disabled rather than failing.
pub fn is_nrd_enabled(g: &GlobalState) -> (r: bool)
    ensures
        r == g.nrd_enabled(),
{
    match g.nrd_local {
        Some(b) => b,
        None => match g.nrd_global {
            Some(b) => b,
            None => false,
        },
    }
}

/// Whether the server liveness flag still reads "running".
pub fn is_server_running(g: &GlobalState) -> (r: bool)
    ensures
        r == g.running(),
{
    g.server_running
}

/// Request cooperative shutdown: a one-way latch, never reset.
pub fn request_server_stop(g: &mut GlobalState)
    ensures
        !final(g).running(),
        final(g).global_chain_type() == old(g).global_chain_type(),
        final(g).local_chain_type() == old(g).local_chain_type(),
        final(g).global_nrd() == old(g).global_nrd(),
        final(g).local_nrd() == old(g).local_nrd(),
{
    g.server_running = false;
}

/// The two proof-of-work verification backends a node chooses between:
/// the primary cycle finder and the secondary one for larger graphs,
/// each carrying the parameters it is to be built with.
#[derive(Clone, Copy, Debug, PartialEq, Eq, Structural)]
pub enum PowContext {
    /// The primary cycle-finding backend.
    Cuckarood {
        /// Graph size, in edge bits.
        edge_bits: u8,
        /// Number of cycle elements in a proof.
        proof_size: usize,
    },
    /// The secondary cycle-finding backend, for larger graphs.
    Cuckatoo {
        /// Graph size, in edge bits.
        edge_bits: u8,
        /// Number of cycle elements in a proof.
        proof_size: usize,
        /// Maximum number of solutions to return.
        max_sols: u32,
    },
}

/// The backend `create_pow_context` selects for a profile and graph size.
pub open spec fn spec_pow_context(
    chain_type: ChainTypes,
    edge_bits: u8,
    proof_size: usize,
    max_sols: u32,
) -> PowContext {
    match chain_type {
        ChainTypes::Mainnet | ChainTypes::Floonet => if edge_bits > 29 {
            PowContext::Cuckatoo { edge_bits, proof_size, max_sols }
        } else {
            PowContext::Cuckarood { edge_bits, proof_size }
        },
        _ => PowContext::Cuckatoo { edge_bits, proof_size, max_sols },
    }
}

/// Select the proof-of-work backend: on the production networks, graphs
/// over 29 edge bits verify with the secondary backend and smaller ones
/// with the primary; every other profile always uses the secondary
/// backend. The height is accepted for future height-gated switches and
/// does not enter the decision.
pub fn create_pow_context(
    g: &GlobalState,
    _height: u64,
    edge_bits: u8,
    proof_size: usize,
    max_sols: u32,
) -> (r: PowContext)
    requires
        g.chain_type_set(),
    ensures
        r == spec_pow_context(g.chain_type(), edge_bits, proof_size, max_sols),
{
    let chain_type = get_chain_type(g);
    match chain_type {
        ChainTypes::Mainnet | ChainTypes::Floonet => {
            if edge_bits > 29 {
                PowContext::Cuckatoo { edge_bits, proof_size, max_sols }
            } else {
                PowContext::Cuckarood { edge_bits, proof_size }
            }
        },
        _ => PowContext::Cuckatoo { edge_bits, proof_size, max_sols },
    }
}

/// The minimum accepted graph size for the given profile.
pub open spec fn spec_min_edge_bits(chain_type: ChainTypes) -> u8 {
    match chain_type {
        ChainTypes::AutomatedTesting | ChainTypes::PerfTesting => AUTOMATED_TESTING_MIN_EDGE_BITS,
        ChainTypes::UserTesting => USER_TESTING_MIN_EDGE_BITS,
        _ => DEFAULT_MIN_EDGE_BITS,
    }
}

/// The minimum accepted graph size, in edge bits.
pub fn min_edge_bits(g: &GlobalState) -> (r: u8)
    requires
        g.chain_type_set(),
    ensures
        r == spec_min_edge_bits(g.chain_type()),
{
    match get_chain_type(g) {
        ChainTypes::AutomatedTesting | ChainTypes::PerfTesting => AUTOMATED_TESTING_MIN_EDGE_BITS,
        ChainTypes::UserTesting => USER_TESTING_MIN_EDGE_BITS,
        _ => DEFAULT_MIN_EDGE_BITS,
    }
}

/// The reference graph size for the given profile.
pub open spec fn spec_base_edge_bits(chain_type: ChainTypes) -> u8 {
    match chain_type {
        ChainTypes::AutomatedTesting | ChainTypes::PerfTesting => AUTOMATED_TESTING_MIN_EDGE_BITS,
        ChainTypes::UserTesting => USER_TESTING_MIN_EDGE_BITS,
        _ => BASE_EDGE_BITS,
    }
}

/// The reference graph size used to scale difficulty on larger graphs.
/// The minimum can move in a soft fork; moving this is a hard fork.
pub fn base_edge_bits(g: &GlobalState) -> (r: u8)
    requires
        g.chain_type_set(),
    ensures
        r == spec_base_edge_bits(g.chain_type()),
{
    match get_chain_type(g) {
        ChainTypes::AutomatedTesting | ChainTypes::PerfTesting => AUTOMATED_TESTING_MIN_EDGE_BITS,
        ChainTypes::UserTesting => USER_TESTING_MIN_EDGE_BITS,
        _ => BASE_EDGE_BITS,
    }
}

/// The proof size for the given profile.
pub open spec fn spec_proofsize(chain_type: ChainTypes) -> usize {
    match chain_type {
        ChainTypes::AutomatedTesting | ChainTypes::PerfTesting => AUTOMATED_TESTING_PROOF_SIZE,
        ChainTypes::UserTesting => USER_TESTING_PROOF_SIZE,
        _ => PROOFSIZE,
    }
}

/// The number of cycle elements in a proof-of-work proof.
pub fn proofsize(g: &GlobalState) -> (r: usize)
    requires
        g.chain_type_set(),
    ensures
        r == spec_proofsize(g.chain_type()),
{
    match get_chain_type(g) {
        ChainTypes::AutomatedTesting | ChainTypes::PerfTesting => AUTOMATED_TESTING_PROOF_SIZE,
        ChainTypes::UserTesting => USER_TESTING_PROOF_SIZE,
        _ => PROOFSIZE,
    }
}

/// The coinbase maturity for the given profile.
pub open spec fn spec_coinbase_maturity(chain_type: ChainTypes) -> u64 {
    match chain_type {
        ChainTypes::AutomatedTesting | ChainTypes::PerfTesting
            => AUTOMATED_TESTING_COINBASE_MATURITY,
        ChainTypes::UserTesting => USER_TESTING_COINBASE_MATURITY,
        _ => COINBASE_MATURITY,
    }
}

/// The number of blocks before a coinbase output may be spent.
pub fn coinbase_maturity(g: &GlobalState) -> (r: u64)
    requires
        g.chain_type_set(),
    ensures
        r == spec_coinbase_maturity(g.chain_type()),
{
    match get_chain_type(g) {
        ChainTypes::AutomatedTesting | ChainTypes::PerfTesting => {
            AUTOMATED_TESTING_COINBASE_MATURITY
        },
        ChainTypes::UserTesting => USER_TESTING_COINBASE_MATURITY,
        _ => COINBASE_MATURITY,
    }
}

/// The initial mining difficulty for the given profile.
pub open spec fn spec_initial_block_difficulty(chain_type: ChainTypes) -> u64 {
    match chain_type {
        ChainTypes::AutomatedTesting | ChainTypes::PerfTesting => TESTING_INITIAL_DIFFICULTY,
        ChainTypes::UserTesting => TESTING_INITIAL_DIFFICULTY,
        ChainTypes::Floonet => INITIAL_DIFFICULTY,
        ChainTypes::Mainnet => INITIAL_DIFFICULTY,
    }
}

/// The mining difficulty of the first blocks.
pub fn initial_block_difficulty(g: &GlobalState) -> (r: u64)
    requires
        g.chain_type_set(),
    ensures
        r == spec_initial_block_difficulty(g.chain_type()),
{
    match get_chain_type(g) {
        ChainTypes::AutomatedTesting | ChainTypes::PerfTesting => TESTING_INITIAL_DIFFICULTY,
        ChainTypes::UserTesting => TESTING_INITIAL_DIFFICULTY,
        ChainTypes::Floonet => INITIAL_DIFFICULTY,
        ChainTypes::Mainnet => INITIAL_DIFFICULTY,
    }
}

/// The initial secondary proof-of-work scaling for the given profile.
pub open spec fn spec_initial_graph_weight(chain_type: ChainTypes) -> u32 {
    match chain_type {
        ChainTypes::AutomatedTesting | ChainTypes::PerfTesting => TESTING_INITIAL_GRAPH_WEIGHT,
        ChainTypes::UserTesting => TESTING_INITIAL_GRAPH_WEIGHT,
        ChainTypes::Floonet => GENESIS_GRAPH_WEIGHT,
        ChainTypes::Mainnet => GENESIS_GRAPH_WEIGHT,
    }
}

/// The initial scaling factor of the secondary proof-of-work.
pub fn initial_graph_weight(g: &GlobalState) -> (r: u32)
    requires
        g.chain_type_set(),
    ensures
        r == spec_initial_graph_weight(g.chain_type()),
{
    match get_chain_type(g) {
        ChainTypes::AutomatedTesting | ChainTypes::PerfTesting => TESTING_INITIAL_GRAPH_WEIGHT,
        ChainTypes::UserTesting => TESTING_INITIAL_GRAPH_WEIGHT,
        ChainTypes::Floonet => GENESIS_GRAPH_WEIGHT,
        ChainTypes::Mainnet => GENESIS_GRAPH_WEIGHT,
    }
}

/// The maximum block weight for the given profile.
pub open spec fn spec_max_block_weight(chain_type: ChainTypes) -> u64 {
    match chain_type {
        ChainTypes::AutomatedTesting | ChainTypes::PerfTesting => TESTING_MAX_BLOCK_WEIGHT,
        ChainTypes::UserTesting => TESTING_MAX_BLOCK_WEIGHT,
        ChainTypes::Floonet => MAX_BLOCK_WEIGHT,
        ChainTypes::Mainnet => MAX_BLOCK_WEIGHT,
    }
}

/// The maximum allowed block weight.
pub fn max_block_weight(g: &GlobalState) -> (r: u64)
    requires
        g.chain_type_set(),
    ensures
        r == spec_max_block_weight(g.chain_type()),
{
    match get_chain_type(g) {
        ChainTypes::AutomatedTesting | ChainTypes::PerfTesting => TESTING_MAX_BLOCK_WEIGHT,
        ChainTypes::UserTesting => TESTING_MAX_BLOCK_WEIGHT,
        ChainTypes::Floonet => MAX_BLOCK_WEIGHT,
        ChainTypes::Mainnet => MAX_BLOCK_WEIGHT,
    }
}

/// The maximum transaction weight for the given profile: the block
/// weight less the fixed weight a coinbase output and kernel always
/// take, clamped at zero.
pub open spec fn spec_max_tx_weight(chain_type: ChainTypes) -> u64 {
    let coinbase_weight = BLOCK_OUTPUT_WEIGHT + BLOCK_KERNEL_WEIGHT;
    if spec_max_block_weight(chain_type) >= coinbase_weight {
        (spec_max_block_weight(chain_type) - coinbase_weight) as u64
    } else {
        0
    }
}

/// The maximum allowed transaction weight: one weight unit is roughly
/// 32 bytes.
pub fn max_tx_weight(g: &GlobalState) -> (r: u64)
    requires
        g.chain_type_set(),
    ensures
        r == spec_max_tx_weight(g.chain_type()),
{
    let coinbase_weight = BLOCK_OUTPUT_WEIGHT + BLOCK_KERNEL_WEIGHT;
    let max_block = max_block_weight(g);
    if max_block >= coinbase_weight {
        max_block - coinbase_weight
    } else {
        0
    }
}

/// The maximum transaction weight never exceeds the block weight and
/// never goes negative: it is the block weight less the coinbase output
/// and kernel weight, clamped at zero, on every profile.
pub proof fn lemma_max_tx_weight_clamped(chain_type: ChainTypes)
    ensures
        spec_max_tx_weight(chain_type) <= spec_max_block_weight(chain_type),
        spec_max_block_weight(chain_type) >= BLOCK_OUTPUT_WEIGHT + BLOCK_KERNEL_WEIGHT
            ==> spec_max_tx_weight(chain_type) + BLOCK_OUTPUT_WEIGHT + BLOCK_KERNEL_WEIGHT
                == spec_max_block_weight(chain_type),
        spec_max_block_weight(chain_type) < BLOCK_OUTPUT_WEIGHT + BLOCK_KERNEL_WEIGHT
            ==> spec_max_tx_weight(chain_type) == 0,
{
}

/// The cut-through horizon for the given profile.
pub open spec fn spec_cut_through_horizon(chain_type: ChainTypes) -> u32 {
    match chain_type {
        ChainTypes::AutomatedTesting | ChainTypes::PerfTesting
            => AUTOMATED_TESTING_CUT_THROUGH_HORIZON,
        ChainTypes::UserTesting => USER_TESTING_CUT_THROUGH_HORIZON,
        _ => CUT_THROUGH_HORIZON,
    }
}

/// The horizon at which spent outputs can be cut through and pruned.
pub fn cut_through_horizon(g: &GlobalState) -> (r: u32)
    requires
        g.chain_type_set(),
    ensures
        r == spec_cut_through_horizon(g.chain_type()),
{
    match get_chain_type(g) {
        ChainTypes::AutomatedTesting | ChainTypes::PerfTesting => {
            AUTOMATED_TESTING_CUT_THROUGH_HORIZON
        },
        ChainTypes::UserTesting => USER_TESTING_CUT_THROUGH_HORIZON,
        _ => CUT_THROUGH_HORIZON,
    }
}

/// The state-sync threshold for the given profile.
pub open spec fn spec_state_sync_threshold(chain_type: ChainTypes) -> u32 {
    match chain_type {
        ChainTypes::AutomatedTesting | ChainTypes::PerfTesting => TESTING_STATE_SYNC_THRESHOLD,
        ChainTypes::UserTesting => TESTING_STATE_SYNC_THRESHOLD,
        _ => STATE_SYNC_THRESHOLD,
    }
}

/// The height gap beyond which a full state archive is requested.
pub fn state_sync_threshold(g: &GlobalState) -> (r: u32)
    requires
        g.chain_type_set(),
    ensures
        r == spec_state_sync_threshold(g.chain_type()),
{
    match get_chain_type(g) {
        ChainTypes::AutomatedTesting | ChainTypes::PerfTesting => TESTING_STATE_SYNC_THRESHOLD,
        ChainTypes::UserTesting => TESTING_STATE_SYNC_THRESHOLD,
        _ => STATE_SYNC_THRESHOLD,
    }
}

/// The archive refresh interval for the given profile.
pub open spec fn spec_txhashset_archive_interval(chain_type: ChainTypes) -> u64 {
    match chain_type {
        ChainTypes::AutomatedTesting | ChainTypes::PerfTesting
            => TESTING_TXHASHSET_ARCHIVE_INTERVAL,
        ChainTypes::UserTesting => TESTING_TXHASHSET_ARCHIVE_INTERVAL,
        _ => TXHASHSET_ARCHIVE_INTERVAL,
    }
}

/// The number of blocks a state archive is reused for.
pub fn txhashset_archive_interval(g: &GlobalState) -> (r: u64)
    requires
        g.chain_type_set(),
    ensures
        r == spec_txhashset_archive_interval(g.chain_type()),
{
    match get_chain_type(g) {
        ChainTypes::AutomatedTesting | ChainTypes::PerfTesting => {
            TESTING_TXHASHSET_ARCHIVE_INTERVAL
        },
        ChainTypes::UserTesting => TESTING_TXHASHSET_ARCHIVE_INTERVAL,
        _ => TXHASHSET_ARCHIVE_INTERVAL,
    }
}

/// Whether the node runs on a live public network, testnet or mainnet.
pub fn is_production_mode(g: &GlobalState) -> (r: bool)
    requires
        g.chain_type_set(),
    ensures
        r == (g.chain_type() == ChainTypes::Floonet || g.chain_type() == ChainTypes::Mainnet),
{
    match get_chain_type(g) {
        ChainTypes::Floonet => true,
        ChainTypes::Mainnet => true,
        _ => false,
    }
}

/// Whether the node runs on the protocol testing network.
pub fn is_floonet(g: &GlobalState) -> (r: bool)
    requires
        g.chain_type_set(),
    ensures
        r == (g.chain_type() == ChainTypes::Floonet),
{
    match get_chain_type(g) {
        ChainTypes::Floonet => true,
        _ => false,
    }
}

/// Whether the node runs on the main production network.
pub fn is_mainnet(g: &GlobalState) -> (r: bool)
    requires
        g.chain_type_set(),
    ensures
        r == (g.chain_type() == ChainTypes::Mainnet),
{
    match get_chain_type(g) {
        ChainTypes::Mainnet => true,
        _ => false,
    }
}

/// The lowercase network name of the resolved profile, as used in logs
/// and APIs.
pub fn get_network_name(g: &GlobalState) -> (r: String)
    requires
        g.chain_type_set(),
    ensures
        r@ == match g.chain_type() {
            ChainTypes::AutomatedTesting => "automatedtests"@,
            ChainTypes::PerfTesting => "perftests"@,
            ChainTypes::UserTesting => "usertestnet"@,
            ChainTypes::Floonet => "floonet"@,
            ChainTypes::Mainnet => "mainnet"@,
        },
{
    match get_chain_type(g) {
        ChainTypes::AutomatedTesting => "automatedtests".to_owned(),
        ChainTypes::PerfTesting => "perftests".to_owned(),
        ChainTypes::UserTesting => "usertestnet".to_owned(),
        ChainTypes::Floonet => "floonet".to_owned(),
        ChainTypes::Mainnet => "mainnet".to_owned(),
    }
}

/// Saturating subtraction on block timestamps.
pub open spec fn sat_sub_u64(a: u64, b: u64) -> u64 {
    if a >= b {
        (a - b) as u64
    } else {
        0
    }
}

/// The timestamp of the `j`-th synthesized sample: `j` saturating steps
/// of `delta` below the oldest real timestamp.
pub open spec fn pad_ts(oldest_ts: u64, delta: u64, j: nat) -> u64
    decreases j,
{
    if j == 0 {
        oldest_ts
    } else {
        sat_sub_u64(pad_ts(oldest_ts, delta, (j - 1) as nat), delta)
    }
}

/// The `k` synthesized samples appended when only the given real samples
/// exist: timestamps stepping down by `delta` from the oldest real
/// timestamp, all carrying the oldest real difficulty.
pub open spec fn pad_tail(
    oldest_ts: u64,
    delta: u64,
    difficulty: Difficulty,
    scaling: u32,
    k: nat,
) -> Seq<HeaderInfo> {
    Seq::new(
        k,
        |i: int|
            HeaderInfo {
                timestamp: pad_ts(oldest_ts, delta, (i + 1) as nat),
                difficulty,
                secondary_scaling: scaling,
                is_secondary: true,
            },
    )
}

/// The inter-block delta used for synthesized timestamps: the gap between
/// the two most recent real samples, or the nominal block time when fewer
/// than two exist.
pub open spec fn pad_delta(taken: Seq<HeaderInfo>) -> u64 {
    if taken.len() > 1 {
        (taken[0].timestamp - taken[1].timestamp) as u64
    } else {
        BLOCK_TIME_SEC
    }
}

/// The full difficulty window for the given newest-first samples: at most
/// `DIFFICULTY_ADJUST_WINDOW + 1` real samples, padded with synthesized
/// older ones when short, then reversed to oldest-first.
pub open spec fn spec_padded_window(samples: Seq<HeaderInfo>, scaling: u32) -> Seq<HeaderInfo> {
    let needed = (DIFFICULTY_ADJUST_WINDOW + 1) as nat;
    let taken = if samples.len() <= needed {
        samples
    } else {
        samples.take(needed as int)
    };
    let padded = if taken.len() < needed {
        taken + pad_tail(
            taken.last().timestamp,
            pad_delta(taken),
            taken.last().difficulty,
            scaling,
            (needed - taken.len()) as nat,
        )
    } else {
        taken
    };
    padded.reverse()
}

/// Synthesized timestamps never increase as the padding walks backward.
proof fn lemma_pad_ts_le(oldest_ts: u64, delta: u64, j1: nat, j2: nat)
    requires
        j1 <= j2,
    ensures
        pad_ts(oldest_ts, delta, j2) <= pad_ts(oldest_ts, delta, j1),
    decreases j2 - j1,
{
    if j1 < j2 {
        lemma_pad_ts_le(oldest_ts, delta, j1, (j2 - 1) as nat);
    }
}

/// The padded window is time-monotonic: for newest-first samples whose
/// timestamps never increase going back, the full window is oldest-first
/// with timestamps that never decrease.
pub proof fn lemma_padded_window_monotonic(samples: Seq<HeaderInfo>, scaling: u32)
    requires
        samples.len() >= 1,
        forall|i: int, j: int|
            0 <= i <= j < samples.len() ==> samples[j].timestamp <= samples[i].timestamp,
    ensures
        ({
            let w = spec_padded_window(samples, scaling);
            forall|i: int, j: int| 0 <= i <= j < w.len() ==> w[i].timestamp <= w[j].timestamp
        }),
{
    let needed = (DIFFICULTY_ADJUST_WINDOW + 1) as nat;
    let taken = if samples.len() <= needed {
        samples
    } else {
        samples.take(needed as int)
    };
    assert forall|i: int, j: int| 0 <= i <= j < taken.len() implies taken[j].timestamp
        <= taken[i].timestamp by {
        assert(taken[i] == samples[i] && taken[j] == samples[j]);
    }
    let padded = if taken.len() < needed {
        taken + pad_tail(
            taken.last().timestamp,
            pad_delta(taken),
            taken.last().difficulty,
            scaling,
            (needed - taken.len()) as nat,
        )
    } else {
        taken
    };
    if taken.len() < needed {
        let oldest = taken.last().timestamp;
        let delta = pad_delta(taken);
        assert forall|i: int, j: int| 0 <= i <= j < padded.len() implies padded[j].timestamp
            <= padded[i].timestamp by {
            let n = taken.len() as int;
            if j < n {
                assert(padded[i] == taken[i] && padded[j] == taken[j]);
            } else if i < n {
                assert(padded[j].timestamp == pad_ts(oldest, delta, (j - n + 1) as nat));
                lemma_pad_ts_le(oldest, delta, 0, (j - n + 1) as nat);
                assert(pad_ts(oldest, delta, 0) == oldest);
                assert(taken[n - 1].timestamp <= taken[i].timestamp);
            } else {
                assert(padded[i].timestamp == pad_ts(oldest, delta, (i - n + 1) as nat));
                assert(padded[j].timestamp == pad_ts(oldest, delta, (j - n + 1) as nat));
                lemma_pad_ts_le(oldest, delta, (i - n + 1) as nat, (j - n + 1) as nat);
            }
        }
    }
    let w = spec_padded_window(samples, scaling);
    assert(w == padded.reverse());
    assert forall|i: int, j: int| 0 <= i <= j < w.len() implies w[i].timestamp <= w[j].timestamp by {
        assert(w[i] == padded[padded.len() - 1 - i]);
        assert(w[j] == padded[padded.len() - 1 - j]);
    }
}

/// Normalize a newest-first sequence of recent header samples into a
/// full, oldest-first difficulty window of exactly
/// `DIFFICULTY_ADJUST_WINDOW + 1` entries. When the chain is younger than
/// the window, the missing older entries are synthesized: perfectly timed
/// blocks at the oldest known difficulty, stepping back by the observed
/// inter-block delta (or the nominal block time when only one real sample
/// exists).
pub fn difficulty_data_to_vector(g: &GlobalState, cursor: Vec<HeaderInfo>) -> (r: Vec<HeaderInfo>)
    requires
        g.chain_type_set(),
        cursor@.len() >= 1,
        1 < cursor@.len() < DIFFICULTY_ADJUST_WINDOW + 1 ==> cursor@[1].timestamp
            <= cursor@[0].timestamp,
    ensures
        r@ == spec_padded_window(cursor@, spec_initial_graph_weight(g.chain_type())),
        r@.len() == DIFFICULTY_ADJUST_WINDOW + 1,
{
    let needed_block_count: usize = (DIFFICULTY_ADJUST_WINDOW + 1) as usize;
    let scaling = initial_graph_weight(g);

    let mut last_n: Vec<HeaderInfo> = Vec::new();
    let mut i: usize = 0;
    while i < cursor.len() && i < needed_block_count
        invariant
            i <= cursor@.len(),
            i <= needed_block_count,
            i == cursor@.len() || i == needed_block_count ==> last_n@.len() == i,
            last_n@ == cursor@.take(i as int),
        decreases cursor@.len() - i,
    {
        last_n.push(cursor[i]);
        i += 1;
    }
    proof {
        assert(last_n@ =~= if cursor@.len() <= needed_block_count {
            cursor@
        } else {
            cursor@.take(needed_block_count as int)
        });
    }
    let ghost taken = last_n@;

    let n = last_n.len();
    if needed_block_count > n {
        let last_ts_delta: u64 = if n > 1 {
            last_n[0].timestamp - last_n[1].timestamp
        } else {
            BLOCK_TIME_SEC
        };
        assert(last_ts_delta == pad_delta(taken));
        let last_diff = last_n[n - 1].difficulty;
        let oldest_ts = last_n[n - 1].timestamp;

        let mut last_ts = oldest_ts;
        let mut j: usize = 0;
        while j < needed_block_count - n
            invariant
                n == taken.len(),
                n < needed_block_count,
                j <= needed_block_count - n,
                last_diff == taken.last().difficulty,
                oldest_ts == taken.last().timestamp,
                last_ts == pad_ts(oldest_ts, last_ts_delta, j as nat),
                last_n@ == taken + pad_tail(oldest_ts, last_ts_delta, last_diff, scaling, j as nat),
            decreases needed_block_count - n - j,
        {
            last_ts = if last_ts >= last_ts_delta {
                last_ts - last_ts_delta
            } else {
                0
            };
            last_n.push(HeaderInfo::from_ts_diff(last_ts, last_diff, scaling));
            j += 1;
            proof {
                assert(last_n@ =~= taken + pad_tail(
                    oldest_ts,
                    last_ts_delta,
                    last_diff,
                    scaling,
                    j as nat,
                ));
            }
        }
    }

    let mut reversed: Vec<HeaderInfo> = Vec::new();
    let mut k = last_n.len();
    while k > 0
        invariant
            k <= last_n@.len(),
            reversed@ == last_n@.subrange(k as int, last_n@.len() as int).reverse(),
        decreases k,
    {
        k -= 1;
        reversed.push(last_n[k]);
        proof {
            assert(reversed@ =~= last_n@.subrange(k as int, last_n@.len() as int).reverse());
        }
    }
    proof {
        assert(last_n@.subrange(0, last_n@.len() as int) =~= last_n@);
        assert(reversed@ =~= spec_padded_window(
            cursor@,
            spec_initial_graph_weight(g.chain_type()),
        ));
    }
    reversed
}

} // verus!
