use p2p_core::consensus::{Difficulty, HeaderInfo, BLOCK_TIME_SEC, DIFFICULTY_ADJUST_WINDOW};
use p2p_core::global::{
    base_edge_bits, can_init_chain_type, can_init_nrd_enabled, coinbase_maturity,
    create_pow_context, cut_through_horizon, difficulty_data_to_vector, get_chain_type,
    get_network_name, has_chain_type, init_global_chain_type, init_global_nrd_enabled,
    initial_block_difficulty, initial_graph_weight, is_floonet, is_mainnet, is_nrd_enabled,
    is_production_mode, is_server_running, max_block_weight, max_tx_weight, min_edge_bits,
    proofsize, request_server_stop, set_local_chain_type, set_local_nrd_enabled,
    state_sync_threshold, txhashset_archive_interval, ChainTypes, GlobalState, PowContext,
};

fn with_profile(t: ChainTypes) -> GlobalState {
    let mut g = GlobalState::new();
    set_local_chain_type(&mut g, t);
    g
}

#[test]
fn profile_write_once_and_override() {
    let mut g = GlobalState::new();
    // A read before any initialization is not permitted: the guard that
    // embedders must treat as fatal reports it.
    assert!(!has_chain_type(&g));
    assert!(can_init_chain_type(&g));
    init_global_chain_type(&mut g, ChainTypes::Mainnet);
    assert!(has_chain_type(&g));
    assert_eq!(get_chain_type(&g), ChainTypes::Mainnet);
    // The slot is taken: a second initialization is refused by the guard.
    assert!(!can_init_chain_type(&g));
    // A context-local override set after the process-wide value shadows it.
    set_local_chain_type(&mut g, ChainTypes::UserTesting);
    assert_eq!(get_chain_type(&g), ChainTypes::UserTesting);
}

#[test]
fn three_tier_coinbase_maturity_dispatch() {
    assert_eq!(coinbase_maturity(&with_profile(ChainTypes::AutomatedTesting)), 3);
    assert_eq!(coinbase_maturity(&with_profile(ChainTypes::PerfTesting)), 3);
    assert_eq!(coinbase_maturity(&with_profile(ChainTypes::UserTesting)), 3);
    assert_eq!(coinbase_maturity(&with_profile(ChainTypes::Floonet)), 1440);
    assert_eq!(coinbase_maturity(&with_profile(ChainTypes::Mainnet)), 1440);
}

#[test]
fn three_tier_edge_bits_and_proofsize() {
    assert_eq!(min_edge_bits(&with_profile(ChainTypes::AutomatedTesting)), 10);
    assert_eq!(min_edge_bits(&with_profile(ChainTypes::PerfTesting)), 10);
    assert_eq!(min_edge_bits(&with_profile(ChainTypes::UserTesting)), 15);
    assert_eq!(min_edge_bits(&with_profile(ChainTypes::Mainnet)), 31);
    assert_eq!(base_edge_bits(&with_profile(ChainTypes::Mainnet)), 24);
    assert_eq!(base_edge_bits(&with_profile(ChainTypes::UserTesting)), 15);
    assert_eq!(proofsize(&with_profile(ChainTypes::AutomatedTesting)), 8);
    assert_eq!(proofsize(&with_profile(ChainTypes::UserTesting)), 42);
    assert_eq!(proofsize(&with_profile(ChainTypes::Floonet)), 42);
}

#[test]
fn three_tier_horizons_and_intervals() {
    assert_eq!(cut_through_horizon(&with_profile(ChainTypes::AutomatedTesting)), 20);
    assert_eq!(cut_through_horizon(&with_profile(ChainTypes::UserTesting)), 70);
    assert_eq!(cut_through_horizon(&with_profile(ChainTypes::Mainnet)), 7 * 1440);
    assert_eq!(state_sync_threshold(&with_profile(ChainTypes::PerfTesting)), 20);
    assert_eq!(state_sync_threshold(&with_profile(ChainTypes::Mainnet)), 2 * 1440);
    assert_eq!(txhashset_archive_interval(&with_profile(ChainTypes::UserTesting)), 10);
    assert_eq!(txhashset_archive_interval(&with_profile(ChainTypes::Floonet)), 720);
    assert_eq!(initial_block_difficulty(&with_profile(ChainTypes::UserTesting)), 1);
    assert_eq!(initial_block_difficulty(&with_profile(ChainTypes::Mainnet)), 17_895_697_000_000);
    assert_eq!(initial_graph_weight(&with_profile(ChainTypes::PerfTesting)), 1);
    assert_eq!(initial_graph_weight(&with_profile(ChainTypes::Mainnet)), 1856);
}

#[test]
fn max_tx_weight_is_block_weight_less_coinbase() {
    // Coinbase output weight 21 plus kernel weight 3.
    assert_eq!(max_block_weight(&with_profile(ChainTypes::AutomatedTesting)), 250);
    assert_eq!(max_tx_weight(&with_profile(ChainTypes::AutomatedTesting)), 250 - 24);
    assert_eq!(max_block_weight(&with_profile(ChainTypes::PerfTesting)), 250);
    assert_eq!(max_tx_weight(&with_profile(ChainTypes::PerfTesting)), 250 - 24);
    assert_eq!(max_tx_weight(&with_profile(ChainTypes::UserTesting)), 250 - 24);
    assert_eq!(max_tx_weight(&with_profile(ChainTypes::Floonet)), 40_000 - 24);
    assert_eq!(max_tx_weight(&with_profile(ChainTypes::Mainnet)), 40_000 - 24);
}

#[test]
fn production_predicates_and_names() {
    assert!(is_production_mode(&with_profile(ChainTypes::Floonet)));
    assert!(is_production_mode(&with_profile(ChainTypes::Mainnet)));
    assert!(!is_production_mode(&with_profile(ChainTypes::UserTesting)));
    assert!(is_floonet(&with_profile(ChainTypes::Floonet)));
    assert!(!is_floonet(&with_profile(ChainTypes::Mainnet)));
    assert!(is_mainnet(&with_profile(ChainTypes::Mainnet)));
    assert!(!is_mainnet(&with_profile(ChainTypes::Floonet)));
    assert_eq!(get_network_name(&with_profile(ChainTypes::AutomatedTesting)), "automatedtests");
    assert_eq!(get_network_name(&with_profile(ChainTypes::PerfTesting)), "perftests");
    assert_eq!(get_network_name(&with_profile(ChainTypes::UserTesting)), "usertestnet");
    assert_eq!(get_network_name(&with_profile(ChainTypes::Floonet)), "floonet");
    assert_eq!(get_network_name(&with_profile(ChainTypes::Mainnet)), "mainnet");
    assert_eq!(ChainTypes::AutomatedTesting.shortname(), "auto");
    assert_eq!(ChainTypes::PerfTesting.shortname(), "perf");
    assert_eq!(ChainTypes::UserTesting.shortname(), "user");
    assert_eq!(ChainTypes::Floonet.shortname(), "floo");
    assert_eq!(ChainTypes::Mainnet.shortname(), "main");
    assert_eq!(ChainTypes::default(), ChainTypes::Mainnet);
}

#[test]
fn nrd_flag_defaults_to_false_and_overrides() {
    let mut g = GlobalState::new();
    assert!(!is_nrd_enabled(&g));
    assert!(can_init_nrd_enabled(&g));
    init_global_nrd_enabled(&mut g, true);
    assert!(is_nrd_enabled(&g));
    assert!(!can_init_nrd_enabled(&g));
    set_local_nrd_enabled(&mut g, false);
    assert!(!is_nrd_enabled(&g));
}

#[test]
fn server_stop_is_a_one_way_latch() {
    let mut g = GlobalState::new();
    assert!(is_server_running(&g));
    request_server_stop(&mut g);
    assert!(!is_server_running(&g));
}

#[test]
fn pow_context_selection() {
    // Production networks: over 29 edge bits verifies with the secondary
    // backend, smaller graphs with the primary.
    let main = with_profile(ChainTypes::Mainnet);
    assert_eq!(
        create_pow_context(&main, 0, 29, 42, 8),
        PowContext::Cuckarood { edge_bits: 29, proof_size: 42 }
    );
    assert_eq!(
        create_pow_context(&main, 0, 31, 42, 8),
        PowContext::Cuckatoo { edge_bits: 31, proof_size: 42, max_sols: 8 }
    );
    let floo = with_profile(ChainTypes::Floonet);
    assert_eq!(
        create_pow_context(&floo, 0, 29, 42, 8),
        PowContext::Cuckarood { edge_bits: 29, proof_size: 42 }
    );
    // Every other profile always uses the secondary backend.
    let auto = with_profile(ChainTypes::AutomatedTesting);
    assert_eq!(
        create_pow_context(&auto, 0, 10, 8, 8),
        PowContext::Cuckatoo { edge_bits: 10, proof_size: 8, max_sols: 8 }
    );
    let user = with_profile(ChainTypes::UserTesting);
    assert_eq!(
        create_pow_context(&user, 0, 31, 42, 8),
        PowContext::Cuckatoo { edge_bits: 31, proof_size: 42, max_sols: 8 }
    );
}

#[test]
fn difficulty_window_pads_single_sample() {
    let g = with_profile(ChainTypes::UserTesting);
    let t: u64 = 100_000;
    let sample = HeaderInfo {
        timestamp: t,
        difficulty: Difficulty::from_num(77),
        secondary_scaling: 5,
        is_secondary: false,
    };
    let window = difficulty_data_to_vector(&g, vec![sample]);
    let n = (DIFFICULTY_ADJUST_WINDOW + 1) as usize;
    assert_eq!(window.len(), n);
    // Oldest-first: the one real sample ends up last.
    assert_eq!(window[n - 1].timestamp, t);
    assert_eq!(window[n - 1].secondary_scaling, 5);
    assert!(!window[n - 1].is_secondary);
    for i in 0..n - 1 {
        // Synthesized entries carry the real difficulty, step back by the
        // nominal block time, and are marked secondary at the initial
        // graph weight.
        assert_eq!(window[i].difficulty.to_num(), 77);
        assert_eq!(window[i].timestamp, t - BLOCK_TIME_SEC * ((n - 1 - i) as u64));
        assert_eq!(window[i].secondary_scaling, 1);
        assert!(window[i].is_secondary);
    }
}

#[test]
fn difficulty_window_uses_observed_delta() {
    let g = with_profile(ChainTypes::UserTesting);
    let mk = |ts: u64, d: u64| HeaderInfo {
        timestamp: ts,
        difficulty: Difficulty::from_num(d),
        secondary_scaling: 0,
        is_secondary: false,
    };
    // Newest first: the two real samples are 100 seconds apart.
    let window = difficulty_data_to_vector(&g, vec![mk(10_000, 9), mk(9_900, 8)]);
    let n = (DIFFICULTY_ADJUST_WINDOW + 1) as usize;
    assert_eq!(window.len(), n);
    assert_eq!(window[n - 1].timestamp, 10_000);
    assert_eq!(window[n - 2].timestamp, 9_900);
    // Synthesized entries repeat the oldest difficulty and step by the
    // observed delta, saturating at zero.
    assert_eq!(window[n - 3].timestamp, 9_800);
    assert_eq!(window[n - 3].difficulty.to_num(), 8);
    assert_eq!(window[0].timestamp, 9_900u64.saturating_sub(100 * ((n - 2) as u64)));
}

#[test]
fn difficulty_window_truncates_long_history() {
    let g = with_profile(ChainTypes::UserTesting);
    let n = (DIFFICULTY_ADJUST_WINDOW + 1) as usize;
    let mut cursor = Vec::new();
    for i in 0..(n + 10) {
        cursor.push(HeaderInfo {
            timestamp: 1_000_000 - 60 * (i as u64),
            difficulty: Difficulty::from_num(1000 + i as u64),
            secondary_scaling: 0,
            is_secondary: false,
        });
    }
    let window = difficulty_data_to_vector(&g, cursor);
    assert_eq!(window.len(), n);
    // Oldest-first after truncation to the newest DIFFICULTY_ADJUST_WINDOW + 1.
    assert_eq!(window[n - 1].difficulty.to_num(), 1000);
    assert_eq!(window[0].difficulty.to_num(), 1000 + (n as u64) - 1);
    for i in 1..n {
        assert!(window[i - 1].timestamp < window[i].timestamp);
    }
}
