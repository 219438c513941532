use pool_sync::address::Address;
use pool_sync::builder::{check_supported, enabled, PoolSyncBuilder};
use pool_sync::cache::PoolCache;
use pool_sync::chain::Chain;
use pool_sync::errors::PoolSyncError;
use pool_sync::orchestrator::{SyncAction, SyncEvent, SyncPhase, SyncRun, SyncedRange};
use pool_sync::pool_sync::PoolSync;
use pool_sync::pools::pool_structures::{CurvePool, UniswapV2Pool};
use pool_sync::pools::{Pool, PoolType};

fn numbered(n: u8) -> Address {
    let mut bytes = [0u8; 20];
    bytes[19] = n;
    Address::new(bytes)
}

fn pair(n: u8, reserves: u128) -> Pool {
    Pool::PancakeSwapV2(UniswapV2Pool {
        address: numbered(n),
        token0: numbered(200),
        token1: numbered(201),
        token0_name: String::from("WETH"),
        token1_name: String::from("USDC"),
        token0_decimals: 18,
        token1_decimals: 6,
        token0_reserves: reserves,
        token1_reserves: reserves * 2,
    })
}

fn curve(n: u8) -> Pool {
    Pool::CurveTriCrypto(CurvePool {
        address: numbered(n),
        tokens: vec![numbered(200), numbered(201)],
        token0: numbered(200),
        token1: numbered(201),
        token2: None,
        token0_name: String::from("USDT"),
        token1_name: String::from("WBTC"),
        token0_decimals: 6,
        token1_decimals: 8,
        token2_name: None,
        token2_decimals: None,
    })
}

fn pancake_on_ethereum(rate_limit: u64) -> PoolSync {
    PoolSync::builder()
        .add_pool(PoolType::PancakeSwapV2)
        .chain(Chain::Ethereum)
        .rate_limit(rate_limit)
        .build()
        .unwrap()
}

fn step(run: &mut SyncRun, event: SyncEvent) -> SyncAction {
    assert!(run.takes(&event));
    run.step(event)
}

fn pancake_factory() -> Address {
    PoolType::PancakeSwapV2.factory_address(Chain::Ethereum).unwrap()
}

#[test]
fn builder_collects_the_configuration() {
    let sync = PoolSync::builder()
        .add_pool(PoolType::PancakeSwapV2)
        .add_pool(PoolType::CurveTriCrypto)
        .add_pool(PoolType::PancakeSwapV2)
        .chain(Chain::Ethereum)
        .rate_limit(20)
        .build()
        .unwrap();
    assert_eq!(sync.fetchers, vec![PoolType::PancakeSwapV2, PoolType::CurveTriCrypto]);
    assert_eq!(sync.chain, Chain::Ethereum);
    assert_eq!(sync.rate_limit, 20);
}

#[test]
fn builder_starts_empty() {
    let builder = PoolSync::builder();
    assert_eq!(builder, PoolSyncBuilder::default());
    assert!(builder.fetchers.is_empty());
    assert_eq!(builder.chain, None);
    assert_eq!(builder.rate_limit, None);
}

#[test]
fn builder_without_chain_fails() {
    let built = PoolSync::builder().add_pool(PoolType::AlienBase).rate_limit(20).build();
    assert_eq!(built, Err(PoolSyncError::ChainNotSet));
}

#[test]
fn builder_rejects_unsupported_network() {
    let built = PoolSync::builder()
        .add_pool(PoolType::PancakeSwapV2)
        .add_pool(PoolType::AlienBaseV3)
        .chain(Chain::Ethereum)
        .rate_limit(20)
        .build();
    assert_eq!(built, Err(PoolSyncError::UnsupportedNetwork));
    let built = PoolSync::builder().add_pool(PoolType::AlienBase).chain(Chain::Ethereum).build();
    assert_eq!(built, Err(PoolSyncError::UnsupportedNetwork));
}

#[test]
fn builder_without_positive_rate_limit_fails() {
    let built = PoolSync::builder().add_pool(PoolType::AlienBase).chain(Chain::Base).build();
    assert_eq!(built, Err(PoolSyncError::RateLimitNotSet));
    let built =
        PoolSync::builder().add_pool(PoolType::AlienBase).chain(Chain::Base).rate_limit(0).build();
    assert_eq!(built, Err(PoolSyncError::RateLimitNotSet));
}

#[test]
fn enabled_and_supported() {
    let fetchers = vec![PoolType::AlienBase, PoolType::CurveTriCrypto];
    assert!(enabled(&fetchers, PoolType::AlienBase));
    assert!(!enabled(&fetchers, PoolType::PancakeSwapV2));
    assert!(check_supported(&fetchers, Chain::Base));
    assert!(!check_supported(&fetchers, Chain::Ethereum));
    assert!(check_supported(&Vec::new(), Chain::Ethereum));
}

#[test]
fn sync_pools_refuses_snapshots_that_do_not_match() {
    let sync = pancake_on_ethereum(20);
    assert_eq!(sync.sync_pools(Vec::new()).err(), Some(PoolSyncError::IoError));
    assert_eq!(
        sync.sync_pools(vec![PoolCache::new(PoolType::CurveTriCrypto)]).err(),
        Some(PoolSyncError::IoError)
    );
    let corrupt = PoolCache {
        pool_type: PoolType::PancakeSwapV2,
        last_synced_block: 5,
        is_initial_sync: false,
        pools: vec![pair(1, 1), pair(1, 2)],
    };
    assert_eq!(sync.sync_pools(vec![corrupt]).err(), Some(PoolSyncError::IoError));
}

#[test]
fn first_run_from_an_empty_cache() {
    let sync = pancake_on_ethereum(20);
    let (mut run, action) = sync.sync_pools(vec![PoolCache::new(PoolType::PancakeSwapV2)]).unwrap();
    assert_eq!(action, SyncAction::ReadHead);
    assert_eq!(run.phase, SyncPhase::AwaitingHead);

    let action = step(&mut run, SyncEvent::Head(100));
    assert_eq!(
        action,
        SyncAction::FetchLogs {
            pool_type: PoolType::PancakeSwapV2,
            factory: pancake_factory(),
            signature: "PairCreated(address,address,address,uint256)",
            start: 1,
            end: 100,
        }
    );

    let action = step(
        &mut run,
        SyncEvent::Logs(vec![
            Ok(numbered(1)),
            Ok(numbered(2)),
            Err(PoolSyncError::DecodeError),
            Ok(numbered(1)),
            Ok(numbered(3)),
        ]),
    );
    assert_eq!(
        action,
        SyncAction::Populate {
            pool_type: PoolType::PancakeSwapV2,
            batches: vec![vec![numbered(1), numbered(2), numbered(3)]],
        }
    );
    assert_eq!(run.dropped, 1);

    // Nothing was known before, so nothing is read again.
    let action =
        step(&mut run, SyncEvent::Pools(vec![Ok(pair(1, 10)), Ok(pair(2, 20)), Ok(pair(3, 30))]));
    assert_eq!(action, SyncAction::ReadHead);
    assert_eq!(run.caches[0].last_synced_block, 100);
    assert!(!run.caches[0].is_initial_sync);

    let action = step(&mut run, SyncEvent::Head(100));
    assert_eq!(action, SyncAction::Persist);
    let action = step(&mut run, SyncEvent::Persisted);
    assert_eq!(action, SyncAction::Finish);
    assert_eq!(run.phase, SyncPhase::Done);
    assert_eq!(run.caches[0].last_synced_block, 100);
    assert!(!run.caches[0].is_initial_sync);
    assert_eq!(run.caches[0].pools, vec![pair(1, 10), pair(2, 20), pair(3, 30)]);

    let (pools, block) = run.finish();
    assert_eq!(pools, vec![pair(1, 10), pair(2, 20), pair(3, 30)]);
    assert_eq!(block, 100);
}

#[test]
fn later_run_adds_one_pool_and_refreshes_the_rest() {
    let sync = pancake_on_ethereum(2);
    let known: Vec<Pool> = (1..=5).map(|n| pair(n, 10)).collect();
    let cache = PoolCache::restore(PoolType::PancakeSwapV2, 100, false, known).unwrap();
    let (mut run, _) = sync.sync_pools(vec![cache]).unwrap();

    let action = step(&mut run, SyncEvent::Head(150));
    assert_eq!(
        action,
        SyncAction::FetchLogs {
            pool_type: PoolType::PancakeSwapV2,
            factory: pancake_factory(),
            signature: "PairCreated(address,address,address,uint256)",
            start: 101,
            end: 150,
        }
    );

    let action = step(&mut run, SyncEvent::Logs(vec![Ok(numbered(3)), Ok(numbered(6))]));
    assert_eq!(
        action,
        SyncAction::Populate {
            pool_type: PoolType::PancakeSwapV2,
            batches: vec![vec![numbered(6)]],
        }
    );

    // The pools known before are read again; the new pool is not among them.
    let action = step(&mut run, SyncEvent::Pools(vec![Ok(pair(6, 60))]));
    assert_eq!(
        action,
        SyncAction::Refresh {
            pool_type: PoolType::PancakeSwapV2,
            batches: vec![
                vec![numbered(1), numbered(2)],
                vec![numbered(3), numbered(4)],
                vec![numbered(5)],
            ],
            start: 101,
            end: 150,
            is_initial_sync: false,
        }
    );
    assert_eq!(run.caches[0].last_synced_block, 100);

    let renewed: Vec<Result<Pool, PoolSyncError>> = (1..=5).map(|n| Ok(pair(n, 11))).collect();
    let action = step(&mut run, SyncEvent::Refreshed(renewed));
    assert_eq!(action, SyncAction::ReadHead);

    assert_eq!(step(&mut run, SyncEvent::Head(150)), SyncAction::Persist);
    assert_eq!(step(&mut run, SyncEvent::Persisted), SyncAction::Finish);
    assert_eq!(run.caches[0].last_synced_block, 150);
    assert_eq!(run.caches[0].pools.len(), 6);
    let mut expected: Vec<Pool> = (1..=5).map(|n| pair(n, 11)).collect();
    expected.push(pair(6, 60));
    assert_eq!(run.caches[0].pools, expected);
    assert_eq!(
        run.last_completed,
        Some(SyncedRange { pool_type: PoolType::PancakeSwapV2, start: 101, end: 150 })
    );
    let (pools, block) = run.finish();
    assert_eq!(pools.len(), 6);
    assert_eq!(block, 150);
}

#[test]
fn transport_error_on_second_protocol_stores_nothing() {
    let sync = PoolSync::builder()
        .add_pool(PoolType::PancakeSwapV2)
        .add_pool(PoolType::CurveTriCrypto)
        .chain(Chain::Ethereum)
        .rate_limit(20)
        .build()
        .unwrap();
    let stored = vec![
        PoolCache::restore(PoolType::PancakeSwapV2, 100, false, vec![pair(1, 10)]).unwrap(),
        PoolCache::restore(PoolType::CurveTriCrypto, 100, false, vec![curve(7)]).unwrap(),
    ];
    // Stands for the disk: written only when the run asks for it.
    let mut disk = stored.clone();
    let (mut run, first) = sync.sync_pools(stored.clone()).unwrap();
    let mut actions = vec![first];

    actions.push(step(&mut run, SyncEvent::Head(150)));
    actions.push(step(&mut run, SyncEvent::Logs(vec![Ok(numbered(2))])));
    actions.push(step(&mut run, SyncEvent::Pools(vec![Ok(pair(2, 20))])));
    // The first protocol completes its range and the run turns to the second.
    let action = step(&mut run, SyncEvent::Refreshed(vec![Ok(pair(1, 11))]));
    assert_eq!(
        action,
        SyncAction::FetchLogs {
            pool_type: PoolType::CurveTriCrypto,
            factory: PoolType::CurveTriCrypto.factory_address(Chain::Ethereum).unwrap(),
            signature: PoolType::CurveTriCrypto.pair_created_signature(),
            start: 101,
            end: 150,
        }
    );
    assert_eq!(run.caches[0].last_synced_block, 150);
    assert_eq!(run.caches[0].pools, vec![pair(1, 11), pair(2, 20)]);
    actions.push(action);

    let action = step(&mut run, SyncEvent::Failed(PoolSyncError::TransportError));
    assert_eq!(
        action,
        SyncAction::Abort {
            error: PoolSyncError::TransportError,
            last_completed: Some(SyncedRange {
                pool_type: PoolType::PancakeSwapV2,
                start: 101,
                end: 150,
            }),
        }
    );
    actions.push(action);
    for action in &actions {
        if *action == SyncAction::Persist {
            disk = run.caches.clone();
        }
    }
    assert!(!actions.contains(&SyncAction::Persist));
    assert_eq!(disk, stored);
    assert_eq!(run.phase, SyncPhase::Aborted);
    assert!(run.caches.is_empty());
    assert!(!run.takes(&SyncEvent::Persisted));
    assert!(!run.takes(&SyncEvent::Head(150)));
    assert!(!run.takes(&SyncEvent::Failed(PoolSyncError::IoError)));
}

#[test]
fn fatal_item_in_logs_aborts_the_run() {
    let sync = pancake_on_ethereum(20);
    let (mut run, _) = sync.sync_pools(vec![PoolCache::new(PoolType::PancakeSwapV2)]).unwrap();
    step(&mut run, SyncEvent::Head(10));
    let action = step(
        &mut run,
        SyncEvent::Logs(vec![Ok(numbered(1)), Err(PoolSyncError::TransportError)]),
    );
    assert_eq!(
        action,
        SyncAction::Abort { error: PoolSyncError::TransportError, last_completed: None }
    );
    assert_eq!(run.phase, SyncPhase::Aborted);
}

#[test]
fn fatal_item_in_population_or_refresh_aborts_the_run() {
    let sync = pancake_on_ethereum(20);
    let (mut run, _) = sync.sync_pools(vec![PoolCache::new(PoolType::PancakeSwapV2)]).unwrap();
    step(&mut run, SyncEvent::Head(10));
    step(&mut run, SyncEvent::Logs(vec![Ok(numbered(1))]));
    let action = step(&mut run, SyncEvent::Pools(vec![Err(PoolSyncError::TransportError)]));
    assert_eq!(
        action,
        SyncAction::Abort { error: PoolSyncError::TransportError, last_completed: None }
    );

    let cache = PoolCache::restore(PoolType::PancakeSwapV2, 5, false, vec![pair(1, 1)]).unwrap();
    let (mut run, _) = sync.sync_pools(vec![cache]).unwrap();
    step(&mut run, SyncEvent::Head(10));
    let action = step(&mut run, SyncEvent::Logs(Vec::new()));
    assert!(matches!(action, SyncAction::Refresh { .. }));
    let action = step(&mut run, SyncEvent::Refreshed(vec![Err(PoolSyncError::TransportError)]));
    assert_eq!(
        action,
        SyncAction::Abort { error: PoolSyncError::TransportError, last_completed: None }
    );
    assert!(run.caches.is_empty());
}

#[test]
fn failed_store_aborts_the_run() {
    let sync = pancake_on_ethereum(20);
    let cache = PoolCache::restore(PoolType::PancakeSwapV2, 10, false, Vec::new()).unwrap();
    let (mut run, _) = sync.sync_pools(vec![cache]).unwrap();
    assert_eq!(step(&mut run, SyncEvent::Head(10)), SyncAction::Persist);
    let action = step(&mut run, SyncEvent::Failed(PoolSyncError::IoError));
    assert_eq!(action, SyncAction::Abort { error: PoolSyncError::IoError, last_completed: None });
}

#[test]
fn head_that_moves_on_is_followed() {
    let sync = pancake_on_ethereum(20);
    let (mut run, _) = sync.sync_pools(vec![PoolCache::new(PoolType::PancakeSwapV2)]).unwrap();
    step(&mut run, SyncEvent::Head(100));
    let action = step(&mut run, SyncEvent::Logs(Vec::new()));
    assert_eq!(action, SyncAction::ReadHead);
    assert_eq!(run.caches[0].last_synced_block, 100);
    // The chain has grown while the first range was synchronized.
    let action = step(&mut run, SyncEvent::Head(103));
    assert_eq!(
        action,
        SyncAction::FetchLogs {
            pool_type: PoolType::PancakeSwapV2,
            factory: pancake_factory(),
            signature: "PairCreated(address,address,address,uint256)",
            start: 101,
            end: 103,
        }
    );
    assert_eq!(step(&mut run, SyncEvent::Logs(Vec::new())), SyncAction::ReadHead);
    assert_eq!(step(&mut run, SyncEvent::Head(103)), SyncAction::Persist);
    assert_eq!(run.caches[0].last_synced_block, 103);
}

#[test]
fn head_behind_a_watermark_is_read_again() {
    let sync = pancake_on_ethereum(20);
    let cache = PoolCache::restore(PoolType::PancakeSwapV2, 100, false, Vec::new()).unwrap();
    let (mut run, _) = sync.sync_pools(vec![cache]).unwrap();
    assert_eq!(step(&mut run, SyncEvent::Head(90)), SyncAction::ReadHead);
    assert_eq!(run.phase, SyncPhase::AwaitingHead);
    assert_eq!(run.caches[0].last_synced_block, 100);
    assert_eq!(step(&mut run, SyncEvent::Head(100)), SyncAction::Persist);
}

#[test]
fn only_lagging_protocols_are_synchronized() {
    let sync = PoolSync::builder()
        .add_pool(PoolType::PancakeSwapV2)
        .add_pool(PoolType::CurveTriCrypto)
        .chain(Chain::Base)
        .rate_limit(20)
        .build()
        .unwrap();
    let caches = vec![
        PoolCache::restore(PoolType::PancakeSwapV2, 50, false, Vec::new()).unwrap(),
        PoolCache::restore(PoolType::CurveTriCrypto, 40, false, Vec::new()).unwrap(),
    ];
    let (mut run, _) = sync.sync_pools(caches).unwrap();
    let action = step(&mut run, SyncEvent::Head(50));
    assert_eq!(
        action,
        SyncAction::FetchLogs {
            pool_type: PoolType::CurveTriCrypto,
            factory: PoolType::CurveTriCrypto.factory_address(Chain::Base).unwrap(),
            signature: PoolType::CurveTriCrypto.pair_created_signature(),
            start: 41,
            end: 50,
        }
    );
    assert_eq!(run.cursor, 1);
    let action = step(&mut run, SyncEvent::Logs(vec![Ok(numbered(7))]));
    assert!(matches!(action, SyncAction::Populate { .. }));
    assert_eq!(step(&mut run, SyncEvent::Pools(vec![Ok(curve(7))])), SyncAction::ReadHead);
    assert_eq!(step(&mut run, SyncEvent::Head(50)), SyncAction::Persist);
    assert_eq!(step(&mut run, SyncEvent::Persisted), SyncAction::Finish);
    let (pools, block) = run.finish();
    assert_eq!(pools, vec![curve(7)]);
    assert_eq!(block, 50);
}

#[test]
fn run_without_protocols_completes_at_once() {
    let sync = PoolSync::builder().chain(Chain::Base).rate_limit(1).build().unwrap();
    let (mut run, action) = sync.sync_pools(Vec::new()).unwrap();
    assert_eq!(action, SyncAction::ReadHead);
    assert_eq!(step(&mut run, SyncEvent::Head(9)), SyncAction::Persist);
    assert_eq!(step(&mut run, SyncEvent::Persisted), SyncAction::Finish);
    assert_eq!(run.finish(), (Vec::new(), 9));
}

#[test]
fn events_are_taken_in_their_phase_only() {
    let sync = pancake_on_ethereum(20);
    let (mut run, _) = sync.sync_pools(vec![PoolCache::new(PoolType::PancakeSwapV2)]).unwrap();
    assert!(run.takes(&SyncEvent::Head(1)));
    assert!(run.takes(&SyncEvent::Failed(PoolSyncError::TransportError)));
    assert!(!run.takes(&SyncEvent::Logs(Vec::new())));
    assert!(!run.takes(&SyncEvent::Pools(Vec::new())));
    assert!(!run.takes(&SyncEvent::Refreshed(Vec::new())));
    assert!(!run.takes(&SyncEvent::Persisted));
    run.observe_head(1);
    assert!(run.takes(&SyncEvent::Logs(Vec::new())));
    assert!(!run.takes(&SyncEvent::Head(2)));
}

#[test]
fn transitions_by_name_match_step() {
    let sync = pancake_on_ethereum(1);
    let cache = PoolCache::restore(PoolType::PancakeSwapV2, 5, false, vec![pair(1, 1)]).unwrap();
    let (mut run, _) = sync.sync_pools(vec![cache]).unwrap();
    assert!(matches!(run.observe_head(8), SyncAction::FetchLogs { start: 6, end: 8, .. }));
    let action = run.logs_fetched(vec![Ok(numbered(2)), Ok(numbered(3))]);
    assert_eq!(
        action,
        SyncAction::Populate {
            pool_type: PoolType::PancakeSwapV2,
            batches: vec![vec![numbered(2)], vec![numbered(3)]],
        }
    );
    let action = run.pools_populated(vec![Ok(pair(2, 2)), Err(PoolSyncError::DecodeError)]);
    assert!(matches!(action, SyncAction::Refresh { .. }));
    assert_eq!(run.pools_refreshed(vec![Ok(pair(1, 9))]), SyncAction::ReadHead);
    assert_eq!(run.caches[0].pools, vec![pair(1, 9), pair(2, 2)]);
    assert_eq!(run.observe_head(8), SyncAction::Persist);
    assert_eq!(run.persisted(), SyncAction::Finish);
    let mut other = sync.sync_pools(vec![PoolCache::new(PoolType::PancakeSwapV2)]).unwrap().0;
    assert_eq!(
        other.fail(PoolSyncError::TransportError),
        SyncAction::Abort { error: PoolSyncError::TransportError, last_completed: None }
    );
}

#[test]
fn main_items_are_found_at_the_root() {
    let sync = pool_sync::PoolSync::builder()
        .add_pool(pool_sync::PoolType::CurveTriCrypto)
        .chain(pool_sync::Chain::Base)
        .rate_limit(3)
        .build()
        .unwrap();
    let (run, action) =
        sync.sync_pools(vec![pool_sync::PoolCache::new(pool_sync::PoolType::CurveTriCrypto)])
            .unwrap();
    assert_eq!(action, pool_sync::SyncAction::ReadHead);
    assert_eq!(run.ceiling, 3);
    assert_eq!(run.chain, pool_sync::Chain::Base);
}
