use oracle_aggregator::errors::OracleAggregatorErrors;
use oracle_aggregator::price_cache::{is_fresh, lookup_if_fresh, record, MAX_PRICE_AGE};
use oracle_aggregator::registry::{assets, config_for, is_blocked};
use oracle_aggregator::storage::{
    extend_instance, get_admin, get_asset_config, get_assets, get_base, get_blocked_status,
    get_circuit_breaker, get_circuit_breaker_status, get_circuit_breaker_timeout, get_decimals,
    get_is_init, get_last_fetched_price, has_asset_config, set_admin, set_asset_config,
    set_assets, set_base, set_blocked_status, set_circuit_breaker, set_circuit_breaker_status,
    set_circuit_breaker_timeout, set_decimals, set_is_init, set_last_fetched_price,
    AggregatorDataKey, Env, LEDGER_BUMP_SHARED, LEDGER_THRESHOLD_SHARED, ONE_DAY_LEDGERS,
};
use oracle_aggregator::circuit_breaker::BreakerSettings;
use oracle_aggregator::table::AssetTable;
use oracle_aggregator::testutils::{
    create_oracle_aggregator, default_aggregator_settings, EnvTestUtils, DEFAULT_TIMESTAMP,
};
use oracle_aggregator::types::{Asset, OracleConfig, PriceData};

fn other(code: &str) -> Asset {
    Asset::Other(code.to_string())
}

fn stellar(id: &str) -> Asset {
    Asset::Stellar(id.to_string())
}

#[test]
fn test_error_codes() {
    assert_eq!(OracleAggregatorErrors::AlreadyInitialized.code(), 3);
    assert_eq!(OracleAggregatorErrors::NotImplemented.code(), 100);
    assert_eq!(OracleAggregatorErrors::InvalidOracleConfig.code(), 101);
    assert_eq!(OracleAggregatorErrors::InvalidAssets.code(), 102);
    assert_eq!(OracleAggregatorErrors::OracleNotFound.code(), 103);
    assert_eq!(OracleAggregatorErrors::CircuitBreakerTripped.code(), 104);
    assert_eq!(OracleAggregatorErrors::AssetNotFound.code(), 105);
    assert_eq!(OracleAggregatorErrors::InvalidTimestamp.code(), 106);
    assert_eq!(OracleAggregatorErrors::AssetBlocked.code(), 107);
}

#[test]
fn test_error_from_code() {
    for code in 0..200u32 {
        match OracleAggregatorErrors::from_code(code) {
            Some(err) => assert_eq!(err.code(), code),
            None => assert!(code != 3 && !(100..=107).contains(&code)),
        }
    }
    assert_eq!(
        OracleAggregatorErrors::from_code(104),
        Some(OracleAggregatorErrors::CircuitBreakerTripped)
    );
    assert_eq!(OracleAggregatorErrors::from_code(108), None);
    assert_eq!(OracleAggregatorErrors::from_code(u32::MAX), None);
}

#[test]
fn test_asset_equality_is_structural() {
    assert!(other("USDC").same(&other("USDC")));
    assert!(!other("USDC").same(&other("wETH")));
    assert!(!other("USDC").same(&stellar("USDC")));
    assert!(stellar("a").clone().same(&stellar("a")));
}

#[test]
fn test_table_insert_get() {
    let mut table: AssetTable<u64> = AssetTable::new();
    assert!(!table.contains(&other("a")));
    assert_eq!(table.get(&other("a")), None);
    table.insert(other("a"), 1);
    table.insert(other("b"), 2);
    table.insert(stellar("a"), 3);
    assert_eq!(table.get(&other("a")), Some(&1));
    assert_eq!(table.get(&other("b")), Some(&2));
    assert_eq!(table.get(&stellar("a")), Some(&3));
    table.insert(other("a"), 10);
    assert_eq!(table.get(&other("a")), Some(&10));
    assert_eq!(table.get(&other("b")), Some(&2));
    assert!(table.contains(&other("b")));
    assert!(!table.contains(&stellar("b")));
}

#[test]
fn test_new_env_is_empty() {
    let e = Env::new();
    assert!(!get_is_init(&e));
    assert!(!e.has_base());
    assert!(!e.has_decimals());
    assert!(!has_asset_config(&e, &other("USDC")));
    assert!(!get_blocked_status(&e, &other("USDC")));
    assert_eq!(get_last_fetched_price(&e, &other("USDC")), None);
    assert!(!get_circuit_breaker_status(&e, &other("USDC")));
    assert_eq!(get_circuit_breaker_timeout(&e, &other("USDC")), 0);
    assert!(!get_circuit_breaker(&e).enabled);
    assert_eq!(e.ledger().timestamp, 0);
}

#[test]
fn test_singleton_entries() {
    let mut e = Env::new();
    set_is_init(&mut e);
    assert!(get_is_init(&e));
    set_admin(&mut e, &"admin".to_string());
    assert_eq!(get_admin(&e), "admin");
    set_base(&mut e, &other("USDC"));
    assert!(get_base(&e).same(&other("USDC")));
    set_decimals(&mut e, &7);
    assert_eq!(get_decimals(&e), 7);
    set_assets(&mut e, &vec![stellar("x"), other("USDC")]);
    let listed = get_assets(&e);
    assert_eq!(listed.len(), 2);
    assert!(listed[0].same(&stellar("x")));
    assert!(listed[1].same(&other("USDC")));
    let again = assets(&e);
    assert_eq!(again.len(), 2);
    assert!(again[0].same(&stellar("x")));
    let settings = BreakerSettings { enabled: true, threshold: 5, timeout: 9 };
    set_circuit_breaker(&mut e, &settings);
    assert_eq!(get_circuit_breaker(&e), settings);
}

#[test]
fn test_per_asset_entries() {
    let mut e = Env::new();
    let usdc = other("USDC");
    let weth = other("wETH");
    let config = OracleConfig { oracle_id: "source".to_string(), decimals: 9, resolution: 300 };
    set_asset_config(&mut e, &usdc, &config);
    assert!(has_asset_config(&e, &usdc));
    assert!(!has_asset_config(&e, &weth));
    assert!(e.has(&AggregatorDataKey::AssetConfig(usdc.clone())));
    assert!(!e.has(&AggregatorDataKey::Blocked(usdc.clone())));
    let stored = get_asset_config(&e, &usdc);
    assert_eq!(stored.oracle_id, "source");
    assert_eq!(stored.decimals, 9);
    assert_eq!(stored.resolution, 300);

    set_blocked_status(&mut e, &usdc, &true);
    assert!(get_blocked_status(&e, &usdc));
    assert!(is_blocked(&e, &usdc));
    assert!(!is_blocked(&e, &weth));
    assert!(e.has(&AggregatorDataKey::Blocked(usdc.clone())));
    set_blocked_status(&mut e, &usdc, &false);
    assert!(!get_blocked_status(&e, &usdc));

    set_circuit_breaker_status(&mut e, &weth, &true);
    set_circuit_breaker_timeout(&mut e, &weth, &77);
    assert!(get_circuit_breaker_status(&e, &weth));
    assert_eq!(get_circuit_breaker_timeout(&e, &weth), 77);
    assert!(!get_circuit_breaker_status(&e, &usdc));
    assert!(e.has(&AggregatorDataKey::CircuitBreakerStatus(weth.clone())));
    assert!(e.has(&AggregatorDataKey::CircuitBreakerTimeout(weth.clone())));
    assert!(!e.has(&AggregatorDataKey::LastFetchedPrice(weth.clone())));
}

#[test]
fn test_config_for() {
    let mut e = Env::new();
    let usdc = other("USDC");
    let config = OracleConfig { oracle_id: "source".to_string(), decimals: 6, resolution: 600 };
    set_asset_config(&mut e, &usdc, &config);
    let found = config_for(&e, &usdc).unwrap();
    assert_eq!(found.decimals, 6);
    assert_eq!(found.resolution, 600);
    assert_eq!(config_for(&e, &other("wETH")).err(), Some(OracleAggregatorErrors::AssetNotFound));
}

#[test]
fn test_config_validity() {
    assert!(OracleConfig { oracle_id: String::new(), decimals: 38, resolution: 1 }.is_valid());
    assert!(!OracleConfig { oracle_id: String::new(), decimals: 39, resolution: 1 }.is_valid());
    assert!(!OracleConfig { oracle_id: String::new(), decimals: 7, resolution: 0 }.is_valid());
}

#[test]
fn test_cache_record_overwrites() {
    let mut e = Env::new();
    let usdc = other("USDC");
    record(&mut e, &usdc, &PriceData { price: 1, timestamp: 10 });
    record(&mut e, &usdc, &PriceData { price: 2, timestamp: 20 });
    assert_eq!(get_last_fetched_price(&e, &usdc), Some(PriceData { price: 2, timestamp: 20 }));
    set_last_fetched_price(&mut e, &usdc, &PriceData { price: 3, timestamp: 5 });
    assert_eq!(get_last_fetched_price(&e, &usdc), Some(PriceData { price: 3, timestamp: 5 }));
}

#[test]
fn test_cache_staleness_bound_is_inclusive() {
    let mut e = Env::new();
    let usdc = other("USDC");
    let stored = PriceData { price: 0_1100000, timestamp: 1000 };
    record(&mut e, &usdc, &stored);
    assert_eq!(MAX_PRICE_AGE, 300);
    assert_eq!(lookup_if_fresh(&e, &usdc, 1000, MAX_PRICE_AGE), Some(stored));
    assert_eq!(lookup_if_fresh(&e, &usdc, 1300, MAX_PRICE_AGE), Some(stored));
    assert_eq!(lookup_if_fresh(&e, &usdc, 1301, MAX_PRICE_AGE), None);
    assert_eq!(lookup_if_fresh(&e, &usdc, 999, MAX_PRICE_AGE), Some(stored));
    assert_eq!(lookup_if_fresh(&e, &other("wETH"), 1000, MAX_PRICE_AGE), None);
    assert!(is_fresh(0, 300, 300));
    assert!(!is_fresh(0, 301, 300));
    assert!(is_fresh(u64::MAX, 0, 0));
    assert!(!is_fresh(0, u64::MAX, u64::MAX - 1));
}

#[test]
fn test_extend_instance() {
    let mut e = Env::new();
    assert_eq!(ONE_DAY_LEDGERS, 24 * 60 * 60 / 5);
    assert_eq!(LEDGER_THRESHOLD_SHARED, 30 * ONE_DAY_LEDGERS);
    assert_eq!(LEDGER_BUMP_SHARED, 31 * ONE_DAY_LEDGERS);
    assert_eq!(e.instance_ttl(), 0);
    extend_instance(&mut e);
    assert_eq!(e.instance_ttl(), LEDGER_BUMP_SHARED);
    extend_instance(&mut e);
    assert_eq!(e.instance_ttl(), LEDGER_BUMP_SHARED);
}

#[test]
fn test_ledger_default_and_jump() {
    let mut e = Env::new();
    e.set_default_info();
    let info = e.ledger();
    assert_eq!(info.timestamp, 1441065600);
    assert_eq!(info.timestamp, DEFAULT_TIMESTAMP);
    assert_eq!(info.sequence_number, 100);
    assert_eq!(info.protocol_version, 20);
    assert_eq!(info.base_reserve, 10);
    assert_eq!(info.min_temp_entry_ttl, 50 * ONE_DAY_LEDGERS);
    assert_eq!(info.min_persistent_entry_ttl, 50 * ONE_DAY_LEDGERS);
    assert_eq!(info.max_entry_ttl, 365 * ONE_DAY_LEDGERS);
    e.jump(60);
    assert_eq!(e.ledger().timestamp, 1441065600 + 300);
    assert_eq!(e.ledger().sequence_number, 160);
    e.jump(u32::MAX);
    assert_eq!(e.ledger().sequence_number, u32::MAX);
    assert_eq!(e.ledger().timestamp, 1441065600 + 300 + 5 * (u32::MAX as u64));
}

#[test]
fn test_default_aggregator_settings() {
    let mut e = Env::new();
    e.set_default_info();
    let now = e.ledger().timestamp;
    let (settings, xlm_usdc_oracle, weth_oracle) = default_aggregator_settings(&e);
    assert_eq!(settings.assets.len(), 3);
    assert_eq!(settings.asset_configs.len(), 3);
    assert!(settings.assets[0].same(&stellar("XLM")));
    assert!(settings.assets[1].same(&other("USDC")));
    assert!(settings.assets[2].same(&other("wETH")));
    assert!(settings.base.same(&other("USDC")));
    assert_eq!(settings.decimals, 7);
    assert!(settings.enable_circuit_breaker);
    assert_eq!(settings.circuit_breaker_threshold, 100000);
    assert_eq!(settings.circuit_breaker_timeout, 7200);
    assert_eq!(settings.asset_configs[0].decimals, 9);
    assert_eq!(settings.asset_configs[0].resolution, 300);
    assert_eq!(settings.asset_configs[2].decimals, 6);
    assert_eq!(settings.asset_configs[2].resolution, 600);
    assert_eq!(settings.asset_configs[0].oracle_id, settings.asset_configs[1].oracle_id);
    assert_ne!(settings.asset_configs[0].oracle_id, settings.asset_configs[2].oracle_id);

    assert_eq!(
        xlm_usdc_oracle.lastprice(&stellar("XLM")),
        Some(PriceData { price: 0_110000000, timestamp: now })
    );
    assert_eq!(
        xlm_usdc_oracle.price(&stellar("XLM"), now - 300),
        Some(PriceData { price: 0_100000000, timestamp: now - 300 })
    );
    assert_eq!(
        xlm_usdc_oracle.price(&other("USDC"), now - 600),
        Some(PriceData { price: 1_010000000, timestamp: now - 600 })
    );
    assert_eq!(xlm_usdc_oracle.price(&other("USDC"), now - 1), None);
    assert_eq!(xlm_usdc_oracle.lastprice(&other("wETH")), None);
    assert_eq!(
        weth_oracle.price(&other("wETH"), now - 1200),
        Some(PriceData { price: 999_000000, timestamp: now - 1200 })
    );
    let feed = weth_oracle.quotes(&other("wETH"), 600);
    assert_eq!(feed.current, Some(PriceData { price: 1010_000000, timestamp: now }));
    assert_eq!(feed.reference, Some(PriceData { price: 1010_000000, timestamp: now - 600 }));

    create_oracle_aggregator(&mut e, &"admin".to_string(), &settings);
    assert!(get_is_init(&e));
    assert_eq!(get_decimals(&e), 7);
    assert!(has_asset_config(&e, &other("wETH")));
}
