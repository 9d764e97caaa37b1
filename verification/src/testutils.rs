use vstd::prelude::*;
use crate::contract::{
    initialize, reference_timestamp, spec_initialize_error, spec_initialized,
    spec_reference_timestamp, Quotes,
};
use crate::storage::{Env, EnvView, LedgerInfo, ONE_DAY_LEDGERS};
use crate::table::AssetTable;
use crate::types::{Asset, AssetId, OracleConfig, PriceData, SettingsConfig, SettingsView, OracleConfigView};

verus! {

/// The ledger's clock at the default state: September 1st, 2015, 12:00:00 AM UTC.
pub const DEFAULT_TIMESTAMP: u64 = 1441065600;

/// The ledger that lies `ledgers` ledgers after `info`, at five seconds
/// per ledger.
pub open spec fn spec_jump(info: LedgerInfo, ledgers: u32) -> LedgerInfo {
    LedgerInfo {
        timestamp: if info.timestamp + ledgers * 5 > u64::MAX {
            u64::MAX
        } else {
            (info.timestamp + ledgers * 5) as u64
        },
        protocol_version: 20,
        sequence_number: if info.sequence_number + ledgers > u32::MAX {
            u32::MAX
        } else {
            (info.sequence_number + ledgers) as u32
        },
        base_reserve: 10,
        min_temp_entry_ttl: 864000,
        min_persistent_entry_ttl: 864000,
        max_entry_ttl: 6307200,
    }
}

/// The default state of the ledger.
pub open spec fn spec_default_info() -> LedgerInfo {
    LedgerInfo {
        timestamp: DEFAULT_TIMESTAMP,
        protocol_version: 20,
        sequence_number: 100,
        base_reserve: 10,
        min_temp_entry_ttl: 864000,
        min_persistent_entry_ttl: 864000,
        max_entry_ttl: 6307200,
    }
}

/// Moving an environment's ledger about.
pub trait EnvTestUtils {
    /// Jump the env by the given amount of ledgers. Assumes 5 seconds per ledger.
    fn jump(&mut self, ledgers: u32);

    /// Set the ledger to the default LedgerInfo
    ///
    /// Time -> 1441065600 (Sept 1st, 2015 12:00:00 AM UTC)
    /// Sequence -> 100
    fn set_default_info(&mut self);
}

impl EnvTestUtils for Env {
    fn jump(&mut self, ledgers: u32)
        ensures
            final(self)@ == (EnvView {
                ledger: spec_jump(old(self)@.ledger, ledgers),
                ..old(self)@
            }),
    {
        let info = self.ledger();
        self.set_ledger(
            LedgerInfo {
                timestamp: info.timestamp.saturating_add(ledgers as u64 * 5),
                protocol_version: 20,
                sequence_number: info.sequence_number.saturating_add(ledgers),
                base_reserve: 10,
                min_temp_entry_ttl: 50 * ONE_DAY_LEDGERS,
                min_persistent_entry_ttl: 50 * ONE_DAY_LEDGERS,
                max_entry_ttl: 365 * ONE_DAY_LEDGERS,
            },
        );
    }

    fn set_default_info(&mut self)
        ensures
            final(self)@ == (EnvView { ledger: spec_default_info(), ..old(self)@ }),
    {
        self.set_ledger(
            LedgerInfo {
                timestamp: DEFAULT_TIMESTAMP,
                protocol_version: 20,
                sequence_number: 100,
                base_reserve: 10,
                min_temp_entry_ttl: 50 * ONE_DAY_LEDGERS,
                min_persistent_entry_ttl: 50 * ONE_DAY_LEDGERS,
                max_entry_ttl: 365 * ONE_DAY_LEDGERS,
            },
        );
    }
}

/// The first of `prices` that was sampled at `timestamp`.
pub open spec fn spec_sample_at(prices: Seq<PriceData>, timestamp: u64) -> Option<PriceData>
    decreases prices.len(),
{
    if prices.len() == 0 {
        None
    } else if prices[0].timestamp == timestamp {
        Some(prices[0])
    } else {
        spec_sample_at(prices.skip(1), timestamp)
    }
}

/// The most recent of `prices`, which are listed newest first.
pub open spec fn spec_latest(prices: Seq<PriceData>) -> Option<PriceData> {
    if prices.len() == 0 {
        None
    } else {
        Some(prices[0])
    }
}

/// What a source with the history `prices` answers when asked for its
/// last price and for the one a sampling interval before it.
pub open spec fn spec_quotes(prices: Seq<PriceData>, resolution: u32) -> Quotes {
    match spec_latest(prices) {
        Some(latest) => Quotes {
            current: Some(latest),
            reference: spec_sample_at(prices, spec_reference_timestamp(latest.timestamp, resolution)),
        },
        None => Quotes { current: None, reference: None },
    }
}

/// A price source that answers from the histories it was given: for each
/// asset a list of observations, newest first.
pub struct MockOracle {
    prices: AssetTable<Vec<PriceData>>,
}

impl View for MockOracle {
    type V = Map<AssetId, Seq<PriceData>>;

    closed spec fn view(&self) -> Map<AssetId, Seq<PriceData>> {
        self.prices@.map_values(|v: Vec<PriceData>| v@)
    }
}

/// The history that a source holds for `asset`: empty where it has none.
pub open spec fn spec_history(oracle: Map<AssetId, Seq<PriceData>>, asset: AssetId) -> Seq<PriceData> {
    if oracle.contains_key(asset) {
        oracle[asset]
    } else {
        Seq::empty()
    }
}

impl MockOracle {
    /// A source without observations.
    pub fn new() -> (oracle: MockOracle)
        ensures
            oracle@ == Map::<AssetId, Seq<PriceData>>::empty(),
    {
        let oracle = MockOracle { prices: AssetTable::new() };
        assert(oracle@ =~= Map::<AssetId, Seq<PriceData>>::empty());
        oracle
    }

    /// Gives the source the history of `asset`, newest observation first.
    pub fn set_prices(&mut self, asset: &Asset, prices: Vec<PriceData>)
        ensures
            final(self)@ == old(self)@.insert(asset@, prices@),
    {
        let ghost before = self.prices@;
        let ghost history = prices@;
        self.prices.insert(asset.clone(), prices);
        assert(self.prices@.map_values(|v: Vec<PriceData>| v@) =~= before.map_values(
            |v: Vec<PriceData>| v@,
        ).insert(asset@, history));
    }

    /// The most recent observation of `asset`.
    pub fn lastprice(&self, asset: &Asset) -> (r: Option<PriceData>)
        ensures
            r == spec_latest(spec_history(self@, asset@)),
    {
        match self.prices.get(asset) {
            Some(history) => if history.len() > 0 {
                Some(history[0])
            } else {
                None
            },
            None => None,
        }
    }

    /// The observation of `asset` that was sampled at `timestamp`.
    pub fn price(&self, asset: &Asset, timestamp: u64) -> (r: Option<PriceData>)
        ensures
            r == spec_sample_at(spec_history(self@, asset@), timestamp),
    {
        match self.prices.get(asset) {
            Some(history) => {
                let mut i: usize = 0;
                assert(history@.skip(0) =~= history@);
                while i < history.len()
                    invariant
                        i <= history.len(),
                        history@ == spec_history(self@, asset@),
                        spec_sample_at(history@, timestamp) == spec_sample_at(
                            history@.skip(i as int),
                            timestamp,
                        ),
                    decreases history.len() - i,
                {
                    assert(history@.skip(i as int).skip(1) =~= history@.skip(i + 1));
                    if history[i].timestamp == timestamp {
                        return Some(history[i]);
                    }
                    i = i + 1;
                }
                None
            },
            None => None,
        }
    }

    /// What the source answers for `asset`: its last observation, and the
    /// one sampled `resolution` seconds before it.
    pub fn quotes(&self, asset: &Asset, resolution: u32) -> (r: Quotes)
        ensures
            r == spec_quotes(spec_history(self@, asset@), resolution),
    {
        match self.lastprice(asset) {
            Some(latest) => Quotes {
                current: Some(latest),
                reference: self.price(asset, reference_timestamp(latest.timestamp, resolution)),
            },
            None => Quotes { current: None, reference: None },
        }
    }
}

/// Three observations, the newest at `now` and one every `resolution`
/// seconds before it.
pub open spec fn spec_samples(
    latest: i128,
    earlier: i128,
    earliest: i128,
    now: u64,
    resolution: u64,
) -> Seq<PriceData> {
    seq![
        PriceData { price: latest, timestamp: now },
        PriceData { price: earlier, timestamp: (now - resolution) as u64 },
        PriceData { price: earliest, timestamp: (now - 2 * resolution) as u64 },
    ]
}

fn samples(latest: i128, earlier: i128, earliest: i128, now: u64, resolution: u64) -> (r: Vec<
    PriceData,
>)
    requires
        2 * resolution <= now,
    ensures
        r@ == spec_samples(latest, earlier, earliest, now, resolution),
{
    let mut r: Vec<PriceData> = Vec::new();
    r.push(PriceData { price: latest, timestamp: now });
    r.push(PriceData { price: earlier, timestamp: now - resolution });
    r.push(PriceData { price: earliest, timestamp: now - resolution * 2 });
    assert(r@ =~= spec_samples(latest, earlier, earliest, now, resolution));
    r
}

/// The asset that stands for the native token in the default settings.
pub open spec fn xlm() -> AssetId {
    AssetId::Stellar("XLM"@)
}

/// The asset `USDC`, the base of the default settings.
pub open spec fn usdc() -> AssetId {
    AssetId::Other("USDC"@)
}

/// The asset `wETH`.
pub open spec fn weth() -> AssetId {
    AssetId::Other("wETH"@)
}

/// The default settings: three assets quoted in `USDC` at seven decimals,
/// two of them from one source at nine decimals and five-minute samples,
/// the third from another at six decimals and ten-minute samples, behind
/// a breaker that trips at a tenth and stays tripped for two hours.
pub open spec fn spec_default_settings() -> SettingsView {
    SettingsView {
        assets: seq![xlm(), usdc(), weth()],
        asset_configs: seq![
            OracleConfigView { oracle_id: "xlm-usdc-oracle"@, decimals: 9, resolution: 300 },
            OracleConfigView { oracle_id: "xlm-usdc-oracle"@, decimals: 9, resolution: 300 },
            OracleConfigView { oracle_id: "weth-oracle"@, decimals: 6, resolution: 600 },
        ],
        decimals: 7,
        base: usdc(),
        enable_circuit_breaker: true,
        circuit_breaker_threshold: 100000,
        circuit_breaker_timeout: 7200,
    }
}

/// Sets up an aggregator in `e` with `config`.
pub fn create_oracle_aggregator(e: &mut Env, admin: &String, config: &SettingsConfig)
    requires
        spec_initialize_error(old(e)@, config@) is None,
    ensures
        final(e)@ == spec_initialized(old(e)@, admin@, config@),
{
    let _ = initialize(e, admin, config);
}

/// The default settings, and the two sources they name, each with three
/// observations of its assets that end at the ledger's time.
pub fn default_aggregator_settings(e: &Env) -> (r: (SettingsConfig, MockOracle, MockOracle))
    requires
        e@.ledger.timestamp >= 1200,
    ensures
        r.0@ == spec_default_settings(),
        r.1@ == Map::<AssetId, Seq<PriceData>>::empty().insert(
            xlm(),
            spec_samples(0_110000000, 0_100000000, 0_120000000, e@.ledger.timestamp, 300),
        ).insert(
            usdc(),
            spec_samples(1_000000000, 0_990000000, 1_010000000, e@.ledger.timestamp, 300),
        ),
        r.2@ == Map::<AssetId, Seq<PriceData>>::empty().insert(
            weth(),
            spec_samples(1010_000000, 1010_000000, 999_000000, e@.ledger.timestamp, 600),
        ),
{
    let now = e.ledger().timestamp;
    let xlm = Asset::Stellar("XLM".to_owned());
    let usdc = Asset::Other("USDC".to_owned());
    let weth = Asset::Other("wETH".to_owned());

    let mut assets: Vec<Asset> = Vec::new();
    assets.push(xlm.clone());
    assets.push(usdc.clone());
    assets.push(weth.clone());

    let mut xlm_usdc_oracle = MockOracle::new();
    xlm_usdc_oracle.set_prices(&xlm, samples(0_110000000, 0_100000000, 0_120000000, now, 300));
    xlm_usdc_oracle.set_prices(&usdc, samples(1_000000000, 0_990000000, 1_010000000, now, 300));

    let mut weth_oracle = MockOracle::new();
    weth_oracle.set_prices(&weth, samples(1010_000000, 1010_000000, 999_000000, now, 600));

    let mut asset_configs: Vec<OracleConfig> = Vec::new();
    asset_configs.push(
        OracleConfig { oracle_id: "xlm-usdc-oracle".to_owned(), decimals: 9, resolution: 300 },
    );
    asset_configs.push(
        OracleConfig { oracle_id: "xlm-usdc-oracle".to_owned(), decimals: 9, resolution: 300 },
    );
    asset_configs.push(
        OracleConfig { oracle_id: "weth-oracle".to_owned(), decimals: 6, resolution: 600 },
    );

    let settings = SettingsConfig {
        assets,
        asset_configs,
        decimals: 7,
        base: usdc,
        enable_circuit_breaker: true,
        // a tenth of the previous price within one sampling interval
        circuit_breaker_threshold: 100000,
        // 2 hours
        circuit_breaker_timeout: 7200,
    };
    assert(settings@.assets =~= spec_default_settings().assets);
    assert(settings@.asset_configs =~= spec_default_settings().asset_configs);
    (settings, xlm_usdc_oracle, weth_oracle)
}

} // verus!
