use vstd::prelude::*;
use crate::circuit_breaker::BreakerSettings;
use crate::table::AssetTable;
use crate::types::{Asset, AssetId, OracleConfig, OracleConfigView, PriceData};

verus! {

/// Ledgers closed in one day, at five seconds per ledger.
pub const ONE_DAY_LEDGERS: u32 = 17280;

/// An instance with less lifetime left than this is due for an extension.
pub const LEDGER_THRESHOLD_SHARED: u32 = 518400;

/// The lifetime an extended instance is given.
pub const LEDGER_BUMP_SHARED: u32 = 535680;

/// The state of the ledger at the time of a call.
#[derive(Copy, Clone, Debug, PartialEq, Eq, Structural)]
pub struct LedgerInfo {
    pub timestamp: u64,
    pub protocol_version: u32,
    pub sequence_number: u32,
    pub base_reserve: u32,
    pub min_temp_entry_ttl: u32,
    pub min_persistent_entry_ttl: u32,
    pub max_entry_ttl: u32,
}

/// What a data key denotes.
pub enum DataKeyId {
    AssetConfig(AssetId),
    LastFetchedPrice(AssetId),
    CircuitBreakerStatus(AssetId),
    CircuitBreakerTimeout(AssetId),
    Blocked(AssetId),
}

/// The key of a per-asset entry: the concern it belongs to, and the asset.
#[derive(Debug)]
pub enum AggregatorDataKey {
    AssetConfig(Asset),
    LastFetchedPrice(Asset),
    CircuitBreakerStatus(Asset),
    CircuitBreakerTimeout(Asset),
    Blocked(Asset),
}

impl View for AggregatorDataKey {
    type V = DataKeyId;

    open spec fn view(&self) -> DataKeyId {
        match self {
            AggregatorDataKey::AssetConfig(a) => DataKeyId::AssetConfig(a@),
            AggregatorDataKey::LastFetchedPrice(a) => DataKeyId::LastFetchedPrice(a@),
            AggregatorDataKey::CircuitBreakerStatus(a) => DataKeyId::CircuitBreakerStatus(a@),
            AggregatorDataKey::CircuitBreakerTimeout(a) => DataKeyId::CircuitBreakerTimeout(a@),
            AggregatorDataKey::Blocked(a) => DataKeyId::Blocked(a@),
        }
    }
}

/// What an [`Env`] holds: the ledger, the singleton entries, and one map
/// from assets to values for each per-asset concern.
pub struct EnvView {
    pub ledger: LedgerInfo,
    pub instance_ttl: u32,
    pub is_init: bool,
    pub admin: Option<Seq<char>>,
    pub assets: Option<Seq<AssetId>>,
    pub base: Option<AssetId>,
    pub decimals: Option<u32>,
    pub circuit_breaker: Option<BreakerSettings>,
    pub asset_configs: Map<AssetId, OracleConfigView>,
    pub last_fetched_prices: Map<AssetId, PriceData>,
    pub circuit_breaker_status: Map<AssetId, bool>,
    pub circuit_breaker_timeout: Map<AssetId, u64>,
    pub blocked: Map<AssetId, bool>,
}

impl EnvView {
    /// Whether an entry is stored under `key`.
    pub open spec fn has(self, key: DataKeyId) -> bool {
        match key {
            DataKeyId::AssetConfig(a) => self.asset_configs.contains_key(a),
            DataKeyId::LastFetchedPrice(a) => self.last_fetched_prices.contains_key(a),
            DataKeyId::CircuitBreakerStatus(a) => self.circuit_breaker_status.contains_key(a),
            DataKeyId::CircuitBreakerTimeout(a) => self.circuit_breaker_timeout.contains_key(a),
            DataKeyId::Blocked(a) => self.blocked.contains_key(a),
        }
    }
}

/// The assets that a list of assets names, in order.
pub open spec fn asset_ids(assets: Seq<Asset>) -> Seq<AssetId> {
    assets.map_values(|a: Asset| a@)
}

/// The environment a call runs in: the ledger's clock and the durable
/// entries of the aggregator.
pub struct Env {
    ledger: LedgerInfo,
    instance_ttl: u32,
    is_init: bool,
    admin: Option<String>,
    assets: Option<Vec<Asset>>,
    base: Option<Asset>,
    decimals: Option<u32>,
    circuit_breaker: Option<BreakerSettings>,
    asset_configs: AssetTable<OracleConfig>,
    last_fetched_prices: AssetTable<PriceData>,
    circuit_breaker_status: AssetTable<bool>,
    circuit_breaker_timeout: AssetTable<u64>,
    blocked: AssetTable<bool>,
}

impl View for Env {
    type V = EnvView;

    closed spec fn view(&self) -> EnvView {
        EnvView {
            ledger: self.ledger,
            instance_ttl: self.instance_ttl,
            is_init: self.is_init,
            admin: match self.admin {
                Some(a) => Some(a@),
                None => None,
            },
            assets: match self.assets {
                Some(v) => Some(asset_ids(v@)),
                None => None,
            },
            base: match self.base {
                Some(b) => Some(b@),
                None => None,
            },
            decimals: self.decimals,
            circuit_breaker: self.circuit_breaker,
            asset_configs: self.asset_configs@.map_values(|c: OracleConfig| c@),
            last_fetched_prices: self.last_fetched_prices@,
            circuit_breaker_status: self.circuit_breaker_status@,
            circuit_breaker_timeout: self.circuit_breaker_timeout@,
            blocked: self.blocked@,
        }
    }
}

/// The environment before anything was stored, at the start of time.
pub open spec fn empty_env() -> EnvView {
    EnvView {
        ledger: LedgerInfo {
            timestamp: 0,
            protocol_version: 0,
            sequence_number: 0,
            base_reserve: 0,
            min_temp_entry_ttl: 0,
            min_persistent_entry_ttl: 0,
            max_entry_ttl: 0,
        },
        instance_ttl: 0,
        is_init: false,
        admin: None,
        assets: None,
        base: None,
        decimals: None,
        circuit_breaker: None,
        asset_configs: Map::empty(),
        last_fetched_prices: Map::empty(),
        circuit_breaker_status: Map::empty(),
        circuit_breaker_timeout: Map::empty(),
        blocked: Map::empty(),
    }
}

impl Env {
    /// An environment that holds nothing yet.
    pub fn new() -> (e: Env)
        ensures
            e@ == empty_env(),
    {
        let e = Env {
            ledger: LedgerInfo {
                timestamp: 0,
                protocol_version: 0,
                sequence_number: 0,
                base_reserve: 0,
                min_temp_entry_ttl: 0,
                min_persistent_entry_ttl: 0,
                max_entry_ttl: 0,
            },
            instance_ttl: 0,
            is_init: false,
            admin: None,
            assets: None,
            base: None,
            decimals: None,
            circuit_breaker: None,
            asset_configs: AssetTable::new(),
            last_fetched_prices: AssetTable::new(),
            circuit_breaker_status: AssetTable::new(),
            circuit_breaker_timeout: AssetTable::new(),
            blocked: AssetTable::new(),
        };
        assert(e@.asset_configs =~= Map::empty());
        e
    }

    /// The state of the ledger.
    pub fn ledger(&self) -> (info: LedgerInfo)
        ensures
            info == self@.ledger,
    {
        self.ledger
    }

    /// Moves the ledger to `info`; the stored entries stay as they are.
    pub fn set_ledger(&mut self, info: LedgerInfo)
        ensures
            final(self)@ == (EnvView { ledger: info, ..old(self)@ }),
    {
        self.ledger = info;
    }

    /// The lifetime left to the instance, in ledgers.
    pub fn instance_ttl(&self) -> (ttl: u32)
        ensures
            ttl == self@.instance_ttl,
    {
        self.instance_ttl
    }

    /// Whether the base asset is set.
    pub fn has_base(&self) -> (b: bool)
        ensures
            b == (self@.base is Some),
    {
        self.base.is_some()
    }

    /// Whether the output precision is set.
    pub fn has_decimals(&self) -> (b: bool)
        ensures
            b == (self@.decimals is Some),
    {
        self.decimals.is_some()
    }

    /// Whether an entry is stored under `key`.
    pub fn has(&self, key: &AggregatorDataKey) -> (b: bool)
        ensures
            b == self@.has(key@),
    {
        match key {
            AggregatorDataKey::AssetConfig(a) => self.asset_configs.contains(a),
            AggregatorDataKey::LastFetchedPrice(a) => self.last_fetched_prices.contains(a),
            AggregatorDataKey::CircuitBreakerStatus(a) => self.circuit_breaker_status.contains(a),
            AggregatorDataKey::CircuitBreakerTimeout(a) => self.circuit_breaker_timeout.contains(a),
            AggregatorDataKey::Blocked(a) => self.blocked.contains(a),
        }
    }
}

/// A copy of a list of assets.
pub fn clone_assets(assets: &Vec<Asset>) -> (r: Vec<Asset>)
    ensures
        asset_ids(r@) == asset_ids(assets@),
{
    let mut r: Vec<Asset> = Vec::new();
    let mut i: usize = 0;
    while i < assets.len()
        invariant
            i <= assets.len(),
            r.len() == i,
            forall|j: int| 0 <= j < i ==> r[j]@ == assets[j]@,
        decreases assets.len() - i,
    {
        r.push(assets[i].clone());
        i = i + 1;
    }
    assert(asset_ids(r@) =~= asset_ids(assets@));
    r
}

//********** Storage Utils **********//

/// Extends the instance's lifetime when it has run low.
pub fn extend_instance(e: &mut Env)
    ensures
        final(e)@ == (EnvView {
            instance_ttl: if old(e)@.instance_ttl < LEDGER_THRESHOLD_SHARED {
                LEDGER_BUMP_SHARED
            } else {
                old(e)@.instance_ttl
            },
            ..old(e)@
        }),
{
    if e.instance_ttl < LEDGER_THRESHOLD_SHARED {
        e.instance_ttl = LEDGER_BUMP_SHARED;
    }
}

/// The value bound to `key`, or `default` where nothing is bound.
fn get_persistent_default<V: Copy>(table: &AssetTable<V>, key: &Asset, default: V) -> (r: V)
    ensures
        r == if table@.contains_key(key@) {
            table@[key@]
        } else {
            default
        },
{
    match table.get(key) {
        Some(v) => *v,
        None => default,
    }
}

/********** Instance **********/

/// Whether the aggregator has been initialized.
pub fn get_is_init(e: &Env) -> (b: bool)
    ensures
        b == e@.is_init,
{
    e.is_init
}

/// Marks the aggregator as initialized.
pub fn set_is_init(e: &mut Env)
    ensures
        final(e)@ == (EnvView { is_init: true, ..old(e)@ }),
{
    e.is_init = true;
}

/// The admin's address.
pub fn get_admin(e: &Env) -> (admin: String)
    requires
        e@.admin is Some,
    ensures
        Some(admin@) == e@.admin,
{
    match &e.admin {
        Some(a) => a.clone(),
        None => String::new(),
    }
}

/// Sets the admin's address.
pub fn set_admin(e: &mut Env, admin: &String)
    ensures
        final(e)@ == (EnvView { admin: Some(admin@), ..old(e)@ }),
{
    e.admin = Some(admin.clone());
}

/********** Persistent **********/

/// Stores the list of registered assets.
pub fn set_assets(e: &mut Env, assets: &Vec<Asset>)
    ensures
        final(e)@ == (EnvView { assets: Some(asset_ids(assets@)), ..old(e)@ }),
{
    e.assets = Some(clone_assets(assets));
}

/// The registered assets, in the order in which they were registered.
pub fn get_assets(e: &Env) -> (assets: Vec<Asset>)
    requires
        e@.assets is Some,
    ensures
        Some(asset_ids(assets@)) == e@.assets,
{
    match &e.assets {
        Some(v) => clone_assets(v),
        None => Vec::new(),
    }
}

/// Stores the configuration of `asset`.
pub fn set_asset_config(e: &mut Env, asset: &Asset, config: &OracleConfig)
    ensures
        final(e)@ == (EnvView {
            asset_configs: old(e)@.asset_configs.insert(asset@, config@),
            ..old(e)@
        }),
{
    let ghost before = e.asset_configs@;
    let stored = config.clone();
    e.asset_configs.insert(asset.clone(), stored);
    assert(e.asset_configs@.map_values(|c: OracleConfig| c@) =~= before.map_values(
        |c: OracleConfig| c@,
    ).insert(asset@, config@));
}

/// The configuration of `asset`.
pub fn get_asset_config(e: &Env, asset: &Asset) -> (config: OracleConfig)
    requires
        e@.asset_configs.contains_key(asset@),
    ensures
        config@ == e@.asset_configs[asset@],
{
    match e.asset_configs.get(asset) {
        Some(c) => c.clone(),
        None => OracleConfig { oracle_id: String::new(), decimals: 0, resolution: 0 },
    }
}

/// Whether `asset` has a configuration, that is, whether it is registered.
pub fn has_asset_config(e: &Env, asset: &Asset) -> (b: bool)
    ensures
        b == e@.asset_configs.contains_key(asset@),
{
    let key = AggregatorDataKey::AssetConfig(asset.clone());
    e.has(&key)
}

/// Stores the base asset.
pub fn set_base(e: &mut Env, base: &Asset)
    ensures
        final(e)@ == (EnvView { base: Some(base@), ..old(e)@ }),
{
    e.base = Some(base.clone());
}

/// The base asset.
pub fn get_base(e: &Env) -> (base: Asset)
    requires
        e@.base is Some,
    ensures
        Some(base@) == e@.base,
{
    match &e.base {
        Some(b) => b.clone(),
        None => Asset::Other(String::new()),
    }
}

/// Stores the decimals in which the aggregator reports prices.
pub fn set_decimals(e: &mut Env, decimals: &u32)
    ensures
        final(e)@ == (EnvView { decimals: Some(*decimals), ..old(e)@ }),
{
    e.decimals = Some(*decimals);
}

/// The decimals in which the aggregator reports prices.
pub fn get_decimals(e: &Env) -> (decimals: u32)
    requires
        e@.decimals is Some,
    ensures
        Some(decimals) == e@.decimals,
{
    match e.decimals {
        Some(d) => d,
        None => 0,
    }
}

/// Stores the circuit breaker's parameters.
pub fn set_circuit_breaker(e: &mut Env, settings: &BreakerSettings)
    ensures
        final(e)@ == (EnvView { circuit_breaker: Some(*settings), ..old(e)@ }),
{
    e.circuit_breaker = Some(*settings);
}

/// The circuit breaker's parameters; a breaker that was never set up is
/// disabled.
pub fn get_circuit_breaker(e: &Env) -> (settings: BreakerSettings)
    ensures
        settings == spec_circuit_breaker(e@),
{
    match e.circuit_breaker {
        Some(s) => s,
        None => BreakerSettings { enabled: false, threshold: 0, timeout: 0 },
    }
}

/// The circuit breaker's parameters in `e`.
pub open spec fn spec_circuit_breaker(e: EnvView) -> BreakerSettings {
    match e.circuit_breaker {
        Some(s) => s,
        None => BreakerSettings { enabled: false, threshold: 0, timeout: 0 },
    }
}

/// Blocks or unblocks `asset`.
pub fn set_blocked_status(e: &mut Env, asset: &Asset, blocked: &bool)
    ensures
        final(e)@ == (EnvView { blocked: old(e)@.blocked.insert(asset@, *blocked), ..old(e)@ }),
{
    e.blocked.insert(asset.clone(), *blocked);
}

/// Whether `asset` is blocked; an asset is not blocked until it is set so.
pub fn get_blocked_status(e: &Env, asset: &Asset) -> (b: bool)
    ensures
        b == spec_is_blocked(e@, asset@),
{
    get_persistent_default(&e.blocked, asset, false)
}

/// Whether `asset` is blocked in `e`.
pub open spec fn spec_is_blocked(e: EnvView, asset: AssetId) -> bool {
    e.blocked.contains_key(asset) && e.blocked[asset]
}

/// Records the price last resolved for `asset`, over any earlier one.
pub fn set_last_fetched_price(e: &mut Env, asset: &Asset, price: &PriceData)
    ensures
        final(e)@ == (EnvView {
            last_fetched_prices: old(e)@.last_fetched_prices.insert(asset@, *price),
            ..old(e)@
        }),
{
    e.last_fetched_prices.insert(asset.clone(), *price);
}

/// The price last resolved for `asset`, if one was recorded.
pub fn get_last_fetched_price(e: &Env, asset: &Asset) -> (r: Option<PriceData>)
    ensures
        r == spec_last_fetched_price(e@, asset@),
{
    match e.last_fetched_prices.get(asset) {
        Some(p) => Some(*p),
        None => None,
    }
}

/// The price last resolved for `asset` in `e`.
pub open spec fn spec_last_fetched_price(e: EnvView, asset: AssetId) -> Option<PriceData> {
    if e.last_fetched_prices.contains_key(asset) {
        Some(e.last_fetched_prices[asset])
    } else {
        None
    }
}

/// Records whether the breaker of `asset` is tripped.
pub fn set_circuit_breaker_status(e: &mut Env, asset: &Asset, tripped: &bool)
    ensures
        final(e)@ == (EnvView {
            circuit_breaker_status: old(e)@.circuit_breaker_status.insert(asset@, *tripped),
            ..old(e)@
        }),
{
    e.circuit_breaker_status.insert(asset.clone(), *tripped);
}

/// Whether the breaker of `asset` is tripped; it is not until it is set so.
pub fn get_circuit_breaker_status(e: &Env, asset: &Asset) -> (b: bool)
    ensures
        b == spec_breaker_status(e@, asset@),
{
    get_persistent_default(&e.circuit_breaker_status, asset, false)
}

/// Whether the breaker of `asset` is tripped in `e`.
pub open spec fn spec_breaker_status(e: EnvView, asset: AssetId) -> bool {
    e.circuit_breaker_status.contains_key(asset) && e.circuit_breaker_status[asset]
}

/// Records the time until which a trip of the breaker of `asset` lasts.
pub fn set_circuit_breaker_timeout(e: &mut Env, asset: &Asset, until: &u64)
    ensures
        final(e)@ == (EnvView {
            circuit_breaker_timeout: old(e)@.circuit_breaker_timeout.insert(asset@, *until),
            ..old(e)@
        }),
{
    e.circuit_breaker_timeout.insert(asset.clone(), *until);
}

/// The time until which a trip of the breaker of `asset` lasts; zero where
/// none was recorded.
pub fn get_circuit_breaker_timeout(e: &Env, asset: &Asset) -> (until: u64)
    ensures
        until == spec_breaker_timeout(e@, asset@),
{
    get_persistent_default(&e.circuit_breaker_timeout, asset, 0)
}

/// The time until which a trip of the breaker of `asset` lasts in `e`.
pub open spec fn spec_breaker_timeout(e: EnvView, asset: AssetId) -> u64 {
    if e.circuit_breaker_timeout.contains_key(asset) {
        e.circuit_breaker_timeout[asset]
    } else {
        0
    }
}

} // verus!
