use vstd::prelude::*;

verus! {

/// What an [`Asset`] denotes: the kind of identifier and its text.
pub enum AssetId {
    Stellar(Seq<char>),
    Other(Seq<char>),
}

/// A priceable instrument: a ledger account address or a symbolic code.
#[derive(Debug)]
pub enum Asset {
    Stellar(String),
    Other(String),
}

impl View for Asset {
    type V = AssetId;

    open spec fn view(&self) -> AssetId {
        match self {
            Asset::Stellar(a) => AssetId::Stellar(a@),
            Asset::Other(s) => AssetId::Other(s@),
        }
    }
}

impl Clone for Asset {
    fn clone(&self) -> (r: Asset)
        ensures
            r@ == self@,
    {
        match self {
            Asset::Stellar(a) => Asset::Stellar(a.clone()),
            Asset::Other(s) => Asset::Other(s.clone()),
        }
    }
}

impl Asset {
    /// Structural equality: same kind and same text.
    pub fn same(&self, other: &Asset) -> (b: bool)
        ensures
            b == (self@ == other@),
    {
        match self {
            Asset::Stellar(a) => match other {
                Asset::Stellar(b) => *a == *b,
                Asset::Other(_) => false,
            },
            Asset::Other(a) => match other {
                Asset::Stellar(_) => false,
                Asset::Other(b) => *a == *b,
            },
        }
    }
}

/// One observation of an asset's price: a fixed-point integer and the time,
/// in seconds, at which it was sampled.
#[derive(Copy, Clone, Debug, PartialEq, Eq, Structural)]
pub struct PriceData {
    pub price: i128,
    pub timestamp: u64,
}

/// What an [`OracleConfig`] denotes.
pub struct OracleConfigView {
    pub oracle_id: Seq<char>,
    pub decimals: u32,
    pub resolution: u32,
}

/// Where an asset's price comes from: the upstream source, the decimal
/// precision that source reports in, and the seconds between its samples.
#[derive(Debug)]
pub struct OracleConfig {
    pub oracle_id: String,
    pub decimals: u32,
    pub resolution: u32,
}

impl View for OracleConfig {
    type V = OracleConfigView;

    open spec fn view(&self) -> OracleConfigView {
        OracleConfigView {
            oracle_id: self.oracle_id@,
            decimals: self.decimals,
            resolution: self.resolution,
        }
    }
}

impl Clone for OracleConfig {
    fn clone(&self) -> (r: OracleConfig)
        ensures
            r@ == self@,
    {
        OracleConfig {
            oracle_id: self.oracle_id.clone(),
            decimals: self.decimals,
            resolution: self.resolution,
        }
    }
}

/// The largest decimal precision a source or the aggregator may use:
/// the largest power of ten that a price can be scaled by.
pub const MAX_DECIMALS: u32 = 38;

impl OracleConfigView {
    /// A configuration is valid when its source samples at a positive
    /// interval and its precision is one a price can be scaled to.
    pub open spec fn is_valid(self) -> bool {
        self.resolution > 0 && self.decimals <= MAX_DECIMALS
    }
}

impl OracleConfig {
    /// Whether this configuration is valid.
    pub fn is_valid(&self) -> (b: bool)
        ensures
            b == self@.is_valid(),
    {
        self.resolution > 0 && self.decimals <= MAX_DECIMALS
    }
}

/// What a [`SettingsConfig`] denotes.
pub struct SettingsView {
    pub assets: Seq<AssetId>,
    pub asset_configs: Seq<OracleConfigView>,
    pub decimals: u32,
    pub base: AssetId,
    pub enable_circuit_breaker: bool,
    pub circuit_breaker_threshold: u32,
    pub circuit_breaker_timeout: u64,
}

/// Everything an aggregator is set up with, once.
#[derive(Debug)]
pub struct SettingsConfig {
    pub assets: Vec<Asset>,
    pub asset_configs: Vec<OracleConfig>,
    pub decimals: u32,
    pub base: Asset,
    pub enable_circuit_breaker: bool,
    pub circuit_breaker_threshold: u32,
    pub circuit_breaker_timeout: u64,
}

impl View for SettingsConfig {
    type V = SettingsView;

    open spec fn view(&self) -> SettingsView {
        SettingsView {
            assets: self.assets@.map_values(|a: Asset| a@),
            asset_configs: self.asset_configs@.map_values(|c: OracleConfig| c@),
            decimals: self.decimals,
            base: self.base@,
            enable_circuit_breaker: self.enable_circuit_breaker,
            circuit_breaker_threshold: self.circuit_breaker_threshold,
            circuit_breaker_timeout: self.circuit_breaker_timeout,
        }
    }
}

} // verus!
