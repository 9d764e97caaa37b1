use vstd::prelude::*;
use crate::circuit_breaker::{evaluate, spec_evaluate, BreakerSettings, BreakerState, Decision};
use crate::decimals::{checked_rescale, rescale, rescale_fits, spec_rescale};
use crate::errors::OracleAggregatorErrors;
use crate::price_cache::{lookup_if_fresh, record, spec_lookup_if_fresh, spec_record, MAX_PRICE_AGE};
use crate::registry::{config_for, is_blocked};
use crate::storage::{
    get_base, get_circuit_breaker, get_circuit_breaker_status, get_circuit_breaker_timeout,
    get_decimals, get_is_init, set_admin, set_asset_config, set_assets, set_base,
    set_blocked_status, set_circuit_breaker, set_circuit_breaker_status,
    set_circuit_breaker_timeout, set_decimals, set_is_init, spec_breaker_status,
    spec_breaker_timeout, spec_circuit_breaker, spec_is_blocked, Env, EnvView,
};
use crate::types::{
    Asset, AssetId, OracleConfig, OracleConfigView, PriceData, SettingsConfig, SettingsView,
    MAX_DECIMALS,
};

verus! {

/// What an asset's upstream source answered: the observation asked for,
/// and the one it reported a sampling interval before that.
#[derive(Copy, Clone, Debug, PartialEq, Eq, Structural)]
pub struct Quotes {
    pub current: Option<PriceData>,
    pub reference: Option<PriceData>,
}

/// The outcome of a price query: a price, no price, or a failure.
pub type PriceResult = Result<Option<PriceData>, OracleAggregatorErrors>;

/// An observation moved from `from` decimals to `to` decimals; its
/// timestamp stays.
pub open spec fn spec_normalize(observation: PriceData, from: u32, to: u32) -> PriceData {
    PriceData {
        price: spec_rescale(observation.price as int, from as nat, to as nat) as i128,
        timestamp: observation.timestamp,
    }
}

/// The time of the sample that an observation is held against: one
/// sampling interval before it.
pub open spec fn spec_reference_timestamp(timestamp: u64, resolution: u32) -> u64 {
    if timestamp >= resolution {
        (timestamp - resolution) as u64
    } else {
        0
    }
}

/// The state of the breaker of `asset` in `e`.
pub open spec fn spec_breaker_state(e: EnvView, asset: AssetId) -> BreakerState {
    BreakerState { tripped: spec_breaker_status(e, asset), until: spec_breaker_timeout(e, asset) }
}

/// The environment after the breaker of `asset` moved to `state`.
pub open spec fn spec_store_breaker_state(e: EnvView, asset: AssetId, state: BreakerState) -> EnvView {
    EnvView {
        circuit_breaker_status: e.circuit_breaker_status.insert(asset, state.tripped),
        circuit_breaker_timeout: e.circuit_breaker_timeout.insert(asset, state.until),
        ..e
    }
}

/// Whether the upstream answers can be brought to the output precision.
pub open spec fn spec_can_gate(
    e: EnvView,
    asset: AssetId,
    current: PriceData,
    reference: Option<PriceData>,
) -> bool {
    let from = e.asset_configs[asset].decimals as nat;
    let to = e.decimals.unwrap() as nat;
    &&& rescale_fits(current.price as int, from, to)
    &&& spec_circuit_breaker(e).enabled ==> (reference matches Some(prior) ==> rescale_fits(
        prior.price as int,
        from,
        to,
    ))
}

/// Normalizes an upstream observation of a registered asset and puts it
/// to the circuit breaker: the price that was accepted, if it was, and the
/// environment with the breaker's next state.
pub open spec fn spec_gate(
    e: EnvView,
    asset: AssetId,
    current: PriceData,
    reference: Option<PriceData>,
) -> (Option<PriceData>, EnvView) {
    let from = e.asset_configs[asset].decimals;
    let to = e.decimals.unwrap();
    let settings = spec_circuit_breaker(e);
    let price = spec_normalize(current, from, to);
    if !settings.enabled {
        (Some(price), e)
    } else {
        let prior = match reference {
            Some(r) => Some(spec_normalize(r, from, to)),
            None => None,
        };
        let (decision, next) = spec_evaluate(
            settings,
            spec_breaker_state(e, asset),
            e.ledger.timestamp,
            price,
            prior,
        );
        (
            if decision == Decision::Pass {
                Some(price)
            } else {
                None
            },
            spec_store_breaker_state(e, asset, next),
        )
    }
}

/// The price of the base asset against itself: one, at the output
/// precision.
pub open spec fn spec_unit_price(decimals: u32, timestamp: u64) -> PriceData {
    PriceData { price: spec_rescale(1, 0, decimals as nat) as i128, timestamp }
}

/// Whether a query for `asset` is one the aggregator can answer: where it
/// gets as far as pricing, the base asset and the output precision are
/// set and every price it has to rescale stays representable.
pub open spec fn spec_can_resolve(e: EnvView, asset: AssetId, feed: Quotes) -> bool {
    ||| spec_is_blocked(e, asset)
    ||| !e.asset_configs.contains_key(asset)
    ||| {
        &&& e.base is Some
        &&& e.decimals is Some
        &&& if e.base == Some(asset) {
            rescale_fits(1, 0, e.decimals.unwrap() as nat)
        } else {
            feed.current matches Some(current) ==> spec_can_gate(e, asset, current, feed.reference)
        }
    }
}

/// The most recent price of `asset`, and the environment after the query.
///
/// A blocked asset fails before anything else, then an unregistered one.
/// The base asset is priced at one. Otherwise the upstream observation is
/// normalized and put to the breaker; an accepted price is cached and
/// returned, and without one the cache answers while its price is fresh.
pub open spec fn spec_lastprice(e: EnvView, asset: AssetId, feed: Quotes) -> (PriceResult, EnvView) {
    let now = e.ledger.timestamp;
    if spec_is_blocked(e, asset) {
        (Err(OracleAggregatorErrors::AssetBlocked), e)
    } else if !e.asset_configs.contains_key(asset) {
        (Err(OracleAggregatorErrors::AssetNotFound), e)
    } else if e.base == Some(asset) {
        (Ok(Some(spec_unit_price(e.decimals.unwrap(), now))), e)
    } else {
        match feed.current {
            None => (Ok(spec_lookup_if_fresh(e, asset, now, MAX_PRICE_AGE)), e),
            Some(current) => {
                let (accepted, gated) = spec_gate(e, asset, current, feed.reference);
                match accepted {
                    Some(price) => (Ok(Some(price)), spec_record(gated, asset, price)),
                    None => (Ok(spec_lookup_if_fresh(gated, asset, now, MAX_PRICE_AGE)), gated),
                }
            },
        }
    }
}

/// The price of `asset` at `timestamp`, and the environment after the
/// query. As [`spec_lastprice`], but a time in the future is refused and
/// the cache is neither consulted nor written.
pub open spec fn spec_price(e: EnvView, asset: AssetId, timestamp: u64, feed: Quotes) -> (
    PriceResult,
    EnvView,
) {
    if spec_is_blocked(e, asset) {
        (Err(OracleAggregatorErrors::AssetBlocked), e)
    } else if !e.asset_configs.contains_key(asset) {
        (Err(OracleAggregatorErrors::AssetNotFound), e)
    } else if timestamp > e.ledger.timestamp {
        (Err(OracleAggregatorErrors::InvalidTimestamp), e)
    } else if e.base == Some(asset) {
        (Ok(Some(spec_unit_price(e.decimals.unwrap(), timestamp))), e)
    } else {
        match feed.current {
            None => (Ok(None), e),
            Some(current) => {
                let (accepted, gated) = spec_gate(e, asset, current, feed.reference);
                (Ok(accepted), gated)
            },
        }
    }
}

/// The source to ask for a price of `asset`: none for the base asset,
/// which needs no quote, and a failure for a blocked or unregistered one.
pub open spec fn spec_source_for(e: EnvView, asset: AssetId) -> Result<
    Option<OracleConfigView>,
    OracleAggregatorErrors,
> {
    if spec_is_blocked(e, asset) {
        Err(OracleAggregatorErrors::AssetBlocked)
    } else if !e.asset_configs.contains_key(asset) {
        Err(OracleAggregatorErrors::AssetNotFound)
    } else if e.base == Some(asset) {
        Ok(None)
    } else {
        Ok(Some(e.asset_configs[asset]))
    }
}

/// The per-asset configurations after the first `n` of `assets` were
/// registered with their `configs`, in order.
pub open spec fn spec_register(
    registered: Map<AssetId, OracleConfigView>,
    assets: Seq<AssetId>,
    configs: Seq<OracleConfigView>,
    n: nat,
) -> Map<AssetId, OracleConfigView>
    decreases n,
{
    if n == 0 {
        registered
    } else {
        spec_register(registered, assets, configs, (n - 1) as nat).insert(
            assets[n - 1],
            configs[n - 1],
        )
    }
}

/// Why `settings` cannot be used to set up the aggregator in `e`, if
/// they cannot.
pub open spec fn spec_initialize_error(e: EnvView, settings: SettingsView) -> Option<
    OracleAggregatorErrors,
> {
    if e.is_init {
        Some(OracleAggregatorErrors::AlreadyInitialized)
    } else if settings.assets.len() == 0 || settings.assets.len() != settings.asset_configs.len() {
        Some(OracleAggregatorErrors::InvalidAssets)
    } else if settings.decimals > MAX_DECIMALS || exists|i: int|
        0 <= i < settings.asset_configs.len() && !(#[trigger] settings.asset_configs[i]).is_valid() {
        Some(OracleAggregatorErrors::InvalidOracleConfig)
    } else {
        None
    }
}

/// The environment after the aggregator was set up with `settings`.
pub open spec fn spec_initialized(e: EnvView, admin: Seq<char>, settings: SettingsView) -> EnvView {
    EnvView {
        is_init: true,
        admin: Some(admin),
        assets: Some(settings.assets),
        base: Some(settings.base),
        decimals: Some(settings.decimals),
        circuit_breaker: Some(
            BreakerSettings {
                enabled: settings.enable_circuit_breaker,
                threshold: settings.circuit_breaker_threshold,
                timeout: settings.circuit_breaker_timeout,
            },
        ),
        asset_configs: spec_register(
            e.asset_configs,
            settings.assets,
            settings.asset_configs,
            settings.assets.len(),
        ),
        ..e
    }
}

/// The environment after `asset` was blocked or unblocked.
pub open spec fn spec_set_blocked(e: EnvView, asset: AssetId, blocked: bool) -> EnvView {
    EnvView { blocked: e.blocked.insert(asset, blocked), ..e }
}

/// Brings an observation from `from` decimals to `to` decimals.
pub fn normalize(observation: &PriceData, from: u32, to: u32) -> (r: PriceData)
    requires
        rescale_fits(observation.price as int, from as nat, to as nat),
    ensures
        r == spec_normalize(*observation, from, to),
{
    PriceData { price: rescale(observation.price, from, to), timestamp: observation.timestamp }
}

/// The time of the sample that an observation taken at `timestamp` is
/// held against: one sampling interval earlier, and not before time began.
pub fn reference_timestamp(timestamp: u64, resolution: u32) -> (r: u64)
    ensures
        r == spec_reference_timestamp(timestamp, resolution),
{
    if timestamp >= resolution as u64 {
        timestamp - resolution as u64
    } else {
        0
    }
}

/// Normalizes an upstream observation and puts it to the circuit breaker.
fn gate(
    e: &mut Env,
    asset: &Asset,
    config: &OracleConfig,
    decimals: u32,
    current: &PriceData,
    reference: &Option<PriceData>,
) -> (r: Option<PriceData>)
    requires
        old(e)@.asset_configs.contains_key(asset@),
        old(e)@.asset_configs[asset@] == config@,
        old(e)@.decimals == Some(decimals),
        spec_can_gate(old(e)@, asset@, *current, *reference),
    ensures
        (r, final(e)@) == spec_gate(old(e)@, asset@, *current, *reference),
{
    let settings = get_circuit_breaker(e);
    let price = normalize(current, config.decimals, decimals);
    if !settings.enabled {
        return Some(price);
    }
    let prior = match reference {
        Some(r) => Some(normalize(r, config.decimals, decimals)),
        None => None,
    };
    let state = BreakerState {
        tripped: get_circuit_breaker_status(e, asset),
        until: get_circuit_breaker_timeout(e, asset),
    };
    let now = e.ledger().timestamp;
    let (decision, next) = evaluate(&settings, state, now, &price, &prior);
    set_circuit_breaker_status(e, asset, &next.tripped);
    set_circuit_breaker_timeout(e, asset, &next.until);
    match decision {
        Decision::Pass => Some(price),
        Decision::Trip => None,
    }
}

/// Whether a query for `asset` with these upstream answers is one the
/// aggregator can answer.
pub fn can_resolve(e: &Env, asset: &Asset, feed: &Quotes) -> (b: bool)
    ensures
        b == spec_can_resolve(e@, asset@, *feed),
{
    if is_blocked(e, asset) {
        return true;
    }
    let config = match config_for(e, asset) {
        Ok(c) => c,
        Err(_) => {
            return true;
        },
    };
    let settings = get_circuit_breaker(e);
    let has_base = e.has_base();
    let has_decimals = e.has_decimals();
    if !has_base || !has_decimals {
        return false;
    }
    let decimals = get_decimals(e);
    let base = get_base(e);
    if asset.same(&base) {
        return checked_rescale(1, 0, decimals).is_some();
    }
    match feed.current {
        None => true,
        Some(current) => {
            if checked_rescale(current.price, config.decimals, decimals).is_none() {
                return false;
            }
            if !settings.enabled {
                return true;
            }
            match feed.reference {
                None => true,
                Some(prior) => checked_rescale(prior.price, config.decimals, decimals).is_some(),
            }
        },
    }
}

/// Sets the aggregator up, once.
///
/// Fails with `AlreadyInitialized` on a second call, with `InvalidAssets`
/// when the lists of assets and configurations are empty or differ in
/// length, and with `InvalidOracleConfig` when a precision is out of range
/// or a sampling interval is zero. A failed call changes nothing.
pub fn initialize(e: &mut Env, admin: &String, settings: &SettingsConfig) -> (r: Result<
    (),
    OracleAggregatorErrors,
>)
    ensures
        match spec_initialize_error(old(e)@, settings@) {
            Some(err) => r == Err::<(), OracleAggregatorErrors>(err) && final(e)@ == old(e)@,
            None => r.is_ok() && final(e)@ == spec_initialized(old(e)@, admin@, settings@),
        },
{
    if get_is_init(e) {
        return Err(OracleAggregatorErrors::AlreadyInitialized);
    }
    let n = settings.assets.len();
    if n == 0 || n != settings.asset_configs.len() {
        return Err(OracleAggregatorErrors::InvalidAssets);
    }
    if settings.decimals > MAX_DECIMALS {
        return Err(OracleAggregatorErrors::InvalidOracleConfig);
    }
    let ghost before = e@;
    let mut i: usize = 0;
    while i < n
        invariant
            i <= n,
            n > 0,
            n == settings.assets.len(),
            n == settings.asset_configs.len(),
            settings.decimals <= MAX_DECIMALS,
            e@ == before,
            !before.is_init,
            forall|j: int| 0 <= j < i ==> (#[trigger] settings@.asset_configs[j]).is_valid(),
        decreases n - i,
    {
        if !settings.asset_configs[i].is_valid() {
            assert(!settings@.asset_configs[i as int].is_valid());
            return Err(OracleAggregatorErrors::InvalidOracleConfig);
        }
        i = i + 1;
    }
    let mut k: usize = 0;
    while k < n
        invariant
            k <= n,
            n == settings.assets.len(),
            n == settings.asset_configs.len(),
            e@ == (EnvView {
                asset_configs: spec_register(
                    before.asset_configs,
                    settings@.assets,
                    settings@.asset_configs,
                    k as nat,
                ),
                ..before
            }),
        decreases n - k,
    {
        set_asset_config(e, &settings.assets[k], &settings.asset_configs[k]);
        k = k + 1;
    }
    set_admin(e, admin);
    set_assets(e, &settings.assets);
    set_base(e, &settings.base);
    set_decimals(e, &settings.decimals);
    set_circuit_breaker(
        e,
        &BreakerSettings {
            enabled: settings.enable_circuit_breaker,
            threshold: settings.circuit_breaker_threshold,
            timeout: settings.circuit_breaker_timeout,
        },
    );
    set_is_init(e);
    Ok(())
}

/// The source to ask for a price of `asset`, before any price is asked
/// for: `None` for the base asset, which needs no quote.
pub fn source_for(e: &Env, asset: &Asset) -> (r: Result<Option<OracleConfig>, OracleAggregatorErrors>)
    ensures
        match r {
            Ok(Some(config)) => spec_source_for(e@, asset@) == Ok::<
                Option<OracleConfigView>,
                OracleAggregatorErrors,
            >(Some(config@)),
            Ok(None) => spec_source_for(e@, asset@) == Ok::<
                Option<OracleConfigView>,
                OracleAggregatorErrors,
            >(None),
            Err(err) => spec_source_for(e@, asset@) == Err::<
                Option<OracleConfigView>,
                OracleAggregatorErrors,
            >(err),
        },
{
    if is_blocked(e, asset) {
        return Err(OracleAggregatorErrors::AssetBlocked);
    }
    let config = match config_for(e, asset) {
        Ok(c) => c,
        Err(err) => {
            return Err(err);
        },
    };
    if e.has_base() && asset.same(&get_base(e)) {
        Ok(None)
    } else {
        Ok(Some(config))
    }
}

/// The most recent price of `asset` at the output precision, given what
/// its upstream source answered.
pub fn lastprice(e: &mut Env, asset: &Asset, feed: &Quotes) -> (r: PriceResult)
    requires
        spec_can_resolve(old(e)@, asset@, *feed),
    ensures
        (r, final(e)@) == spec_lastprice(old(e)@, asset@, *feed),
{
    if is_blocked(e, asset) {
        return Err(OracleAggregatorErrors::AssetBlocked);
    }
    let config = match config_for(e, asset) {
        Ok(c) => c,
        Err(err) => {
            return Err(err);
        },
    };
    let decimals = get_decimals(e);
    let base = get_base(e);
    let now = e.ledger().timestamp;
    if asset.same(&base) {
        return Ok(Some(PriceData { price: rescale(1, 0, decimals), timestamp: now }));
    }
    match feed.current {
        None => Ok(lookup_if_fresh(e, asset, now, MAX_PRICE_AGE)),
        Some(current) => match gate(e, asset, &config, decimals, &current, &feed.reference) {
            Some(price) => {
                record(e, asset, &price);
                Ok(Some(price))
            },
            None => Ok(lookup_if_fresh(e, asset, now, MAX_PRICE_AGE)),
        },
    }
}

/// The price of `asset` at `timestamp` at the output precision, given
/// what its upstream source answered for that time.
pub fn price(e: &mut Env, asset: &Asset, timestamp: u64, feed: &Quotes) -> (r: PriceResult)
    requires
        spec_can_resolve(old(e)@, asset@, *feed),
    ensures
        (r, final(e)@) == spec_price(old(e)@, asset@, timestamp, *feed),
{
    if is_blocked(e, asset) {
        return Err(OracleAggregatorErrors::AssetBlocked);
    }
    let config = match config_for(e, asset) {
        Ok(c) => c,
        Err(err) => {
            return Err(err);
        },
    };
    if timestamp > e.ledger().timestamp {
        return Err(OracleAggregatorErrors::InvalidTimestamp);
    }
    let decimals = get_decimals(e);
    let base = get_base(e);
    if asset.same(&base) {
        return Ok(Some(PriceData { price: rescale(1, 0, decimals), timestamp }));
    }
    match feed.current {
        None => Ok(None),
        Some(current) => Ok(gate(e, asset, &config, decimals, &current, &feed.reference)),
    }
}

/// Blocks `asset`: from now on no price of it is returned.
pub fn block(e: &mut Env, asset: &Asset)
    ensures
        final(e)@ == spec_set_blocked(old(e)@, asset@, true),
{
    set_blocked_status(e, asset, &true);
}

/// Lifts the block on `asset`.
pub fn unblock(e: &mut Env, asset: &Asset)
    ensures
        final(e)@ == spec_set_blocked(old(e)@, asset@, false),
{
    set_blocked_status(e, asset, &false);
}

/// The decimals in which prices are reported.
pub fn decimals(e: &Env) -> (d: u32)
    requires
        e@.decimals is Some,
    ensures
        Some(d) == e@.decimals,
{
    get_decimals(e)
}

/// The asset in which prices are quoted.
pub fn base(e: &Env) -> (b: Asset)
    requires
        e@.base is Some,
    ensures
        Some(b@) == e@.base,
{
    get_base(e)
}

} // verus!
