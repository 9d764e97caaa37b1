use vstd::prelude::*;
use crate::circuit_breaker::{spec_evaluate, Decision};
use crate::contract::{
    spec_breaker_state, spec_lastprice, spec_normalize, spec_register, spec_set_blocked, Quotes,
};
use crate::errors::OracleAggregatorErrors;
use crate::price_cache::{spec_lookup_if_fresh, MAX_PRICE_AGE};
use crate::storage::{spec_circuit_breaker, spec_is_blocked, spec_last_fetched_price, EnvView};
use crate::types::{AssetId, OracleConfigView, PriceData};

verus! {

/// Whether `asset` is one whose price comes from an upstream source:
/// registered, not blocked, and not the base asset.
pub open spec fn is_quoted(e: EnvView, asset: AssetId) -> bool {
    &&& !spec_is_blocked(e, asset)
    &&& e.asset_configs.contains_key(asset)
    &&& e.base != Some(asset)
}

/// Whether the breaker lets the upstream observation `current` of `asset`
/// through: it is disabled, or its verdict on the normalized observation
/// is a pass.
pub open spec fn breaker_passes(
    e: EnvView,
    asset: AssetId,
    current: PriceData,
    reference: Option<PriceData>,
) -> bool {
    let from = e.asset_configs[asset].decimals;
    let to = e.decimals.unwrap();
    let prior = match reference {
        Some(r) => Some(spec_normalize(r, from, to)),
        None => None,
    };
    spec_circuit_breaker(e).enabled ==> spec_evaluate(
        spec_circuit_breaker(e),
        spec_breaker_state(e, asset),
        e.ledger.timestamp,
        spec_normalize(current, from, to),
        prior,
    ).0 == Decision::Pass
}

/// Every asset of a set-up is registered by it, with the configuration
/// listed for it last; what was registered before and is not listed stays.
pub proof fn lemma_register_covers_assets(
    registered: Map<AssetId, OracleConfigView>,
    assets: Seq<AssetId>,
    configs: Seq<OracleConfigView>,
    n: nat,
    asset: AssetId,
)
    requires
        n <= assets.len(),
        n <= configs.len(),
    ensures
        spec_register(registered, assets, configs, n).contains_key(asset) <==> (
        registered.contains_key(asset) || exists|i: int| 0 <= i < n && assets[i] == asset),
        forall|i: int|
            0 <= i < n && assets[i] == asset && (forall|j: int| i < j < n ==> assets[j] != asset)
                ==> spec_register(registered, assets, configs, n)[asset] == configs[i],
        (forall|i: int| 0 <= i < n ==> assets[i] != asset) ==> registered.contains_key(asset)
            ==> spec_register(registered, assets, configs, n)[asset] == registered[asset],
    decreases n,
{
    if n > 0 {
        lemma_register_covers_assets(registered, assets, configs, (n - 1) as nat, asset);
        if assets[n - 1] != asset {
            if exists|i: int| 0 <= i < n && assets[i] == asset {
                let i = choose|i: int| 0 <= i < n && assets[i] == asset;
                assert(0 <= i < n - 1 && assets[i] == asset);
            }
        }
    }
}

/// A live observation that the breaker lets through is returned at the
/// output precision with its own timestamp, and becomes the cached price.
pub proof fn lemma_live_observation_is_returned(
    e: EnvView,
    asset: AssetId,
    feed: Quotes,
    current: PriceData,
)
    requires
        is_quoted(e, asset),
        feed.current == Some(current),
        breaker_passes(e, asset, current, feed.reference),
    ensures
        spec_lastprice(e, asset, feed).0 == Ok::<Option<PriceData>, OracleAggregatorErrors>(
            Some(spec_normalize(current, e.asset_configs[asset].decimals, e.decimals.unwrap())),
        ),
        spec_lastprice(e, asset, feed).0.unwrap().unwrap().timestamp == current.timestamp,
        spec_last_fetched_price(spec_lastprice(e, asset, feed).1, asset) == Some(
            spec_normalize(current, e.asset_configs[asset].decimals, e.decimals.unwrap()),
        ),
{
}

/// An asset that was never registered, and is not blocked, is not found,
/// and asking for it changes nothing.
pub proof fn lemma_unregistered_asset_is_not_found(e: EnvView, asset: AssetId, feed: Quotes)
    requires
        !e.asset_configs.contains_key(asset),
        !spec_is_blocked(e, asset),
    ensures
        spec_lastprice(e, asset, feed) == (
            Err::<Option<PriceData>, OracleAggregatorErrors>(OracleAggregatorErrors::AssetNotFound),
            e,
        ),
{
}

/// A blocked asset has no price, whatever the upstream source answers and
/// whatever the cache holds, and asking for it changes nothing.
pub proof fn lemma_blocked_asset_is_refused(e: EnvView, asset: AssetId, feed: Quotes)
    requires
        spec_is_blocked(e, asset),
    ensures
        spec_lastprice(e, asset, feed) == (
            Err::<Option<PriceData>, OracleAggregatorErrors>(OracleAggregatorErrors::AssetBlocked),
            e,
        ),
{
}

/// Blocking or unblocking one asset leaves the price of every other asset
/// as it was, and what a query for the other asset stores is the same but
/// for the block itself.
pub proof fn lemma_block_leaves_other_assets(
    e: EnvView,
    blocked: AssetId,
    status: bool,
    asset: AssetId,
    feed: Quotes,
)
    requires
        blocked != asset,
    ensures
        spec_lastprice(spec_set_blocked(e, blocked, status), asset, feed).0 == spec_lastprice(
            e,
            asset,
            feed,
        ).0,
        spec_lastprice(spec_set_blocked(e, blocked, status), asset, feed).1 == spec_set_blocked(
            spec_lastprice(e, asset, feed).1,
            blocked,
            status,
        ),
{
}

/// Without an upstream observation the cached price is returned unchanged
/// while it is at most five minutes old, and nothing is stored.
pub proof fn lemma_fresh_cache_answers(e: EnvView, asset: AssetId, feed: Quotes, cached: PriceData)
    requires
        is_quoted(e, asset),
        feed.current is None,
        spec_last_fetched_price(e, asset) == Some(cached),
        e.ledger.timestamp - cached.timestamp <= MAX_PRICE_AGE,
    ensures
        spec_lastprice(e, asset, feed) == (
            Ok::<Option<PriceData>, OracleAggregatorErrors>(Some(cached)),
            e,
        ),
{
}

/// Without an upstream observation a cached price older than five minutes
/// is not returned.
pub proof fn lemma_stale_cache_is_not_used(e: EnvView, asset: AssetId, feed: Quotes, cached: PriceData)
    requires
        is_quoted(e, asset),
        feed.current is None,
        spec_last_fetched_price(e, asset) == Some(cached),
        e.ledger.timestamp - cached.timestamp > MAX_PRICE_AGE,
    ensures
        spec_lastprice(e, asset, feed) == (Ok::<Option<PriceData>, OracleAggregatorErrors>(None), e),
{
}

/// Without an upstream observation and without a cached price there is no
/// price, which is no failure.
pub proof fn lemma_no_observation_no_cache(e: EnvView, asset: AssetId, feed: Quotes)
    requires
        is_quoted(e, asset),
        feed.current is None,
        spec_last_fetched_price(e, asset) is None,
    ensures
        spec_lastprice(e, asset, feed) == (Ok::<Option<PriceData>, OracleAggregatorErrors>(None), e),
{
}

/// An observation that the breaker rejects is neither returned nor
/// cached: the answer is what the cache held before, while that is fresh.
pub proof fn lemma_rejected_observation_falls_back(
    e: EnvView,
    asset: AssetId,
    feed: Quotes,
    current: PriceData,
)
    requires
        is_quoted(e, asset),
        feed.current == Some(current),
        !breaker_passes(e, asset, current, feed.reference),
    ensures
        spec_lastprice(e, asset, feed).0 == Ok::<Option<PriceData>, OracleAggregatorErrors>(
            spec_lookup_if_fresh(e, asset, e.ledger.timestamp, MAX_PRICE_AGE),
        ),
        spec_last_fetched_price(spec_lastprice(e, asset, feed).1, asset) == spec_last_fetched_price(
            e,
            asset,
        ),
        spec_breaker_state(spec_lastprice(e, asset, feed).1, asset).tripped,
{
}

} // verus!
