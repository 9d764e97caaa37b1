use vstd::prelude::*;
use crate::storage::{
    get_last_fetched_price, set_last_fetched_price, spec_last_fetched_price, Env, EnvView,
};
use crate::types::{Asset, AssetId, PriceData};

verus! {

/// The oldest a cached price may be, in seconds, and still be returned.
pub const MAX_PRICE_AGE: u64 = 300;

/// Whether a price sampled at `timestamp` is at most `max_age` old at `now`.
pub open spec fn spec_is_fresh(timestamp: u64, now: u64, max_age: u64) -> bool {
    now - timestamp <= max_age
}

/// The cached price of `asset`, where there is one and it is fresh.
pub open spec fn spec_lookup_if_fresh(e: EnvView, asset: AssetId, now: u64, max_age: u64) -> Option<
    PriceData,
> {
    match spec_last_fetched_price(e, asset) {
        Some(stored) => if spec_is_fresh(stored.timestamp, now, max_age) {
            Some(stored)
        } else {
            None
        },
        None => None,
    }
}

/// The environment after `price` was recorded for `asset`.
pub open spec fn spec_record(e: EnvView, asset: AssetId, price: PriceData) -> EnvView {
    EnvView { last_fetched_prices: e.last_fetched_prices.insert(asset, price), ..e }
}

/// Whether a price sampled at `timestamp` is at most `max_age` old at `now`.
pub fn is_fresh(timestamp: u64, now: u64, max_age: u64) -> (b: bool)
    ensures
        b == spec_is_fresh(timestamp, now, max_age),
{
    timestamp >= now || now - timestamp <= max_age
}

/// Makes `price` the cached price of `asset`, over any earlier one.
pub fn record(e: &mut Env, asset: &Asset, price: &PriceData)
    ensures
        final(e)@ == spec_record(old(e)@, asset@, *price),
{
    set_last_fetched_price(e, asset, price);
}

/// The cached price of `asset` if it is at most `max_age` old at `now`:
/// one aged exactly `max_age` is returned, an older one is not.
pub fn lookup_if_fresh(e: &Env, asset: &Asset, now: u64, max_age: u64) -> (r: Option<PriceData>)
    ensures
        r == spec_lookup_if_fresh(e@, asset@, now, max_age),
{
    match get_last_fetched_price(e, asset) {
        Some(stored) => if is_fresh(stored.timestamp, now, max_age) {
            Some(stored)
        } else {
            None
        },
        None => None,
    }
}

/// What was recorded for an asset is what a lookup returns while it is
/// fresh, and recording for one asset leaves every other asset's cached
/// price as it was.
pub proof fn lemma_record_then_lookup(
    e: EnvView,
    asset: AssetId,
    other: AssetId,
    price: PriceData,
    now: u64,
    max_age: u64,
)
    ensures
        spec_lookup_if_fresh(spec_record(e, asset, price), asset, now, max_age) == if spec_is_fresh(
            price.timestamp,
            now,
            max_age,
        ) {
            Some(price)
        } else {
            None
        },
        other != asset ==> spec_lookup_if_fresh(spec_record(e, asset, price), other, now, max_age)
            == spec_lookup_if_fresh(e, other, now, max_age),
{
}

} // verus!
