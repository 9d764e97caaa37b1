use vstd::prelude::*;
use crate::errors::OracleAggregatorErrors;
use crate::storage::{
    get_asset_config, get_assets, get_blocked_status, has_asset_config, spec_is_blocked, Env,
    EnvView, asset_ids,
};
use crate::types::{Asset, AssetId, OracleConfig, OracleConfigView};

verus! {

/// The configuration of `asset` in `e`, or the failure to find one.
pub open spec fn spec_config_for(e: EnvView, asset: AssetId) -> Result<
    OracleConfigView,
    OracleAggregatorErrors,
> {
    if e.asset_configs.contains_key(asset) {
        Ok(e.asset_configs[asset])
    } else {
        Err(OracleAggregatorErrors::AssetNotFound)
    }
}

/// The configuration `asset` was registered with. Fails with
/// `AssetNotFound` for an asset that was never registered.
pub fn config_for(e: &Env, asset: &Asset) -> (r: Result<OracleConfig, OracleAggregatorErrors>)
    ensures
        match r {
            Ok(config) => spec_config_for(e@, asset@) == Ok::<
                OracleConfigView,
                OracleAggregatorErrors,
            >(config@),
            Err(err) => spec_config_for(e@, asset@) == Err::<
                OracleConfigView,
                OracleAggregatorErrors,
            >(err),
        },
{
    if has_asset_config(e, asset) {
        Ok(get_asset_config(e, asset))
    } else {
        Err(OracleAggregatorErrors::AssetNotFound)
    }
}

/// Whether `asset` is blocked. An asset that was never blocked is not.
pub fn is_blocked(e: &Env, asset: &Asset) -> (b: bool)
    ensures
        b == spec_is_blocked(e@, asset@),
{
    get_blocked_status(e, asset)
}

/// All registered assets, in the order in which they were registered.
pub fn assets(e: &Env) -> (r: Vec<Asset>)
    requires
        e@.assets is Some,
    ensures
        Some(asset_ids(r@)) == e@.assets,
{
    get_assets(e)
}

} // verus!
