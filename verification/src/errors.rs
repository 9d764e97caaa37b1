use vstd::prelude::*;

verus! {

/// The failures an aggregator operation can report. Each kind has a fixed
/// numeric code that is part of the external interface.
#[derive(Copy, Clone, Debug, PartialEq, Eq, Structural)]
pub enum OracleAggregatorErrors {
    AlreadyInitialized,
    NotImplemented,
    InvalidOracleConfig,
    InvalidAssets,
    OracleNotFound,
    CircuitBreakerTripped,
    AssetNotFound,
    InvalidTimestamp,
    AssetBlocked,
}

impl OracleAggregatorErrors {
    /// The numeric code of each error kind.
    pub open spec fn spec_code(self) -> u32 {
        match self {
            OracleAggregatorErrors::AlreadyInitialized => 3,
            OracleAggregatorErrors::NotImplemented => 100,
            OracleAggregatorErrors::InvalidOracleConfig => 101,
            OracleAggregatorErrors::InvalidAssets => 102,
            OracleAggregatorErrors::OracleNotFound => 103,
            OracleAggregatorErrors::CircuitBreakerTripped => 104,
            OracleAggregatorErrors::AssetNotFound => 105,
            OracleAggregatorErrors::InvalidTimestamp => 106,
            OracleAggregatorErrors::AssetBlocked => 107,
        }
    }

    /// Returns the numeric code of this error.
    #[verifier::when_used_as_spec(spec_code)]
    pub fn code(self) -> (c: u32)
        ensures
            c == self.spec_code(),
    {
        match self {
            OracleAggregatorErrors::AlreadyInitialized => 3,
            OracleAggregatorErrors::NotImplemented => 100,
            OracleAggregatorErrors::InvalidOracleConfig => 101,
            OracleAggregatorErrors::InvalidAssets => 102,
            OracleAggregatorErrors::OracleNotFound => 103,
            OracleAggregatorErrors::CircuitBreakerTripped => 104,
            OracleAggregatorErrors::AssetNotFound => 105,
            OracleAggregatorErrors::InvalidTimestamp => 106,
            OracleAggregatorErrors::AssetBlocked => 107,
        }
    }

    /// Returns the error kind with the given code, if there is one.
    pub fn from_code(c: u32) -> (r: Option<OracleAggregatorErrors>)
        ensures
            match r {
                Some(e) => e.spec_code() == c,
                None => forall|e: OracleAggregatorErrors| e.spec_code() != c,
            },
    {
        if c == 3 {
            Some(OracleAggregatorErrors::AlreadyInitialized)
        } else if c == 100 {
            Some(OracleAggregatorErrors::NotImplemented)
        } else if c == 101 {
            Some(OracleAggregatorErrors::InvalidOracleConfig)
        } else if c == 102 {
            Some(OracleAggregatorErrors::InvalidAssets)
        } else if c == 103 {
            Some(OracleAggregatorErrors::OracleNotFound)
        } else if c == 104 {
            Some(OracleAggregatorErrors::CircuitBreakerTripped)
        } else if c == 105 {
            Some(OracleAggregatorErrors::AssetNotFound)
        } else if c == 106 {
            Some(OracleAggregatorErrors::InvalidTimestamp)
        } else if c == 107 {
            Some(OracleAggregatorErrors::AssetBlocked)
        } else {
            None
        }
    }
}

/// Distinct error kinds have distinct codes, so a code identifies its kind.
pub proof fn lemma_code_injective(a: OracleAggregatorErrors, b: OracleAggregatorErrors)
    ensures
        a.spec_code() == b.spec_code() <==> a == b,
{
}

} // verus!
