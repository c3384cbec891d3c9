//! Immutable connection and signing parameters.

use vstd::prelude::*;

verus! {

use crate::error::ClientError;
use crate::fee::{ratio_valid, Ratio};

/// Connection and fee parameters, constructed once at client creation
/// and read-only thereafter.  The memo and the timeout height are
/// explicit parameters rather than hard-coded placeholders.
#[derive(Clone, Debug, PartialEq)]
pub struct ChainConfig {
    pub rpc_endpoint: String,
    pub chain_id: String,
    pub prefix: String,
    pub denom: String,
    pub gas_price: Ratio,
    pub gas_adjustment: Ratio,
    pub memo: String,
    pub timeout_height: u32,
}

impl ChainConfig {
    /// Both rational factors have a positive denominator, so every
    /// fee computation is well defined.
    pub open spec fn well_formed(self) -> bool {
        ratio_valid(self.gas_price) && ratio_valid(self.gas_adjustment)
    }

    /// Accepts the configuration exactly when both rational factors
    /// are well defined; a zero denominator is a configuration error.
    pub fn validate(&self) -> (res: Result<(), ClientError>)
        ensures
            res is Ok <==> self.well_formed(),
            res matches Err(e) ==> e matches ClientError::ConfigError { .. },
    {
        if self.gas_adjustment.den == 0 {
            Err(
                ClientError::ConfigError {
                    detail: "gas adjustment has a zero denominator".to_owned(),
                },
            )
        } else if self.gas_price.den == 0 {
            Err(
                ClientError::ConfigError {
                    detail: "gas price has a zero denominator".to_owned(),
                },
            )
        } else {
            Ok(())
        }
    }
}

} // verus!
