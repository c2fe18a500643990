//! Configuration consumed by the detection core.
//!
//! Transport-level settings (bind addresses, broker endpoints, credentials)
//! belong to the surrounding application, not to the core.

use vstd::prelude::*;

use crate::errors::CoreError;
use crate::model::MICRO_UNITS;

verus! {

/// The three settings the core needs, all required at startup.
#[derive(Clone, Copy, Debug, PartialEq, Eq, Structural)]
pub struct Config {
    /// Interval between detection cycles, in milliseconds; strictly positive.
    pub detection_interval_ms: u64,
    /// Policy-level profit filter as a micro-ratio; applied by the pipeline
    /// after detection, independently of the detector's fixed sanity floor.
    pub min_profit_threshold_micro: u64,
    /// Largest admissible risk score as a micro-ratio, within [0, 1].
    pub max_risk_score_micro: u64,
}

impl Config {
    /// A configuration is valid when the interval is strictly positive and
    /// the risk bound is a ratio within [0, 1].
    pub open spec fn wf(self) -> bool {
        &&& self.detection_interval_ms > 0
        &&& self.max_risk_score_micro <= MICRO_UNITS
    }

    /// Checks the startup configuration. An invalid configuration is fatal:
    /// the pipeline must not be started from an `Err` result.
    pub fn validate(&self) -> (r: Result<(), CoreError>)
        ensures
            r is Ok <==> self.wf(),
            r is Err ==> r == Err::<(), CoreError>(CoreError::ConfigurationInvalid),
    {
        if self.detection_interval_ms == 0 {
            Err(CoreError::ConfigurationInvalid)
        } else if self.max_risk_score_micro > MICRO_UNITS {
            Err(CoreError::ConfigurationInvalid)
        } else {
            Ok(())
        }
    }
}

} // verus!
