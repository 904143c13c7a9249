//! The duty-sequence configuration shared by the codec, the storage rules
//! and the sequencer.

use vstd::prelude::*;

verus! {

/// A playback configuration for the PWM output: the ordered list of signed
/// duty steps (a negative step means reverse direction with magnitude equal
/// to the absolute value) and the tick period in milliseconds.
pub struct PwmConfig {
    /// Duty values, played back cyclically in order.
    pub steps: Vec<i32>,
    /// Tick period in milliseconds.
    pub interval: u64,
}

/// Mathematical model of a [`PwmConfig`]: the step list as a sequence and
/// the interval as it stands.
#[verifier::ext_equal]
pub struct PwmConfigModel {
    pub steps: Seq<i32>,
    pub interval: u64,
}

impl View for PwmConfig {
    type V = PwmConfigModel;

    open spec fn view(&self) -> PwmConfigModel {
        PwmConfigModel { steps: self.steps@, interval: self.interval }
    }
}

} // verus!
