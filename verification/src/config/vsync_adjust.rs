//! How the HDMI refresh rate follows that of the core.

use vstd::prelude::*;

verus! {

/// How the HDMI refresh rate follows that of the core.
#[derive(Clone, Copy, Debug, PartialEq, Eq, Structural)]
pub enum VsyncAdjustConfig {
    /// The refresh rate is left alone.
    Disabled,
    /// The pixel clock is adjusted so that the refresh rates match.
    Automatic,
    /// The refresh rates match and a single buffer is used.
    LowLatency,
}

impl Default for VsyncAdjustConfig {
    fn default() -> (r: VsyncAdjustConfig)
        ensures
            r == VsyncAdjustConfig::Disabled,
    {
        VsyncAdjustConfig::Disabled
    }
}

} // verus!
