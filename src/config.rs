use vstd::prelude::*;

verus! {

/// Settings read once, when the audio device is opened.
#[derive(Clone, Copy, Debug, PartialEq, Eq, Structural)]
pub struct OpenAlConfig {
    /// Ask the device context for HRTF spatialization.
    pub soft_hrtf: bool,
}

impl Default for OpenAlConfig {
    fn default() -> (r: Self)
        ensures
            r.soft_hrtf == false,
    {
        OpenAlConfig { soft_hrtf: false }
    }
}

impl OpenAlConfig {
    /// The HRTF attribute to open the context with: set and on when HRTF is
    /// asked for, left to the device otherwise.
    pub fn hrtf_attribute(&self) -> (r: Option<bool>)
        ensures
            r == (if self.soft_hrtf { Some(true) } else { None::<bool> }),
    {
        if self.soft_hrtf {
            Some(true)
        } else {
            None
        }
    }
}

/// The passes that run every tick, after transforms are propagated. The
/// listener and property passes run before the state pass.
#[derive(Clone, Copy, Debug, PartialEq, Eq, Hash, Structural)]
pub enum OpenAlSystem {
    UpdateListener,
    UpdateSourceProperties,
    UpdateSourceState,
}

/// Whether a pass runs before another within one tick.
pub open spec fn spec_runs_before(a: OpenAlSystem, b: OpenAlSystem) -> bool {
    b == OpenAlSystem::UpdateSourceState && a != OpenAlSystem::UpdateSourceState
}

impl OpenAlSystem {
    /// Whether this pass must run before `other` within one tick.
    pub fn runs_before(&self, other: OpenAlSystem) -> (r: bool)
        ensures
            r == spec_runs_before(*self, other),
    {
        other == OpenAlSystem::UpdateSourceState && *self != OpenAlSystem::UpdateSourceState
    }
}

} // verus!
