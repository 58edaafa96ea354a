use vstd::prelude::*;

verus! {

/// Number of particle types in the interaction table.
pub const TYPES_NUM: usize = 19;

/// How particles are rendered.
#[derive(Clone, Copy, Debug, PartialEq, Eq, Structural)]
pub enum DisplayMode {
    ELEMENTS,
    STROKE,
    ENERGY,
}

/// Requests raised by the user interface and consumed by the simulation loop.
#[derive(Clone, Copy, Debug, PartialEq, Eq, Structural)]
pub struct Signals {
    pub start_new_sim: bool,
    pub quit: bool,
    pub restart: bool,
    pub shuffle_interactions: bool,
    pub particles_new_settings: bool,
}

impl Signals {
    /// No request is pending.
    pub open spec fn is_idle(self) -> bool {
        &&& !self.start_new_sim
        &&& !self.quit
        &&& !self.restart
        &&& !self.shuffle_interactions
        &&& !self.particles_new_settings
    }
}

impl Default for Signals {
    fn default() -> (s: Self)
        ensures
            s.is_idle(),
    {
        Signals {
            start_new_sim: false,
            quit: false,
            restart: false,
            shuffle_interactions: false,
            particles_new_settings: false,
        }
    }
}

} // verus!
