use vstd::prelude::*;

verus! {

/// The strobe phase: whether the last completed frame was left bright.
#[derive(Clone, Copy, Debug, PartialEq, Eq, Structural)]
pub struct Strobe {
    pub on: bool,
}

impl Strobe {
    /// Flips the phase.
    pub fn toggle(&mut self)
        ensures
            final(self).on == !old(self).on,
    {
        self.on = !self.on;
    }
}

impl Default for Strobe {
    /// A strobe starts in the dark phase.
    fn default() -> (s: Strobe)
        ensures
            !s.on,
    {
        Strobe { on: false }
    }
}

} // verus!
