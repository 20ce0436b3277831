//! The state a wrapper keeps between layout passes.

use iced::Size;
use vstd::prelude::*;

verus! {

/// The size the wrapper was last laid out with, unknown until the first
/// layout pass.
pub struct WrapperState {
    bounds: Option<Size>,
}

impl View for WrapperState {
    type V = Option<Size>;

    closed spec fn view(&self) -> Option<Size> {
        self.bounds
    }
}

impl WrapperState {
    /// A state with no size recorded.
    pub fn new() -> (state: Self)
        ensures
            state@ is None,
    {
        WrapperState { bounds: None }
    }

    /// The recorded size, if there is one.
    pub fn bounds(&self) -> (bounds: Option<Size>)
        ensures
            bounds == self@,
    {
        self.bounds
    }

    /// Records `size`, replacing what was recorded before.
    pub fn record(&mut self, size: Size)
        ensures
            final(self)@ == Some(size),
    {
        self.bounds = Some(size);
    }
}

impl Default for WrapperState {
    fn default() -> (state: Self)
        ensures
            state@ is None,
    {
        WrapperState::new()
    }
}

} // verus!
