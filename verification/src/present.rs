//! Why an attempt to present a frame can fail, and how grave that is.

use vstd::prelude::*;

verus! {

/// The ways in which acquiring the next frame fails.
#[derive(Clone, Copy, Debug, PartialEq, Eq, Structural)]
pub enum PresentError {
    /// No frame became free in time.
    Timeout,
    /// The surface changed under the presentation chain.
    Outdated,
    /// The presentation chain is gone and has to be built again.
    Lost,
    /// No memory is left for another frame.
    OutOfMemory,
}

impl PresentError {
    /// Running out of memory is the one failure that ends the process; every
    /// other is over by the next frame.
    pub open spec fn fatal(self) -> bool {
        self == PresentError::OutOfMemory
    }

    /// Decides `fatal`.
    pub fn is_fatal(&self) -> (yes: bool)
        ensures
            yes == self.fatal(),
    {
        match self {
            PresentError::OutOfMemory => true,
            PresentError::Timeout | PresentError::Outdated | PresentError::Lost => false,
        }
    }
}

} // verus!
