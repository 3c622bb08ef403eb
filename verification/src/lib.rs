//! Decision logic of a windowed clear-and-present frame loop.
//!
//! The crate holds the two parts of such a program that are pure logic:
//! the swap configuration that follows the window's physical size, and the
//! controller that maps each window-system event, and each outcome of a
//! presentation attempt, to the next state and to the one action the caller
//! has to carry out.  Talking to the window system and to the graphics
//! device is left to the caller.

pub mod control;
pub mod event;
pub mod laws;
pub mod present;
pub mod surface;

pub use control::{Action, ControlFlow, Model, State};
pub use event::{Event, Key, KeyState};
pub use present::PresentError;
pub use surface::{PixelFormat, PresentMode, Size, SurfaceConfig, SurfaceManager};
