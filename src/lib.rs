//! A solid-colour window renderer with an optional strobe, as a verified
//! state machine: the library decides what to draw and when to wake up, the
//! program around it talks to the window system and the pixel buffer.

pub mod pixel;
pub mod strobe;
pub mod surface;
pub mod state;
pub mod error;
pub mod laws;

pub use error::{DrawFailure, Failure};
pub use state::{Action, Directive, Event, Reaction, State, FPS, FRAME_NANOS, NANOS_PER_MILLI};
pub use strobe::Strobe;
pub use surface::{Size, SurfaceState};
