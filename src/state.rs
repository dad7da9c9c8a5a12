use vstd::prelude::*;

use crate::pixel::{all_pixels, fill, packed, rgb};
use crate::strobe::Strobe;
use crate::surface::{resize_request, Size, SurfaceState};

verus! {

/// Frames per second of the strobe.
pub const FPS: u64 = 20;

/// Nanoseconds in a millisecond.
pub const NANOS_PER_MILLI: u64 = 1_000_000;

/// The strobe's frame period, `1000 / FPS` milliseconds, in nanoseconds.
pub const FRAME_NANOS: u64 = 1000 / FPS * NANOS_PER_MILLI;

/// The bright fill colour, full white.
pub open spec fn bright() -> u32 {
    packed(255, 255, 255)
}

/// The dark fill colour, black.
pub open spec fn dark() -> u32 {
    packed(0, 0, 0)
}

/// A platform event, as far as the controller reads it.
#[derive(Clone, Copy, Debug, PartialEq, Eq, Structural)]
pub enum Event {
    Resized { width: u32, height: u32 },
    RedrawRequested,
    CloseRequested,
    Other,
}

/// When the event loop should next run the controller.
#[derive(Clone, Copy, Debug, PartialEq, Eq, Structural)]
pub enum Directive {
    /// Only when the next event arrives.
    WaitIndefinitely,
    /// No later than this deadline, in nanoseconds on the caller's clock.
    WaitUntil(u64),
    /// Never again: the loop ends.
    Exit,
}

/// The surface work that an event asks for.
#[derive(Clone, Copy, Debug, PartialEq, Eq, Structural)]
pub enum Action {
    Nothing,
    /// Draw a frame with [`State::draw`] and present it.
    Draw,
    /// Rebind the buffer with this non-degenerate size, then report it with
    /// [`State::resized`].
    Resize(Size),
}

/// What the caller does for one event, in this order: a strobe frame if
/// `tick_draw`, then `action`, then hand `directive` to the event loop.
#[derive(Clone, Copy, Debug, PartialEq, Eq, Structural)]
pub struct Reaction {
    pub tick_draw: bool,
    pub action: Action,
    pub directive: Directive,
}

/// The controller: the surface's dimensions and the optional strobe.
pub struct State {
    pub surface: SurfaceState,
    pub strobe: Option<Strobe>,
}

impl State {
    /// The colour that the next drawn frame ends with.
    pub open spec fn frame_color(self) -> u32 {
        match self.strobe {
            Some(s) => if s.on { bright() } else { dark() },
            None => bright(),
        }
    }

    /// The state after one drawn frame: the strobe phase, if any, flips.
    pub open spec fn after_draw(self) -> State {
        State {
            surface: self.surface,
            strobe: match self.strobe {
                Some(s) => Some(Strobe { on: !s.on }),
                None => None,
            },
        }
    }

    /// The reaction to `event` arriving at time `now`.
    pub open spec fn reaction(self, event: Event, now: u64) -> Reaction {
        let drawable = !self.surface@.is_degenerate();
        Reaction {
            tick_draw: self.strobe is Some && drawable,
            action: match event {
                Event::RedrawRequested => if self.strobe is None && drawable {
                    Action::Draw
                } else {
                    Action::Nothing
                },
                Event::Resized { width, height } => match resize_request(width, height) {
                    Some(size) => Action::Resize(size),
                    None => Action::Nothing,
                },
                _ => Action::Nothing,
            },
            directive: match event {
                Event::CloseRequested => Directive::Exit,
                _ => if self.strobe is Some {
                    Directive::WaitUntil((now + FRAME_NANOS) as u64)
                } else {
                    Directive::WaitIndefinitely
                },
            },
        }
    }

    /// A controller with an unconfigured surface, strobing in its dark phase
    /// if `strobe`, else drawing a steady bright frame.
    pub fn new(strobe: bool) -> (s: State)
        ensures
            s.surface@ == (Size { width: 0, height: 0 }),
            s.strobe == (if strobe { Some(Strobe { on: false }) } else { None }),
    {
        State {
            surface: SurfaceState::new(),
            strobe: if strobe { Some(Strobe::default()) } else { None },
        }
    }

    /// Decides what `event`, arriving at time `now` (nanoseconds), asks for.
    /// While strobing every event draws a frame and schedules the next one a
    /// frame period later; a surface with no area is never drawn.
    pub fn process(&self, event: Event, now: u64) -> (r: Reaction)
        requires
            self.strobe is Some ==> now <= u64::MAX - FRAME_NANOS,
        ensures
            r == self.reaction(event, now),
    {
        let drawable = self.surface.is_drawable();
        let strobing = self.strobe.is_some();
        let flow = if strobing {
            Directive::WaitUntil(now + FRAME_NANOS)
        } else {
            Directive::WaitIndefinitely
        };
        let (action, directive) = match event {
            Event::RedrawRequested => {
                if !strobing && drawable {
                    (Action::Draw, flow)
                } else {
                    (Action::Nothing, flow)
                }
            },
            Event::Resized { width, height } => match SurfaceState::resize_request(width, height) {
                Some(size) => (Action::Resize(size), flow),
                None => (Action::Nothing, flow),
            },
            Event::CloseRequested => (Action::Nothing, Directive::Exit),
            Event::Other => (Action::Nothing, flow),
        };
        Reaction { tick_draw: strobing && drawable, action, directive }
    }

    /// The buffer configuration that a window of `width` x `height` needs;
    /// `None` for a size with no area, which leaves everything as it is.
    pub fn resize(&self, width: u32, height: u32) -> (r: Option<Size>)
        ensures
            r == resize_request(width, height),
    {
        SurfaceState::resize_request(width, height)
    }

    /// Records that the buffer was bound with `size`.
    pub fn resized(&mut self, size: Size)
        requires
            !size.is_degenerate(),
        ensures
            final(self).surface@ == size,
            final(self).strobe == old(self).strobe,
    {
        self.surface.configured(size);
    }

    /// Fills a frame: every pixel bright, then, in the strobe's dark phase,
    /// every pixel dark; the strobe phase then flips.
    pub fn draw(&mut self, pixels: &mut [u32])
        ensures
            final(pixels)@.len() == old(pixels)@.len(),
            all_pixels(final(pixels)@, old(self).frame_color()),
            *final(self) == old(self).after_draw(),
    {
        let off_color = rgb(0, 0, 0);
        let on_color = rgb(255, 255, 255);
        fill(pixels, on_color);
        match &mut self.strobe {
            Some(strobe) => {
                if !strobe.on {
                    fill(pixels, off_color);
                }
                strobe.toggle();
            },
            None => {},
        }
    }
}

} // verus!
