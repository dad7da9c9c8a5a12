use vstd::prelude::*;

use crate::state::{bright, dark, Action, Directive, Event, State};
use crate::strobe::Strobe;
use crate::surface::{resize_request, Size};

verus! {

/// The state after `n` drawn frames.
pub open spec fn after_draws(s: State, n: nat) -> State
    decreases n,
{
    if n == 0 {
        s
    } else {
        after_draws(s, (n - 1) as nat).after_draw()
    }
}

/// Once a window of positive size has been resized and the buffer bound with
/// that size, the surface is drawable at exactly that size: a redraw request
/// (or, while strobing, any event) draws a frame, and drawing leaves the
/// dimensions as they are.
pub proof fn lemma_resize_then_draw(s: State, width: u32, height: u32, now: u64)
    requires
        width > 0,
        height > 0,
        s.surface@ == (Size { width, height }),
    ensures
        resize_request(width, height) == Some(Size { width, height }),
        s.after_draw().surface@ == (Size { width, height }),
        s.strobe is None ==> s.reaction(Event::RedrawRequested, now).action == Action::Draw,
        s.strobe is Some ==> s.reaction(Event::RedrawRequested, now).tick_draw,
{
}

/// A resize to a size with no area asks nothing of the buffer and changes
/// nothing: the event's only effect is the usual scheduling directive.
pub proof fn lemma_degenerate_resize(s: State, width: u32, height: u32, now: u64)
    requires
        width == 0 || height == 0,
    ensures
        resize_request(width, height) is None,
        s.reaction(Event::Resized { width, height }, now).action == Action::Nothing,
        s.reaction(Event::Resized { width, height }, now) == s.reaction(Event::Other, now),
{
}

/// Starting in the dark phase, the strobe alternates deterministically: after
/// `n` frames the phase is on exactly when `n` is odd.
pub proof fn lemma_strobe_phase(s: State, n: nat)
    requires
        s.strobe == Some(Strobe { on: false }),
    ensures
        after_draws(s, n).strobe == Some(Strobe { on: n % 2 == 1 }),
        after_draws(s, n).surface == s.surface,
    decreases n,
{
    if n > 0 {
        lemma_strobe_phase(s, (n - 1) as nat);
    }
}

/// Starting in the dark phase, the `n`-th frame ends dark when `n` is odd and
/// bright when `n` is even: the first frame is drawn bright, then overwritten
/// dark, and flips the phase on.
pub proof fn lemma_strobe_colors(s: State, n: nat)
    requires
        s.strobe == Some(Strobe { on: false }),
        n >= 1,
    ensures
        after_draws(s, (n - 1) as nat).frame_color() == (if n % 2 == 1 {
            dark()
        } else {
            bright()
        }),
{
    lemma_strobe_phase(s, (n - 1) as nat);
}

/// Without a strobe, a redraw request on a drawable surface always draws a
/// bright frame, and drawing changes no state; nothing is ever scheduled.
pub proof fn lemma_steady_redraw(s: State, now: u64)
    requires
        s.strobe is None,
    ensures
        s.frame_color() == bright(),
        s.after_draw() == s,
        s.reaction(Event::RedrawRequested, now).action == (if s.surface@.is_degenerate() {
            Action::Nothing
        } else {
            Action::Draw
        }),
        !s.reaction(Event::RedrawRequested, now).tick_draw,
        s.reaction(Event::RedrawRequested, now).directive == Directive::WaitIndefinitely,
{
}

/// A close request ends the event loop, whatever the strobe and the surface.
pub proof fn lemma_close_exits(s: State, now: u64)
    ensures
        s.reaction(Event::CloseRequested, now).directive == Directive::Exit,
        s.reaction(Event::CloseRequested, now).action == Action::Nothing,
{
}

} // verus!
