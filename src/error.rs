use vstd::prelude::*;

verus! {

/// The two steps of a draw that can fail independently.
#[derive(Clone, Copy, Debug, PartialEq, Eq, Structural)]
pub enum DrawFailure {
    /// Write access to the pixel storage was refused.
    Acquire,
    /// The filled buffer could not be shown.
    Present,
}

/// The ways a session can fail. None is retried: each ends the session.
#[derive(Clone, Copy, Debug, PartialEq, Eq, Structural)]
pub enum Failure {
    /// The presentable buffer could not be bound to the window.
    SurfaceInit,
    /// The buffer could not be rebound with a new size.
    Resize,
    Draw(DrawFailure),
    /// The event loop could not be created or run.
    EventLoop,
}

/// The phase that failed, in words.
pub open spec fn context_text(f: Failure) -> Seq<char> {
    match f {
        Failure::SurfaceInit => "while creating surface"@,
        Failure::Resize => "while resizing surface"@,
        Failure::Draw(DrawFailure::Acquire) => "while acquiring display buffer"@,
        Failure::Draw(DrawFailure::Present) => "while presenting buffer"@,
        Failure::EventLoop => "while running event loop"@,
    }
}

impl Failure {
    /// Describes the phase that failed, as context for a diagnostic.
    pub fn context(&self) -> (r: &'static str)
        ensures
            r@ == context_text(*self),
    {
        match self {
            Failure::SurfaceInit => "while creating surface",
            Failure::Resize => "while resizing surface",
            Failure::Draw(DrawFailure::Acquire) => "while acquiring display buffer",
            Failure::Draw(DrawFailure::Present) => "while presenting buffer",
            Failure::EventLoop => "while running event loop",
        }
    }
}

} // verus!
