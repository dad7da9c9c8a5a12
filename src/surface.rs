use vstd::prelude::*;

verus! {

/// A width and a height in physical pixels.
#[derive(Clone, Copy, Debug, PartialEq, Eq, Structural)]
pub struct Size {
    pub width: u32,
    pub height: u32,
}

impl Size {
    /// Zero area: a minimised window, or a buffer that was never configured.
    pub open spec fn is_degenerate(self) -> bool {
        self.width == 0 || self.height == 0
    }
}

/// What a resize to `width` x `height` asks of the presentable buffer: a new
/// configuration, or nothing at all when the size has zero area.
pub open spec fn resize_request(width: u32, height: u32) -> Option<Size> {
    if width == 0 || height == 0 {
        None
    } else {
        Some(Size { width, height })
    }
}

/// The dimensions that a window's presentable buffer is currently bound with.
/// Before the first successful configuration they are zero.
pub struct SurfaceState {
    dims: Size,
}

impl View for SurfaceState {
    type V = Size;

    closed spec fn view(&self) -> Size {
        self.dims
    }
}

impl SurfaceState {
    /// A binding that has not been configured yet.
    pub fn new() -> (s: SurfaceState)
        ensures
            s@ == (Size { width: 0, height: 0 }),
    {
        SurfaceState { dims: Size { width: 0, height: 0 } }
    }

    /// The current dimensions.
    pub fn dimensions(&self) -> (r: Size)
        ensures
            r == self@,
    {
        self.dims
    }

    /// Whether there is a configured, non-empty buffer to draw into.
    pub fn is_drawable(&self) -> (r: bool)
        ensures
            r == !self@.is_degenerate(),
    {
        self.dims.width != 0 && self.dims.height != 0
    }

    /// The configuration that a window of `width` x `height` needs; `None` when
    /// the size has zero area, which is not an error: the buffer stays as it is.
    pub fn resize_request(width: u32, height: u32) -> (r: Option<Size>)
        ensures
            r == resize_request(width, height),
    {
        if width == 0 || height == 0 {
            None
        } else {
            Some(Size { width, height })
        }
    }

    /// Records that the buffer was successfully bound with `size`.
    pub fn configured(&mut self, size: Size)
        requires
            !size.is_degenerate(),
        ensures
            final(self)@ == size,
    {
        self.dims = size;
    }
}

} // verus!
