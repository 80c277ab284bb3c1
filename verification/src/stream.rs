//! Metadata for one active capture stream.

use vstd::prelude::*;

verus! {

/// A single active stream.
///
/// Each item being captured appears as a stream. This holds the metadata
/// needed to pick the stream up from the media subsystem: the native node
/// identifier and, when the source has fixed dimensions, its size.
#[derive(Debug, Clone, Copy, PartialEq, Eq, Structural)]
pub struct ScreenCastStream {
    /// The node identifier under which the media subsystem exposes the stream.
    pub pipewire_node: u32,
    /// The source's width in pixels; zero when the source reported no size.
    pub width: u32,
    /// The source's height in pixels; zero when the source reported no size.
    pub height: u32,
}

impl ScreenCastStream {
    /// Get the node ID under which the media subsystem exposes this stream.
    pub fn pipewire_node(&self) -> (r: u32)
        ensures
            r == self.pipewire_node,
    {
        self.pipewire_node
    }

    /// The stream's width in pixels, or zero when the source has none.
    pub fn width(&self) -> (r: u32)
        ensures
            r == self.width,
    {
        self.width
    }

    /// The stream's height in pixels, or zero when the source has none.
    pub fn height(&self) -> (r: u32)
        ensures
            r == self.height,
    {
        self.height
    }

    /// The stream's dimensions as a `(width, height)` pair.
    pub fn size(&self) -> (r: (u32, u32))
        ensures
            r.0 == self.width,
            r.1 == self.height,
    {
        (self.width(), self.height())
    }
}

} // verus!
