//! What a command asks of the visible region of the plane.

use vstd::prelude::*;

verus! {

/// What one pixel spans after a zoom in, in hundredths of what it spanned
/// before.
pub const ZOOM_IN_PERCENT: u32 = 80;

/// What one pixel spans after a slow zoom in, in hundredths of what it
/// spanned before.
pub const ZOOM_IN_SLOW_PERCENT: u32 = 98;

/// What one pixel spans after a zoom out, in hundredths of what it spanned
/// before.
pub const ZOOM_OUT_PERCENT: u32 = 125;

/// The distance of one pan, in pixels of the display.
pub const PAN_PIXELS: i32 = 100;

/// A change to the visible region. The region itself is the viewer's; this
/// names the transformation to apply to it, with exact parameters.
#[derive(Clone, Copy, Debug, PartialEq, Eq, Structural)]
pub enum ViewChange {
    /// Leave the region as it is.
    Keep,
    /// Scale the region around its own centre, so that one pixel spans
    /// `percent` hundredths of what it spanned before. Under 100 zooms in,
    /// over 100 zooms out.
    Zoom { percent: u32 },
    /// Shift the region horizontally by `pixels` pixels: to the left where
    /// `pixels` is positive, to the right where it is negative.
    MoveLeft { pixels: i32 },
    /// Shift the region vertically by `pixels` pixels: down where `pixels` is
    /// positive, up where it is negative.
    MoveDown { pixels: i32 },
}

} // verus!
