//! Plain geometric values: positions, sizes and display rectangles.

use vstd::prelude::*;

verus! {

/// A point in physical (device) pixels, relative to the virtual desktop
/// origin. Coordinates may be negative: a display placed left of or above
/// the primary one has negative coordinates.
#[derive(Clone, Copy, Debug, PartialEq, Eq)]
pub struct PhysicalPosition {
    pub x: i32,
    pub y: i32,
}

/// A window content-area size in logical (scale-independent) units.
///
/// Each dimension carries the bit pattern of an IEEE 754 single-precision
/// value. The library never interprets the number; it only stores it,
/// round-trips it through the storage format, and hands it back to the
/// windowing layer, which converts logical units to physical pixels with
/// the scale factor of the display the window lands on. Callers convert
/// with `f32::to_bits` and `f32::from_bits`.
#[derive(Clone, Copy, Debug, PartialEq, Eq)]
pub struct LogicalSize {
    pub width_bits: u32,
    pub height_bits: u32,
}

/// The bounding rectangle of an attached display, in physical pixels.
/// `x`/`y` is the top-left corner; the rectangle covers the half-open
/// coordinate ranges `[x, x + width)` and `[y, y + height)`.
#[derive(Clone, Copy, Debug, PartialEq, Eq)]
pub struct DisplayRect {
    pub x: i32,
    pub y: i32,
    pub width: u32,
    pub height: u32,
}

impl DisplayRect {
    /// Whether `p` lies within this display's bounds. The ranges are
    /// half-open, so a point one pixel beyond the right or bottom edge is
    /// outside.
    pub open spec fn spec_contains(self, p: PhysicalPosition) -> bool {
        &&& self.x <= p.x < self.x + self.width
        &&& self.y <= p.y < self.y + self.height
    }

    /// Point-in-rectangle test against this display's bounds.
    pub fn contains(&self, p: PhysicalPosition) -> (r: bool)
        ensures
            r == self.spec_contains(p),
    {
        self.x <= p.x && (p.x as i64) < (self.x as i64) + (self.width as i64) && self.y <= p.y
            && (p.y as i64) < (self.y as i64) + (self.height as i64)
    }
}

/// Whether at least one display in `displays` contains `p`.
pub open spec fn on_some_display(p: PhysicalPosition, displays: Seq<DisplayRect>) -> bool {
    exists|i: int| 0 <= i < displays.len() && displays[i].spec_contains(p)
}

/// Linear search for a display whose bounds contain `p`.
pub fn some_display_contains(displays: &Vec<DisplayRect>, p: PhysicalPosition) -> (r: bool)
    ensures
        r == on_some_display(p, displays@),
{
    let mut i: usize = 0;
    while i < displays.len()
        invariant
            i <= displays@.len(),
            forall|j: int| 0 <= j < i ==> !displays@[j].spec_contains(p),
        decreases displays@.len() - i,
    {
        if displays[i].contains(p) {
            assert(displays@[i as int].spec_contains(p));
            return true;
        }
        i = i + 1;
    }
    false
}

} // verus!
