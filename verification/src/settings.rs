//! Capturing window geometry and applying it to a new window configuration.

use crate::geometry::{DisplayRect, LogicalSize, PhysicalPosition, on_some_display,
    some_display_contains};
use vstd::prelude::*;

verus! {

/// Can be used to store native window settings (position and size).
///
/// A value is created once per capture, stored between runs, and consumed
/// once to configure a new window; callers do not mutate it in place.
#[derive(Clone, Copy, Debug, PartialEq)]
pub struct WindowSettings {
    /// Inner position of window in physical pixels. Absent when the
    /// windowing system could not report a position at capture time.
    pub inner_pos: Option<PhysicalPosition>,
    /// Inner size of window in logical pixels. Absent only when no window
    /// existed to measure.
    pub inner_size_points: Option<LogicalSize>,
}

/// A window configuration under construction: the position and size
/// requests that will be handed to the windowing layer when the window is
/// realized. It stands for a window builder, reduced to the two
/// constraints this library decides about; a request left `None` falls
/// back to the platform default.
#[derive(Clone, Copy, Debug, PartialEq)]
pub struct WindowConfig {
    /// Requested inner position, in physical pixels.
    pub position: Option<PhysicalPosition>,
    /// Requested inner size, in logical units.
    pub inner_size: Option<LogicalSize>,
}

impl WindowConfig {
    /// A configuration with no explicit requests: the platform chooses
    /// placement and size.
    pub fn new() -> (r: WindowConfig)
        ensures
            r.position.is_none(),
            r.inner_size.is_none(),
    {
        WindowConfig { position: None, inner_size: None }
    }

    /// Request an explicit inner position, in physical pixels.
    pub fn with_position(self, p: PhysicalPosition) -> (r: WindowConfig)
        ensures
            r.position == Some(p),
            r.inner_size == self.inner_size,
    {
        WindowConfig { position: Some(p), inner_size: self.inner_size }
    }

    /// Request an explicit inner size, in logical units.
    pub fn with_inner_size(self, z: LogicalSize) -> (r: WindowConfig)
        ensures
            r.position == self.position,
            r.inner_size == Some(z),
    {
        WindowConfig { position: self.position, inner_size: Some(z) }
    }
}

/// The view of an optional display list: `None` when the platform offers
/// no display enumeration at all.
pub open spec fn displays_view(displays: Option<&Vec<DisplayRect>>) -> Option<Seq<DisplayRect>> {
    match displays {
        None => None,
        Some(ds) => Some(ds@),
    }
}

/// Whether a stored position may be restored. When no display enumeration
/// is available, validation is impossible and the position is restored
/// optimistically (fail open); otherwise the position must lie on some
/// currently attached display.
pub open spec fn spec_can_restore_position(
    p: PhysicalPosition,
    displays: Option<Seq<DisplayRect>>,
) -> bool {
    match displays {
        None => true,
        Some(ds) => on_some_display(p, ds),
    }
}

/// What applying `s` to the configuration `w` yields, given the displays
/// attached now: the position request is added exactly when a stored
/// position exists and may be restored, and the size request is added
/// exactly when a stored size exists; each otherwise stays as it was.
pub open spec fn spec_initialize_window(
    s: WindowSettings,
    w: WindowConfig,
    displays: Option<Seq<DisplayRect>>,
) -> WindowConfig {
    let pos = match s.inner_pos {
        Some(p) => if spec_can_restore_position(p, displays) {
            Some(p)
        } else {
            w.position
        },
        None => w.position,
    };
    let size = match s.inner_size_points {
        Some(z) => Some(z),
        None => w.inner_size,
    };
    WindowConfig { position: pos, inner_size: size }
}

impl WindowSettings {
    /// Snapshot the geometry read from a live window: the inner position
    /// in physical pixels, where the query may have failed (`None`), and
    /// the inner size, already converted to logical units by dividing the
    /// physical size by the window's scale factor. A live window always
    /// has a measurable size, so the stored size is always present; a
    /// failed position query is recorded as absent rather than reported
    /// as an error.
    pub fn from_display(
        inner_pos: Option<PhysicalPosition>,
        inner_size_points: LogicalSize,
    ) -> (r: WindowSettings)
        ensures
            r.inner_pos == inner_pos,
            r.inner_size_points == Some(inner_size_points),
    {
        WindowSettings { inner_pos, inner_size_points: Some(inner_size_points) }
    }

    /// Add this snapshot's requests to a window configuration.
    ///
    /// `displays` are the bounding rectangles of the displays attached
    /// now, or `None` when the platform cannot enumerate them. A stored
    /// position is validated against them: if the monitor arrangement
    /// changed since capture and no display contains the position any
    /// more, the position is dropped and default placement is kept, since
    /// a window placed outside every display can be unreachable. Without
    /// enumeration the position is applied optimistically. A stored size
    /// is applied unconditionally, independently of the position.
    pub fn initialize_window(
        &self,
        window: WindowConfig,
        displays: Option<&Vec<DisplayRect>>,
    ) -> (r: WindowConfig)
        ensures
            r == spec_initialize_window(*self, window, displays_view(displays)),
    {
        let mut window = window;
        if let Some(pos) = self.inner_pos {
            let can_restore_position = match displays {
                None => true,
                Some(ds) => some_display_contains(ds, pos),
            };
            if can_restore_position {
                window = window.with_position(pos);
            }
        }
        if let Some(size) = self.inner_size_points {
            window.with_inner_size(size)
        } else {
            window
        }
    }
}

/// With display enumeration available and no prior position request, an
/// explicit position is set if and only if the stored position lies
/// within at least one display's bounds, and the position set is the
/// stored one.
pub proof fn lemma_position_applied_iff_on_display(
    s: WindowSettings,
    w: WindowConfig,
    displays: Seq<DisplayRect>,
)
    requires
        w.position.is_none(),
    ensures
        spec_initialize_window(s, w, Some(displays)).position.is_some() <==> (s.inner_pos
            matches Some(p) && on_some_display(p, displays)),
        (s.inner_pos matches Some(p) && on_some_display(p, displays))
            ==> spec_initialize_window(s, w, Some(displays)).position == s.inner_pos,
{
}

/// Position and size are applied independently: the size outcome does not
/// depend on the stored position, and the position outcome does not
/// depend on the stored size. In particular a stored size is applied even
/// when the stored position is rejected, and a restorable stored position
/// is applied even when no size was stored.
pub proof fn lemma_position_and_size_independent(
    s: WindowSettings,
    w: WindowConfig,
    displays: Option<Seq<DisplayRect>>,
)
    ensures
        spec_initialize_window(s, w, displays).inner_size == spec_initialize_window(
            WindowSettings { inner_pos: None, inner_size_points: s.inner_size_points },
            w,
            displays,
        ).inner_size,
        spec_initialize_window(s, w, displays).position == spec_initialize_window(
            WindowSettings { inner_pos: s.inner_pos, inner_size_points: None },
            w,
            displays,
        ).position,
        s.inner_size_points.is_some() ==> spec_initialize_window(s, w, displays).inner_size
            == s.inner_size_points,
{
}

} // verus!
