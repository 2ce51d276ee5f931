//! Screen geometry: monitor rectangles, their scaled centers, and the
//! containment test used to pick the monitor under the focused window.
//!
//! Coordinates are held as `i64` but are always values that arrived over
//! protocols or files as 32-bit integers, so every product and sum below
//! stays far inside the `i64` range.

use vstd::prelude::*;

verus! {

/// A logical size times a 32-bit scale factor stays well inside `i64`.
pub proof fn lemma_scaled_extent_bounds(w: int, s: int)
    requires
        0 <= w <= i32::MAX,
        0 <= s <= i32::MAX,
    ensures
        0 <= w * s <= 0x3fff_ffff_0000_0001,
{
    assert(0 <= w * s <= 0x3fff_ffff_0000_0001) by (nonlinear_arith)
        requires
            0 <= w <= 0x7fff_ffff,
            0 <= s <= 0x7fff_ffff,
    ;
}

/// One monitor entry: position, logical size, and integer scale factor.
#[derive(Clone, Copy, PartialEq, Eq, Structural, Debug)]
pub struct Monitor {
    pub x: i64,
    pub y: i64,
    pub width: i64,
    pub height: i64,
    pub scale: i64,
}

impl Monitor {
    /// Every field fits in 32 bits and sizes and scale are non-negative,
    /// which keeps the center and containment arithmetic inside `i64`.
    pub open spec fn wf(self) -> bool {
        &&& i32::MIN <= self.x <= i32::MAX
        &&& i32::MIN <= self.y <= i32::MAX
        &&& 0 <= self.width <= i32::MAX
        &&& 0 <= self.height <= i32::MAX
        &&& 0 <= self.scale <= i32::MAX
    }

    /// Center of the scaled monitor rectangle, x coordinate.
    pub open spec fn spec_center_x(self) -> int {
        self.x + (self.width * self.scale) / 2
    }

    /// Center of the scaled monitor rectangle, y coordinate.
    pub open spec fn spec_center_y(self) -> int {
        self.y + (self.height * self.scale) / 2
    }

    /// Whether the point `(fx, fy)` lies inside the scaled rectangle.
    pub open spec fn spec_contains(self, fx: int, fy: int) -> bool {
        &&& self.x <= fx < self.x + self.width * self.scale
        &&& self.y <= fy < self.y + self.height * self.scale
    }

    /// Scaled center of the monitor rectangle.
    pub fn center(&self) -> (c: (i64, i64))
        requires
            self.wf(),
        ensures
            c.0 == self.spec_center_x(),
            c.1 == self.spec_center_y(),
    {
        proof {
            lemma_scaled_extent_bounds(self.width as int, self.scale as int);
            lemma_scaled_extent_bounds(self.height as int, self.scale as int);
        }
        let cx: i64 = self.x + (self.width * self.scale) / 2;
        let cy: i64 = self.y + (self.height * self.scale) / 2;
        (cx, cy)
    }

    /// Containment test for the focused-window center point.
    pub fn contains(&self, fx: i64, fy: i64) -> (r: bool)
        requires
            self.wf(),
        ensures
            r == self.spec_contains(fx as int, fy as int),
    {
        proof {
            lemma_scaled_extent_bounds(self.width as int, self.scale as int);
            lemma_scaled_extent_bounds(self.height as int, self.scale as int);
        }
        fx >= self.x && fx < self.x + self.width * self.scale && fy >= self.y && fy < self.y
            + self.height * self.scale
    }
}

/// Live information about one bound output, merged from protocol events
/// that each carry only part of the record: position from geometry events,
/// logical size from mode events, scale factor from scale events. Each
/// event updates only its own fields and preserves the others' last known
/// values; the flags say which categories have arrived at least once.
#[derive(Clone, Copy, PartialEq, Eq, Structural, Debug)]
pub struct OutputRecord {
    pub x: i64,
    pub y: i64,
    pub width: i64,
    pub height: i64,
    pub scale: i64,
    pub has_geometry: bool,
    pub has_mode: bool,
    pub has_scale: bool,
}

impl OutputRecord {
    /// Fields hold 32-bit protocol values, with sizes and scale
    /// non-negative.
    pub open spec fn wf(self) -> bool {
        &&& i32::MIN <= self.x <= i32::MAX
        &&& i32::MIN <= self.y <= i32::MAX
        &&& 0 <= self.width <= i32::MAX
        &&& 0 <= self.height <= i32::MAX
        &&& 0 <= self.scale <= i32::MAX
    }

    /// At least one event has arrived, so the record carries live data.
    pub open spec fn available(self) -> bool {
        self.has_geometry || self.has_mode || self.has_scale
    }

    /// All three event categories have arrived at least once.
    pub open spec fn complete(self) -> bool {
        self.has_geometry && self.has_mode && self.has_scale
    }

    /// The record read as a monitor rectangle.
    pub open spec fn as_monitor(self) -> Monitor {
        Monitor { x: self.x, y: self.y, width: self.width, height: self.height, scale: self.scale }
    }

    /// A record for a freshly bound output: origin position, no size, unit
    /// scale, nothing arrived yet.
    pub fn fresh() -> (r: OutputRecord)
        ensures
            r == (OutputRecord {
                x: 0,
                y: 0,
                width: 0,
                height: 0,
                scale: 1,
                has_geometry: false,
                has_mode: false,
                has_scale: false,
            }),
    {
        OutputRecord {
            x: 0,
            y: 0,
            width: 0,
            height: 0,
            scale: 1,
            has_geometry: false,
            has_mode: false,
            has_scale: false,
        }
    }

    /// Record a geometry event: update the position, preserve the rest.
    pub fn apply_geometry(&mut self, x: i32, y: i32)
        ensures
            *final(self) == (OutputRecord { x: x as i64, y: y as i64, has_geometry: true, ..*old(self) }),
    {
        self.x = x as i64;
        self.y = y as i64;
        self.has_geometry = true;
    }

    /// Record a mode event: update the logical size, preserve the rest. A
    /// negative size from a misbehaving server is recorded as zero so the
    /// record stays well formed.
    pub fn apply_mode(&mut self, width: i32, height: i32)
        ensures
            *final(self) == (OutputRecord {
                width: if width >= 0 {
                    width as i64
                } else {
                    0
                },
                height: if height >= 0 {
                    height as i64
                } else {
                    0
                },
                has_mode: true,
                ..*old(self)
            }),
    {
        self.width = if width >= 0 {
            width as i64
        } else {
            0
        };
        self.height = if height >= 0 {
            height as i64
        } else {
            0
        };
        self.has_mode = true;
    }

    /// Record a scale event: update the scale factor, preserve the rest. A
    /// negative factor is recorded as zero so the record stays well formed.
    pub fn apply_scale(&mut self, factor: i32)
        ensures
            *final(self) == (OutputRecord {
                scale: if factor >= 0 {
                    factor as i64
                } else {
                    0
                },
                has_scale: true,
                ..*old(self)
            }),
    {
        self.scale = if factor >= 0 {
            factor as i64
        } else {
            0
        };
        self.has_scale = true;
    }

    /// Whether any event has arrived for this output.
    pub fn is_available(&self) -> (r: bool)
        ensures
            r == self.available(),
    {
        self.has_geometry || self.has_mode || self.has_scale
    }

    /// Whether all three event categories have arrived.
    pub fn is_complete(&self) -> (r: bool)
        ensures
            r == self.complete(),
    {
        self.has_geometry && self.has_mode && self.has_scale
    }

    /// The record read as a monitor rectangle.
    pub fn to_monitor(&self) -> (m: Monitor)
        ensures
            m == self.as_monitor(),
            self.wf() ==> m.wf(),
    {
        Monitor { x: self.x, y: self.y, width: self.width, height: self.height, scale: self.scale }
    }
}

/// Center of the focused window from its root-relative position and size.
pub fn focus_center(root_x: i32, root_y: i32, width: i32, height: i32) -> (c: (i64, i64))
    requires
        width >= 0,
        height >= 0,
    ensures
        c.0 == root_x + width / 2,
        c.1 == root_y + height / 2,
{
    let cx: i64 = (root_x as i64) + (width as i64) / 2;
    let cy: i64 = (root_y as i64) + (height as i64) / 2;
    (cx, cy)
}

} // verus!
