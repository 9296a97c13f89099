//! Small geometric value types used by the theme: sizes, margins, corner
//! radii and rectangles. Coordinates and sizes are in centipoints
//! (hundredths of a point); margins and corner radii are whole points.

use vstd::prelude::*;

verus! {

/// A one-dimensional alignment: start, center or end. Vertically, `Min`
/// is the top and `Max` the bottom.
#[derive(Clone, Copy, Debug, PartialEq, Eq, Structural, Hash)]
pub enum Align {
    Min,
    Center,
    Max,
}

/// A non-negative size or spacing in two dimensions, in centipoints.
#[derive(Clone, Copy, Debug, PartialEq, Eq, Structural, Hash)]
pub struct Vec2 {
    pub x: u32,
    pub y: u32,
}

impl Vec2 {
    #[verifier::allow_in_spec]
    pub fn new(x: u32, y: u32) -> Vec2
        returns
            (Vec2 { x, y }),
    {
        Vec2 { x, y }
    }

    /// Both components set to the same value.
    #[verifier::allow_in_spec]
    pub fn splat(v: u32) -> Vec2
        returns
            (Vec2 { x: v, y: v }),
    {
        Vec2 { x: v, y: v }
    }
}

/// Margins around a frame, in whole points. A margin may be negative.
#[derive(Clone, Copy, Debug, PartialEq, Eq, Structural, Hash)]
pub struct Margin {
    pub left: i8,
    pub right: i8,
    pub top: i8,
    pub bottom: i8,
}

impl Margin {
    /// The same margin on all four sides.
    #[verifier::allow_in_spec]
    pub fn same(v: i8) -> Margin
        returns
            (Margin { left: v, right: v, top: v, bottom: v }),
    {
        Margin { left: v, right: v, top: v, bottom: v }
    }
}

/// Corner radii of a rectangle, one per corner, in whole points.
#[derive(Clone, Copy, Debug, PartialEq, Eq, Structural, Hash)]
pub struct CornerRadius {
    pub nw: u8,
    pub ne: u8,
    pub sw: u8,
    pub se: u8,
}

impl CornerRadius {
    /// The same radius on all four corners.
    #[verifier::allow_in_spec]
    pub fn same(v: u8) -> CornerRadius
        returns
            (CornerRadius { nw: v, ne: v, sw: v, se: v }),
    {
        CornerRadius { nw: v, ne: v, sw: v, se: v }
    }
}

/// An axis-aligned rectangle, given by its two corners in centipoints.
/// `min` is the top-left corner and `max` the bottom-right one.
#[derive(Clone, Copy, Debug, PartialEq, Eq, Structural, Hash)]
pub struct Rect {
    pub min_x: i32,
    pub min_y: i32,
    pub max_x: i32,
    pub max_y: i32,
}

impl Rect {
    /// The rectangle of the given size centered on (`cx`, `cy`).
    /// An odd size loses its last centipoint to rounding.
    pub fn from_center_size(cx: i32, cy: i32, w: u32, h: u32) -> (r: Rect)
        requires
            w <= i32::MAX,
            h <= i32::MAX,
            i32::MIN <= cx - w / 2 && cx + (w - w / 2) <= i32::MAX,
            i32::MIN <= cy - h / 2 && cy + (h - h / 2) <= i32::MAX,
        ensures
            r.min_x == cx - w / 2,
            r.min_y == cy - h / 2,
            r.max_x == cx + (w - w / 2),
            r.max_y == cy + (h - h / 2),
    {
        let half_w = (w / 2) as i32;
        let half_h = (h / 2) as i32;
        Rect {
            min_x: cx - half_w,
            min_y: cy - half_h,
            max_x: cx + (w as i32 - half_w),
            max_y: cy + (h as i32 - half_h),
        }
    }

    /// The horizontal center, rounded towards the left edge.
    pub fn center_x(&self) -> (c: i32)
        requires
            self.min_x <= self.max_x,
        ensures
            c == self.min_x + (self.max_x - self.min_x) / 2,
    {
        let c64: i64 = self.min_x as i64 + (self.max_x as i64 - self.min_x as i64) / 2;
        c64 as i32
    }

    /// The vertical center, rounded towards the top edge.
    pub fn center_y(&self) -> (c: i32)
        requires
            self.min_y <= self.max_y,
        ensures
            c == self.min_y + (self.max_y - self.min_y) / 2,
    {
        let c64: i64 = self.min_y as i64 + (self.max_y as i64 - self.min_y as i64) / 2;
        c64 as i32
    }
}

} // verus!
