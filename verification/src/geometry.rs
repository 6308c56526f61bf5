//! Axis-aligned rectangles over the shared virtual-desktop integer
//! coordinate space, with the intersection, containment and translation
//! operations the registry and the compositor are built on.
use vstd::prelude::*;

verus! {

/// A rectangle in virtual-desktop coordinates, in physical pixels.
/// `min` is the top-left corner; `max` is the exclusive bound of the
/// content, so that `width == max_x - min_x`. A rectangle standing for
/// real geometry keeps `min <= max` on both axes; a degenerate rectangle
/// (`min == max` on an axis) stands for "no intersection".
#[derive(Clone, Copy, Debug, PartialEq, Eq, Structural)]
pub struct ElementRect {
    pub min_x: i32,
    pub min_y: i32,
    pub max_x: i32,
    pub max_y: i32,
}

impl ElementRect {
    /// Well-formed geometry: the minimum does not exceed the maximum.
    pub open spec fn wf(self) -> bool {
        self.min_x <= self.max_x && self.min_y <= self.max_y
    }

    pub open spec fn spec_width(self) -> int {
        self.max_x - self.min_x
    }

    pub open spec fn spec_height(self) -> int {
        self.max_y - self.min_y
    }

    /// Zero area: no interior on at least one axis.
    pub open spec fn spec_is_zero_area(self) -> bool {
        self.min_x == self.max_x || self.min_y == self.max_y
    }

    /// The projections of the two rectangles meet on both axes, a shared
    /// edge or corner (zero-width overlap) counting as meeting.
    pub open spec fn spec_overlaps(self, other: ElementRect) -> bool {
        self.min_x <= other.max_x && other.min_x <= self.max_x
            && self.min_y <= other.max_y && other.min_y <= self.max_y
    }

    /// The coordinate-wise intersection; where the rectangles miss each
    /// other on an axis, that axis collapses to the larger of the two
    /// minima, so the result is degenerate rather than inverted.
    pub open spec fn spec_clip(self, other: ElementRect) -> ElementRect {
        let lo_x = if self.min_x >= other.min_x { self.min_x } else { other.min_x };
        let hi_x = if self.max_x <= other.max_x { self.max_x } else { other.max_x };
        let lo_y = if self.min_y >= other.min_y { self.min_y } else { other.min_y };
        let hi_y = if self.max_y <= other.max_y { self.max_y } else { other.max_y };
        ElementRect {
            min_x: lo_x,
            min_y: lo_y,
            max_x: if hi_x >= lo_x { hi_x } else { lo_x },
            max_y: if hi_y >= lo_y { hi_y } else { lo_y },
        }
    }

    /// True iff the projections of the two rectangles intersect on both
    /// axes, zero-width contact included. This is the sole admission test
    /// for whether a monitor participates in a capture.
    pub fn overlaps(&self, other: &ElementRect) -> (r: bool)
        ensures
            r == self.spec_overlaps(*other),
    {
        self.min_x <= other.max_x && other.min_x <= self.max_x
            && self.min_y <= other.max_y && other.min_y <= self.max_y
    }

    /// The coordinate-wise intersection, clamped so that a miss yields a
    /// degenerate (zero-area) rectangle instead of an inverted one.
    /// Callers must check the area before using the result meaningfully.
    pub fn clip_rect(&self, other: &ElementRect) -> (r: ElementRect)
        ensures
            r == self.spec_clip(*other),
            r.wf(),
    {
        let lo_x: i32 = if self.min_x >= other.min_x { self.min_x } else { other.min_x };
        let hi_x: i32 = if self.max_x <= other.max_x { self.max_x } else { other.max_x };
        let lo_y: i32 = if self.min_y >= other.min_y { self.min_y } else { other.min_y };
        let hi_y: i32 = if self.max_y <= other.max_y { self.max_y } else { other.max_y };
        ElementRect {
            min_x: lo_x,
            min_y: lo_y,
            max_x: if hi_x >= lo_x { hi_x } else { lo_x },
            max_y: if hi_y >= lo_y { hi_y } else { lo_y },
        }
    }

    /// The rectangle moved by `(dx, dy)`.
    pub fn translate(&self, dx: i32, dy: i32) -> (r: ElementRect)
        requires
            i32::MIN <= self.min_x + dx <= i32::MAX,
            i32::MIN <= self.max_x + dx <= i32::MAX,
            i32::MIN <= self.min_y + dy <= i32::MAX,
            i32::MIN <= self.max_y + dy <= i32::MAX,
        ensures
            r.min_x == self.min_x + dx,
            r.min_y == self.min_y + dy,
            r.max_x == self.max_x + dx,
            r.max_y == self.max_y + dy,
    {
        ElementRect {
            min_x: self.min_x + dx,
            min_y: self.min_y + dy,
            max_x: self.max_x + dx,
            max_y: self.max_y + dy,
        }
    }

    /// Zero area on at least one axis.
    pub fn is_zero_area(&self) -> (r: bool)
        ensures
            r == self.spec_is_zero_area(),
    {
        self.min_x == self.max_x || self.min_y == self.max_y
    }

    /// The centre point, used as a best-effort pointer position when the
    /// platform cannot report where the pointer is.
    pub fn center(&self) -> (r: (i32, i32))
        requires
            self.wf(),
        ensures
            r.0 == self.min_x + (self.max_x - self.min_x) / 2,
            r.1 == self.min_y + (self.max_y - self.min_y) / 2,
    {
        let w: i64 = self.max_x as i64 - self.min_x as i64;
        let h: i64 = self.max_y as i64 - self.min_y as i64;
        (
            (self.min_x as i64 + w / 2) as i32,
            (self.min_y as i64 + h / 2) as i32,
        )
    }
}

/// Overlap is symmetric: it holds of `a` against `b` exactly when it
/// holds of `b` against `a`.
pub proof fn lemma_overlaps_symmetric(a: ElementRect, b: ElementRect)
    ensures
        a.spec_overlaps(b) == b.spec_overlaps(a),
{
}

/// Rectangles that do not overlap clip to a zero-area rectangle.
pub proof fn lemma_clip_disjoint_zero_area(a: ElementRect, b: ElementRect)
    requires
        !a.spec_overlaps(b),
    ensures
        a.spec_clip(b).spec_is_zero_area(),
{
}

/// Clipping a well-formed rectangle against itself gives it back unchanged.
pub proof fn lemma_clip_self(a: ElementRect)
    requires
        a.wf(),
    ensures
        a.spec_clip(a) == a,
{
}

} // verus!
