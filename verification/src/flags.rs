//! The two flag sets of the quad pipeline: edges and quad properties.

use crate::geometry::{Point, Rect};
use vstd::prelude::*;

verus! {

/// A set of the four edges of a rectangle. It says which edges are
/// anti-aliased, or which edges are snapped.
#[derive(Clone, Copy, Debug, PartialEq, Eq, Structural)]
pub struct EdgeMask {
    pub left: bool,
    pub top: bool,
    pub right: bool,
    pub bottom: bool,
}

impl EdgeMask {
    pub open spec fn spec_empty() -> EdgeMask {
        EdgeMask { left: false, top: false, right: false, bottom: false }
    }

    pub open spec fn spec_all() -> EdgeMask {
        EdgeMask { left: true, top: true, right: true, bottom: true }
    }

    /// No edge.
    #[verifier::when_used_as_spec(spec_empty)]
    pub fn empty() -> (m: EdgeMask)
        ensures
            m == EdgeMask::spec_empty(),
    {
        EdgeMask { left: false, top: false, right: false, bottom: false }
    }

    /// All four edges.
    #[verifier::when_used_as_spec(spec_all)]
    pub fn all() -> (m: EdgeMask)
        ensures
            m == EdgeMask::spec_all(),
    {
        EdgeMask { left: true, top: true, right: true, bottom: true }
    }

    pub open spec fn spec_is_empty(&self) -> bool {
        !self.left && !self.top && !self.right && !self.bottom
    }

    #[verifier::when_used_as_spec(spec_is_empty)]
    pub fn is_empty(&self) -> (r: bool)
        ensures
            r == self.spec_is_empty(),
    {
        !self.left && !self.top && !self.right && !self.bottom
    }

    /// The edges that are not in the set.
    pub open spec fn spec_complement(&self) -> EdgeMask {
        EdgeMask { left: !self.left, top: !self.top, right: !self.right, bottom: !self.bottom }
    }

    #[verifier::when_used_as_spec(spec_complement)]
    pub fn complement(&self) -> (m: EdgeMask)
        ensures
            m == self.spec_complement(),
    {
        EdgeMask { left: !self.left, top: !self.top, right: !self.right, bottom: !self.bottom }
    }

    /// The edges that are in both sets.
    pub open spec fn spec_intersection(&self, other: EdgeMask) -> EdgeMask {
        EdgeMask {
            left: self.left && other.left,
            top: self.top && other.top,
            right: self.right && other.right,
            bottom: self.bottom && other.bottom,
        }
    }

    #[verifier::when_used_as_spec(spec_intersection)]
    pub fn intersection(&self, other: EdgeMask) -> (m: EdgeMask)
        ensures
            m == self.spec_intersection(other),
    {
        EdgeMask {
            left: self.left && other.left,
            top: self.top && other.top,
            right: self.right && other.right,
            bottom: self.bottom && other.bottom,
        }
    }

    /// The rectangle that takes each edge in the set from `a` and each
    /// other edge from `b`.
    pub open spec fn spec_select(&self, a: Rect, b: Rect) -> Rect {
        Rect {
            min: Point {
                x: if self.left { a.min.x } else { b.min.x },
                y: if self.top { a.min.y } else { b.min.y },
            },
            max: Point {
                x: if self.right { a.max.x } else { b.max.x },
                y: if self.bottom { a.max.y } else { b.max.y },
            },
        }
    }

    #[verifier::when_used_as_spec(spec_select)]
    pub fn select(&self, a: Rect, b: Rect) -> (r: Rect)
        ensures
            r == self.spec_select(a, b),
    {
        Rect {
            min: Point {
                x: if self.left { a.min.x } else { b.min.x },
                y: if self.top { a.min.y } else { b.min.y },
            },
            max: Point {
                x: if self.right { a.max.x } else { b.max.x },
                y: if self.bottom { a.max.y } else { b.max.y },
            },
        }
    }
}

/// Properties of one quad instance.
#[derive(Clone, Copy, Debug, PartialEq, Eq, Structural)]
pub struct QuadFlags {
    /// Anti-aliased edges are drawn as strips of their own.
    pub use_aa_segments: bool,
    /// The instance is clipped to its render task.
    pub apply_render_task_clip: bool,
    /// The instance covers its pixels fully.
    pub is_opaque: bool,
    /// The instance writes a mask.
    pub is_mask: bool,
}

impl QuadFlags {
    pub open spec fn spec_empty() -> QuadFlags {
        QuadFlags {
            use_aa_segments: false,
            apply_render_task_clip: false,
            is_opaque: false,
            is_mask: false,
        }
    }

    /// No flag set.
    #[verifier::when_used_as_spec(spec_empty)]
    pub fn empty() -> (f: QuadFlags)
        ensures
            f == QuadFlags::spec_empty(),
    {
        QuadFlags {
            use_aa_segments: false,
            apply_render_task_clip: false,
            is_opaque: false,
            is_mask: false,
        }
    }
}

} // verus!
