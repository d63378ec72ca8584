//! Two-dimensional geometry: absolute offsets, paired flexible dimensions
//! with a baseline depth, and the padding quad.
//!
//! Coordinates run right (`x`) and down (`y`), with the origin at the
//! page's top-left after margin.  The `depth` of a `Size` is the distance
//! from the bottom edge to the typographic baseline; `ascent` is
//! `height - depth` when both are known.

use vstd::prelude::*;

use crate::dimension::{
    Dim, FlexDim, MaybeDim, spec_base_size, spec_clamp_base, spec_dim_max_of, spec_dim_set_size,
    spec_dim_size, spec_flex_add, spec_flex_content, spec_flex_fixed,
};
use crate::unit::{Unit, sat_add, sat_sub, spec_sub_unit};

verus! {

/// An absolute position in page-root coordinates.
#[derive(Debug, Clone, Copy, PartialEq, Eq, Structural)]
pub struct Offset {
    pub x: Unit,
    pub y: Unit,
}

impl Offset {
    pub fn new(x: Unit, y: Unit) -> (r: Self)
        ensures
            r == (Offset { x, y }),
    {
        Offset { x, y }
    }

    pub fn zero() -> (r: Self)
        ensures
            r == (Offset { x: Unit(0), y: Unit(0) }),
    {
        Offset { x: Unit::zero(), y: Unit::zero() }
    }

    /// Moves right by `amount` (saturating).
    pub fn x_advance(&mut self, amount: Unit)
        ensures
            *final(self) == (Offset {
                x: Unit(sat_add(old(self).x.0 as int, amount.0 as int) as i64),
                y: old(self).y,
            }),
    {
        self.x = self.x.add(amount);
    }

    /// Moves down by `amount` (saturating).
    pub fn y_advance(&mut self, amount: Unit)
        ensures
            *final(self) == (Offset {
                x: old(self).x,
                y: Unit(sat_add(old(self).y.0 as int, amount.0 as int) as i64),
            }),
    {
        self.y = self.y.add(amount);
    }

    /// Componentwise sum.
    pub fn add(&self, rhs: &Offset) -> (r: Offset)
        ensures
            r == (Offset {
                x: Unit(sat_add(self.x.0 as int, rhs.x.0 as int) as i64),
                y: Unit(sat_add(self.y.0 as int, rhs.y.0 as int) as i64),
            }),
    {
        Offset { x: self.x.add(rhs.x), y: self.y.add(rhs.y) }
    }

    /// Componentwise difference.
    pub fn sub(&self, rhs: &Offset) -> (r: Offset)
        ensures
            r == (Offset {
                x: Unit(sat_sub(self.x.0 as int, rhs.x.0 as int) as i64),
                y: Unit(sat_sub(self.y.0 as int, rhs.y.0 as int) as i64),
            }),
    {
        Offset { x: self.x.sub(rhs.x), y: self.y.sub(rhs.y) }
    }
}

/// Paired dimensions with an optional baseline depth.
#[derive(Debug, Clone, Copy, PartialEq, Eq, Structural)]
pub struct Size {
    pub width: FlexDim,
    pub height: FlexDim,
    pub depth: Option<Unit>,
}

/// The distance from the top edge to the baseline, where height and depth
/// are both known.
pub open spec fn spec_ascent(s: Size) -> Option<Unit> {
    match (s.depth, spec_dim_size(s.height.base)) {
        (Option::Some(d), Option::Some(h)) => Option::Some(
            Unit(sat_sub(h.0 as int, d.0 as int) as i64),
        ),
        _ => Option::None,
    }
}

/// The ascent read as a plain length: `height - depth` with an absent
/// side left out, and zero when neither is known.
pub open spec fn spec_ascent_size(s: Size) -> Unit {
    match spec_sub_unit(spec_dim_size(s.height.base), s.depth) {
        Option::Some(u) => u,
        Option::None => Unit(0),
    }
}

/// The later of two optional depths.
pub open spec fn spec_max_depth(l: Option<Unit>, r: Option<Unit>) -> Option<Unit> {
    match (l, r) {
        (Option::None, d) => d,
        (d, Option::None) => d,
        (Option::Some(a), Option::Some(b)) => if a.0 >= b.0 {
            Option::Some(a)
        } else {
            Option::Some(b)
        },
    }
}

/// Main-axis (horizontal) extension: widths add; under baseline rules the
/// larger ascent and the larger depth combine into a fixed height, else
/// the larger height wins.
pub open spec fn spec_x_extend(s: Size, r: Size, respect_baseline: bool) -> Size {
    let width = spec_flex_add(s.width, r.width);
    if respect_baseline {
        let ascent = if spec_ascent_size(s).0 >= spec_ascent_size(r).0 {
            spec_ascent_size(s)
        } else {
            spec_ascent_size(r)
        };
        let depth = spec_max_depth(s.depth, r.depth);
        let base = match depth {
            Option::Some(d) => d,
            Option::None => Unit(0),
        };
        Size {
            width,
            height: spec_flex_fixed(Unit(sat_add(base.0 as int, ascent.0 as int) as i64)),
            depth,
        }
    } else {
        Size {
            width,
            height: FlexDim { base: spec_dim_max_of(s.height.base, r.height.base), ..s.height },
            depth: s.depth,
        }
    }
}

/// Cross-axis (vertical) extension: heights add, the wider width wins,
/// and under baseline rules the first known depth is kept.
pub open spec fn spec_y_extend(s: Size, r: Size, respect_baseline: bool) -> Size {
    Size {
        width: FlexDim { base: spec_dim_max_of(s.width.base, r.width.base), ..s.width },
        height: spec_flex_add(s.height, r.height),
        depth: if respect_baseline && (s.depth matches Option::None) {
            r.depth
        } else {
            s.depth
        },
    }
}

/// A size fixed at zero on both axes, with no depth.
pub open spec fn spec_size_zero() -> Size {
    Size {
        width: spec_flex_fixed(Unit(0)),
        height: spec_flex_fixed(Unit(0)),
        depth: Option::None,
    }
}

impl Size {
    pub fn none() -> (r: Self)
        ensures
            r == (Size { width: spec_flex_content(), height: spec_flex_content(), depth: Option::None }),
    {
        Size { width: FlexDim::none(), height: FlexDim::none(), depth: None }
    }

    pub fn content() -> (r: Self)
        ensures
            r == (Size { width: spec_flex_content(), height: spec_flex_content(), depth: Option::None }),
    {
        Size { width: FlexDim::content(), height: FlexDim::content(), depth: None }
    }

    pub fn fixed(width: Unit, height: Unit) -> (r: Self)
        ensures
            r == (Size {
                width: spec_flex_fixed(width),
                height: spec_flex_fixed(height),
                depth: Option::None,
            }),
    {
        Size { width: FlexDim::fixed(width), height: FlexDim::fixed(height), depth: None }
    }

    pub fn fixed_depth(width: Unit, height: Unit, depth: Unit) -> (r: Self)
        ensures
            r == (Size {
                width: spec_flex_fixed(width),
                height: spec_flex_fixed(height),
                depth: Option::Some(depth),
            }),
    {
        Size {
            width: FlexDim::fixed(width),
            height: FlexDim::fixed(height),
            depth: Some(depth),
        }
    }

    pub fn zero() -> (r: Self)
        ensures
            r == (Size {
                width: spec_flex_fixed(Unit(0)),
                height: spec_flex_fixed(Unit(0)),
                depth: Option::None,
            }),
    {
        Size {
            width: FlexDim::fixed(Unit::zero()),
            height: FlexDim::fixed(Unit::zero()),
            depth: None,
        }
    }

    pub fn x_dim(&self) -> (r: &FlexDim)
        ensures
            r == self.width,
    {
        &self.width
    }

    pub fn x_dim_mut<'a>(&'a mut self) -> (r: &'a mut FlexDim)
        ensures
            *r == old(self).width,
            *final(self) == (Size { width: *final(r), ..*old(self) }),
    {
        &mut self.width
    }

    pub fn y_dim(&self) -> (r: &FlexDim)
        ensures
            r == self.height,
    {
        &self.height
    }

    pub fn y_dim_mut<'a>(&'a mut self) -> (r: &'a mut FlexDim)
        ensures
            *r == old(self).height,
            *final(self) == (Size { height: *final(r), ..*old(self) }),
    {
        &mut self.height
    }

    pub fn width_ref(&self) -> (r: &Dim)
        ensures
            r == self.width.base,
    {
        &self.width.base
    }

    /// The concrete width, or zero while it is unresolved.
    pub fn width(&self) -> (r: Unit)
        ensures
            r == spec_base_size(self.width),
    {
        self.width.base_size()
    }

    /// Stores a new width basis, clamped into the width bounds.
    pub fn set_width(&mut self, width: Dim)
        ensures
            *final(self) == (Size {
                width: FlexDim {
                    base: spec_clamp_base(width, old(self).width.min, old(self).width.max),
                    ..old(self).width
                },
                ..*old(self)
            }),
    {
        self.width.set_base(width);
    }

    pub fn height_ref(&self) -> (r: &Dim)
        ensures
            r == self.height.base,
    {
        &self.height.base
    }

    /// The concrete height, or zero while it is unresolved.
    pub fn height(&self) -> (r: Unit)
        ensures
            r == spec_base_size(self.height),
    {
        self.height.base_size()
    }

    /// Stores a new height basis, clamped into the height bounds.
    pub fn set_height(&mut self, height: Dim)
        ensures
            *final(self) == (Size {
                height: FlexDim {
                    base: spec_clamp_base(height, old(self).height.min, old(self).height.max),
                    ..old(self).height
                },
                ..*old(self)
            }),
    {
        self.height.set_base(height);
    }

    pub fn depth(&self) -> (r: Option<Unit>)
        ensures
            r == self.depth,
    {
        self.depth
    }

    pub fn set_depth(&mut self, depth: Option<Unit>)
        ensures
            *final(self) == (Size { depth, ..*old(self) }),
    {
        self.depth = depth;
    }

    pub fn ascent(&self) -> (r: Option<Unit>)
        ensures
            r == spec_ascent(*self),
    {
        match (self.depth, self.height.base.size()) {
            (Some(d), Some(h)) => Some(h.sub(d)),
            _ => None,
        }
    }

    pub fn ascent_size(&self) -> (r: Unit)
        ensures
            r == spec_ascent_size(*self),
    {
        match crate::unit::sub_unit(self.height.base.size(), self.depth) {
            Some(u) => u,
            None => Unit::zero(),
        }
    }

    /// Extends along the main (horizontal) axis by `rhs`.
    pub fn x_extend(&mut self, rhs: &Size, respect_baseline: bool)
        ensures
            *final(self) == spec_x_extend(*old(self), *rhs, respect_baseline),
    {
        let ascent = self.ascent_size().max_with(rhs.ascent_size());
        self.width = self.width.add(&rhs.width);
        if respect_baseline {
            self.depth = max_depth(self.depth, rhs.depth);
            let base = match self.depth {
                Some(d) => d,
                None => Unit::zero(),
            };
            self.height = FlexDim::fixed(base.add(ascent));
        } else {
            self.height = self.height.max_of(&rhs.height);
        }
    }

    /// Extends along the cross (vertical) axis by `rhs`.
    pub fn y_extend(&mut self, rhs: &Size, respect_baseline: bool)
        ensures
            *final(self) == spec_y_extend(*old(self), *rhs, respect_baseline),
    {
        self.width = self.width.max_of(&rhs.width);
        self.height = self.height.add(&rhs.height);
        if respect_baseline && self.depth.is_none() {
            self.depth = rhs.depth;
        }
    }
}

/// The later of two optional depths.
pub fn max_depth(l: Option<Unit>, r: Option<Unit>) -> (result: Option<Unit>)
    ensures
        result == spec_max_depth(l, r),
{
    match (l, r) {
        (None, d) => d,
        (Some(a), None) => Some(a),
        (Some(a), Some(b)) => if a.0 >= b.0 {
            Some(a)
        } else {
            Some(b)
        },
    }
}

/// Optional inner margins on the four sides of a box.
#[derive(Debug, Clone, Copy, PartialEq, Eq, Structural)]
pub struct Quad {
    pub top: Option<Unit>,
    pub left: Option<Unit>,
    pub bottom: Option<Unit>,
    pub right: Option<Unit>,
}

pub open spec fn opt_len(o: Option<Unit>) -> int {
    match o {
        Option::Some(u) => u.0 as int,
        Option::None => 0,
    }
}

/// The combined left and right padding.
pub open spec fn spec_quad_width(q: Quad) -> int {
    sat_add(opt_len(q.left), opt_len(q.right))
}

/// The combined top and bottom padding.
pub open spec fn spec_quad_height(q: Quad) -> int {
    sat_add(opt_len(q.top), opt_len(q.bottom))
}

/// What narrowing does to a size: each resolved basis shrinks by the
/// padding it spans (re-clamped into its bounds), and a known depth moves
/// up by the bottom padding.
pub open spec fn spec_narrow_size(q: Quad, s: Size) -> Size {
    let width = if spec_dim_size(s.width.base) matches Option::Some(_) {
        FlexDim {
            base: spec_clamp_base(
                spec_dim_set_size(
                    s.width.base,
                    Unit(sat_sub(spec_base_size(s.width) .0 as int, spec_quad_width(q)) as i64),
                ),
                s.width.min,
                s.width.max,
            ),
            ..s.width
        }
    } else {
        s.width
    };
    if spec_dim_size(s.height.base) matches Option::Some(_) {
        let height = FlexDim {
            base: spec_clamp_base(
                spec_dim_set_size(
                    s.height.base,
                    Unit(sat_sub(spec_base_size(s.height).0 as int, spec_quad_height(q)) as i64),
                ),
                s.height.min,
                s.height.max,
            ),
            ..s.height
        };
        let depth = match s.depth {
            Option::Some(d) => Option::Some(Unit(sat_sub(d.0 as int, opt_len(q.bottom)) as i64)),
            Option::None => Option::None,
        };
        Size { width, height, depth }
    } else {
        Size { width, height: s.height, depth: s.depth }
    }
}

/// What widening does to a size: the reverse growth of `spec_narrow_size`.
pub open spec fn spec_widen_size(q: Quad, s: Size) -> Size {
    let width = if spec_dim_size(s.width.base) matches Option::Some(_) {
        FlexDim {
            base: spec_clamp_base(
                spec_dim_set_size(
                    s.width.base,
                    Unit(sat_add(spec_base_size(s.width).0 as int, spec_quad_width(q)) as i64),
                ),
                s.width.min,
                s.width.max,
            ),
            ..s.width
        }
    } else {
        s.width
    };
    if spec_dim_size(s.height.base) matches Option::Some(_) {
        let height = FlexDim {
            base: spec_clamp_base(
                spec_dim_set_size(
                    s.height.base,
                    Unit(sat_add(spec_base_size(s.height).0 as int, spec_quad_height(q)) as i64),
                ),
                s.height.min,
                s.height.max,
            ),
            ..s.height
        };
        let depth = match s.depth {
            Option::Some(d) => Option::Some(Unit(sat_add(d.0 as int, opt_len(q.bottom)) as i64)),
            Option::None => Option::None,
        };
        Size { width, height, depth }
    } else {
        Size { width, height: s.height, depth: s.depth }
    }
}

/// The offset moved inward past the left and top padding.
pub open spec fn spec_narrow_offset(q: Quad, o: Offset) -> Offset {
    Offset {
        x: Unit(sat_add(o.x.0 as int, opt_len(q.left)) as i64),
        y: Unit(sat_add(o.y.0 as int, opt_len(q.top)) as i64),
    }
}

/// The offset moved outward past the left and top padding.
pub open spec fn spec_widen_offset(q: Quad, o: Offset) -> Offset {
    Offset {
        x: Unit(sat_sub(o.x.0 as int, opt_len(q.left)) as i64),
        y: Unit(sat_sub(o.y.0 as int, opt_len(q.top)) as i64),
    }
}

impl Quad {
    pub fn empty() -> (r: Self)
        ensures
            r == (Quad {
                top: Option::<Unit>::None,
                left: Option::<Unit>::None,
                bottom: Option::<Unit>::None,
                right: Option::<Unit>::None,
            }),
    {
        Quad { top: None, left: None, bottom: None, right: None }
    }

    /// Present-side-wins merge: the child's sides win over the parent's.
    pub fn merge(&self, parent: &Self) -> (r: Self)
        ensures
            r.top == (if self.top matches Option::Some(_) {
                self.top
            } else {
                parent.top
            }),
            r.left == (if self.left matches Option::Some(_) {
                self.left
            } else {
                parent.left
            }),
            r.bottom == (if self.bottom matches Option::Some(_) {
                self.bottom
            } else {
                parent.bottom
            }),
            r.right == (if self.right matches Option::Some(_) {
                self.right
            } else {
                parent.right
            }),
    {
        Quad {
            top: if self.top.is_some() {
                self.top
            } else {
                parent.top
            },
            left: if self.left.is_some() {
                self.left
            } else {
                parent.left
            },
            bottom: if self.bottom.is_some() {
                self.bottom
            } else {
                parent.bottom
            },
            right: if self.right.is_some() {
                self.right
            } else {
                parent.right
            },
        }
    }

    pub fn square(unit: Unit) -> (r: Self)
        ensures
            r == (Quad {
                top: Option::Some(unit),
                left: Option::Some(unit),
                bottom: Option::Some(unit),
                right: Option::Some(unit),
            }),
    {
        Quad { top: Some(unit), left: Some(unit), bottom: Some(unit), right: Some(unit) }
    }

    pub fn h_v(horizontal: Unit, vertical: Unit) -> (r: Self)
        ensures
            r == (Quad {
                top: Option::Some(vertical),
                left: Option::Some(horizontal),
                bottom: Option::Some(vertical),
                right: Option::Some(horizontal),
            }),
    {
        Quad {
            top: Some(vertical),
            left: Some(horizontal),
            bottom: Some(vertical),
            right: Some(horizontal),
        }
    }

    pub fn with_top(self, top: Unit) -> (r: Self)
        ensures
            r == (Quad { top: Option::Some(top), ..self }),
    {
        Quad { top: Some(top), ..self }
    }

    pub fn with_left(self, left: Unit) -> (r: Self)
        ensures
            r == (Quad { left: Option::Some(left), ..self }),
    {
        Quad { left: Some(left), ..self }
    }

    pub fn with_bottom(self, bottom: Unit) -> (r: Self)
        ensures
            r == (Quad { bottom: Option::Some(bottom), ..self }),
    {
        Quad { bottom: Some(bottom), ..self }
    }

    pub fn with_right(self, right: Unit) -> (r: Self)
        ensures
            r == (Quad { right: Option::Some(right), ..self }),
    {
        Quad { right: Some(right), ..self }
    }

    pub fn top(&self) -> (r: Option<Unit>)
        ensures
            r == self.top,
    {
        self.top
    }

    pub fn top_size(&self) -> (r: Unit)
        ensures
            r.0 == opt_len(self.top),
    {
        match self.top {
            Some(u) => u,
            None => Unit::zero(),
        }
    }

    pub fn left(&self) -> (r: Option<Unit>)
        ensures
            r == self.left,
    {
        self.left
    }

    pub fn left_size(&self) -> (r: Unit)
        ensures
            r.0 == opt_len(self.left),
    {
        match self.left {
            Some(u) => u,
            None => Unit::zero(),
        }
    }

    pub fn bottom(&self) -> (r: Option<Unit>)
        ensures
            r == self.bottom,
    {
        self.bottom
    }

    pub fn bottom_size(&self) -> (r: Unit)
        ensures
            r.0 == opt_len(self.bottom),
    {
        match self.bottom {
            Some(u) => u,
            None => Unit::zero(),
        }
    }

    pub fn right(&self) -> (r: Option<Unit>)
        ensures
            r == self.right,
    {
        self.right
    }

    pub fn right_size(&self) -> (r: Unit)
        ensures
            r.0 == opt_len(self.right),
    {
        match self.right {
            Some(u) => u,
            None => Unit::zero(),
        }
    }

    /// The combined left and right padding.
    pub fn width(&self) -> (r: Unit)
        ensures
            r.0 == spec_quad_width(*self),
    {
        self.left_size().add(self.right_size())
    }

    /// The combined top and bottom padding.
    pub fn height(&self) -> (r: Unit)
        ensures
            r.0 == spec_quad_height(*self),
    {
        self.top_size().add(self.bottom_size())
    }

    /// The given offset moved inward past the left and top padding.
    pub fn offset(&self, offset: &Offset) -> (r: Offset)
        ensures
            r == spec_narrow_offset(*self, *offset),
    {
        Offset::new(offset.x.add(self.left_size()), offset.y.add(self.top_size()))
    }

    /// Shrinks an offset and a size inward by this padding.
    pub fn narrow(&self, offset: &mut Offset, size: &mut Size)
        ensures
            *final(offset) == spec_narrow_offset(*self, *old(offset)),
            *final(size) == spec_narrow_size(*self, *old(size)),
    {
        self.narrow_offset(offset);
        self.narrow_size(size);
    }

    /// Shrinks an offset inward by the left and top padding.
    pub fn narrow_offset(&self, offset: &mut Offset)
        ensures
            *final(offset) == spec_narrow_offset(*self, *old(offset)),
    {
        offset.x_advance(self.left_size());
        offset.y_advance(self.top_size());
    }

    /// Shrinks a size inward by this padding; unresolved bases are left
    /// alone, and a known depth moves up past the bottom padding.
    pub fn narrow_size(&self, size: &mut Size)
        ensures
            *final(size) == spec_narrow_size(*self, *old(size)),
    {
        if size.x_dim().is_resolved() {
            let mut width = *size.width_ref();
            width.set_size(size.width().sub(self.width()));
            size.set_width(width);
        }
        if size.y_dim().is_resolved() {
            let mut height = *size.height_ref();
            height.set_size(size.height().sub(self.height()));
            size.set_height(height);

            if let Some(depth) = size.depth {
                size.depth = Some(depth.sub(self.bottom_size()));
            }
        }
    }

    /// Grows an offset and a size outward by this padding.
    pub fn widen(&self, offset: &mut Offset, size: &mut Size)
        ensures
            *final(offset) == spec_widen_offset(*self, *old(offset)),
            *final(size) == spec_widen_size(*self, *old(size)),
    {
        self.widen_offset(offset);
        self.widen_size(size);
    }

    /// Grows an offset outward by the left and top padding.
    pub fn widen_offset(&self, offset: &mut Offset)
        ensures
            *final(offset) == spec_widen_offset(*self, *old(offset)),
    {
        offset.x = offset.x.sub(self.left_size());
        offset.y = offset.y.sub(self.top_size());
    }

    /// Grows a size outward by this padding; unresolved bases are left
    /// alone, and a known depth moves down past the bottom padding.
    pub fn widen_size(&self, size: &mut Size)
        ensures
            *final(size) == spec_widen_size(*self, *old(size)),
    {
        if size.x_dim().is_resolved() {
            let mut width = *size.width_ref();
            width.set_size(size.width().add(self.width()));
            size.set_width(width);
        }
        if size.y_dim().is_resolved() {
            let mut height = *size.height_ref();
            height.set_size(size.height().add(self.height()));
            size.set_height(height);

            if let Some(depth) = size.depth {
                size.depth = Some(depth.add(self.bottom_size()));
            }
        }
    }
}

/// Padding round-trip: narrowing undoes widening on any size whose bases
/// are resolved and unbounded, as long as no step saturates.
pub proof fn lemma_narrow_widen_roundtrip(q: Quad, s: Size)
    requires
        spec_dim_size(s.width.base) matches Option::Some(_),
        spec_dim_size(s.height.base) matches Option::Some(_),
        s.width.min matches MaybeDim::Unset,
        s.width.max matches MaybeDim::Unset,
        s.height.min matches MaybeDim::Unset,
        s.height.max matches MaybeDim::Unset,
        i64::MIN <= opt_len(q.left) + opt_len(q.right) <= i64::MAX,
        i64::MIN <= opt_len(q.top) + opt_len(q.bottom) <= i64::MAX,
        i64::MIN <= spec_base_size(s.width).0 + spec_quad_width(q) <= i64::MAX,
        i64::MIN <= spec_base_size(s.height).0 + spec_quad_height(q) <= i64::MAX,
        (match s.depth {
            Option::Some(d) => i64::MIN <= d.0 + opt_len(q.bottom) <= i64::MAX,
            Option::None => true,
        }),
    ensures
        spec_narrow_size(q, spec_widen_size(q, s)) == s,
{
}

} // verus!
