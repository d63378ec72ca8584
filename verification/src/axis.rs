//! The axis adapter: projects two-dimensional operations onto a chosen
//! main axis, so that the packing and layout algorithms can be written
//! once for horizontal and vertical boxes alike.

use vstd::prelude::*;

use crate::dimension::{Dim, FlexDim, spec_base_size, spec_clamp_base, spec_flex_add_len,
    spec_size_filled};
use crate::position::{Offset, Size, spec_x_extend, spec_y_extend};
use crate::unit::{Unit, sat_add};

verus! {

#[derive(Debug, Clone, Copy, PartialEq, Eq, Structural)]
pub enum Axis {
    Horizontal,
    Vertical,
}

/// The perpendicular axis.
pub open spec fn spec_cross(a: Axis) -> Axis {
    match a {
        Axis::Horizontal => Axis::Vertical,
        Axis::Vertical => Axis::Horizontal,
    }
}

/// The sizing record of a size along the given axis.
pub open spec fn spec_dim_of(a: Axis, s: Size) -> FlexDim {
    match a {
        Axis::Horizontal => s.width,
        Axis::Vertical => s.height,
    }
}

/// The size with its record along the given axis replaced.
pub open spec fn spec_with_dim(a: Axis, s: Size, f: FlexDim) -> Size {
    match a {
        Axis::Horizontal => Size { width: f, ..s },
        Axis::Vertical => Size { height: f, ..s },
    }
}

/// The concrete extent of a size along the given axis (zero while the
/// basis is unresolved).
pub open spec fn spec_axis_size(a: Axis, s: Size) -> Unit {
    spec_base_size(spec_dim_of(a, s))
}

/// The coordinate of an offset along the given axis.
pub open spec fn spec_axis_offset(a: Axis, o: Offset) -> Unit {
    match a {
        Axis::Horizontal => o.x,
        Axis::Vertical => o.y,
    }
}

/// The offset with its coordinate along the given axis replaced.
pub open spec fn spec_with_offset(a: Axis, o: Offset, v: Unit) -> Offset {
    match a {
        Axis::Horizontal => Offset { x: v, ..o },
        Axis::Vertical => Offset { y: v, ..o },
    }
}

/// The offset advanced by `amount` along the given axis (saturating).
pub open spec fn spec_advance(a: Axis, o: Offset, amount: Unit) -> Offset {
    spec_with_offset(
        a,
        o,
        Unit(sat_add(spec_axis_offset(a, o).0 as int, amount.0 as int) as i64),
    )
}

/// The size whose basis along the axis has grown by `amount`.
pub open spec fn spec_extend_dim(a: Axis, s: Size, amount: Unit) -> Size {
    spec_with_dim(a, s, spec_flex_add_len(spec_dim_of(a, s), amount))
}

/// The size extended by another along the given axis, under the axis's
/// own extension rules.
pub open spec fn spec_extend_size(a: Axis, s: Size, amount: Size, respect_baseline: bool) -> Size {
    match a {
        Axis::Horizontal => spec_x_extend(s, amount, respect_baseline),
        Axis::Vertical => spec_y_extend(s, amount, respect_baseline),
    }
}

/// What resolving a content size writes along the axis: the inner extent
/// for a content-fixed dimension, else the filled extent under the outer
/// room.
pub open spec fn spec_resolve_content_size(a: Axis, s: Size, inner: Size, outer_room: Unit) -> Size {
    let dim = spec_dim_of(a, s);
    let v = if (dim.base matches Dim::Content(_)) && (dim.grow matches Option::None)
        && (dim.shrink matches Option::None) {
        spec_axis_size(a, inner)
    } else {
        spec_size_filled(dim, outer_room)
    };
    spec_with_dim(
        a,
        s,
        FlexDim { base: spec_clamp_base(Dim::Fixed(v), dim.min, dim.max), ..dim },
    )
}

impl Axis {
    /// The perpendicular axis.
    pub fn cross(&self) -> (r: Self)
        ensures
            r == spec_cross(*self),
    {
        match self {
            Axis::Horizontal => Axis::Vertical,
            Axis::Vertical => Axis::Horizontal,
        }
    }

    /// Picks the value that belongs to this axis.
    pub fn select(&self, horizontal: Unit, vertical: Unit) -> (r: Unit)
        ensures
            r == (match self {
                Axis::Horizontal => horizontal,
                Axis::Vertical => vertical,
            }),
    {
        match self {
            Axis::Horizontal => horizontal,
            Axis::Vertical => vertical,
        }
    }

    pub fn offset(&self, offset: &Offset) -> (r: Unit)
        ensures
            r == spec_axis_offset(*self, *offset),
    {
        match self {
            Axis::Horizontal => offset.x,
            Axis::Vertical => offset.y,
        }
    }

    pub fn set_offset(&self, offset: &mut Offset, value: Unit)
        ensures
            *final(offset) == spec_with_offset(*self, *old(offset), value),
    {
        match self {
            Axis::Horizontal => offset.x = value,
            Axis::Vertical => offset.y = value,
        }
    }

    /// A copy of the offset advanced along this axis.
    pub fn advance_dim(&self, offset: &Offset, amount: Unit) -> (r: Offset)
        ensures
            r == spec_advance(*self, *offset, amount),
    {
        let mut offset = *offset;
        match self {
            Axis::Horizontal => offset.x_advance(amount),
            Axis::Vertical => offset.y_advance(amount),
        }
        offset
    }

    pub fn dim<'s>(&self, size: &'s Size) -> (r: &'s FlexDim)
        ensures
            *r == spec_dim_of(*self, *size),
    {
        match self {
            Axis::Horizontal => &size.width,
            Axis::Vertical => &size.height,
        }
    }

    pub fn dim_mut<'s>(&self, size: &'s mut Size) -> (r: &'s mut FlexDim)
        ensures
            *r == spec_dim_of(*self, *old(size)),
            *final(size) == spec_with_dim(*self, *old(size), *final(r)),
    {
        match self {
            Axis::Horizontal => &mut size.width,
            Axis::Vertical => &mut size.height,
        }
    }

    pub fn base_size(&self, size: &Size) -> (r: Unit)
        ensures
            r == spec_axis_size(*self, *size),
    {
        match self {
            Axis::Horizontal => size.width(),
            Axis::Vertical => size.height(),
        }
    }

    /// A copy of the size whose basis along this axis has grown.
    pub fn extend_dim(&self, size: &Size, amount: Unit) -> (r: Size)
        ensures
            r == spec_extend_dim(*self, *size, amount),
    {
        let mut size = *size;
        let d = self.dim_mut(&mut size);
        *d = d.add_len(amount);
        size
    }

    /// A copy of the size extended by `amount` along this axis.
    pub fn extend_size(&self, size: &Size, amount: &Size, respect_baseline: bool) -> (r: Size)
        ensures
            r == spec_extend_size(*self, *size, *amount, respect_baseline),
    {
        let mut size = *size;
        match self {
            Axis::Horizontal => size.x_extend(amount, respect_baseline),
            Axis::Vertical => size.y_extend(amount, respect_baseline),
        }
        size
    }

    /// Writes the basis along this axis: a content-fixed dimension takes
    /// the inner extent, any other its filled extent under `outer_room`.
    pub fn resolve_content_size(&self, size: &mut Size, inner_size: &Size, outer_room: Unit)
        ensures
            *final(size) == spec_resolve_content_size(*self, *old(size), *inner_size, outer_room),
    {
        let v = if self.dim(size).is_content_fixed() {
            self.base_size(inner_size)
        } else {
            self.dim(size).size_filled(outer_room)
        };
        let d = self.dim_mut(size);
        d.set_base(Dim::Fixed(v));
    }
}

} // verus!
