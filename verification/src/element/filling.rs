//! The stretchable filler: a zero-size node carrying a grow or shrink
//! weight; after lay-out it records the room it received as its content
//! size, and it renders nothing.

use vstd::prelude::*;

use crate::axis::Axis;
use crate::dimension::Dim;
use crate::element::FillingView;
use crate::position::{Offset, Size};
use crate::style::Style;
use crate::unit::{Fill, Unit};

verus! {

#[derive(Debug)]
pub struct Filling {
    pub axis: Axis,
    pub offset: Offset,
    pub size: Size,
    pub style: Style,
    pub content_size: Option<Size>,
}

impl View for Filling {
    type V = FillingView;

    open spec fn view(&self) -> FillingView {
        FillingView {
            axis: self.axis,
            offset: self.offset,
            size: self.size,
            style: self.style,
            content_size: self.content_size,
        }
    }
}

/// A fresh filler on the given axis.
pub open spec fn spec_new_filling(axis: Axis) -> FillingView {
    FillingView {
        axis,
        offset: Offset { x: Unit(0), y: Unit(0) },
        size: Size {
            width: crate::dimension::spec_flex_fixed(Unit(0)),
            height: crate::dimension::spec_flex_fixed(Unit(0)),
            depth: Option::None,
        },
        style: crate::style::spec_style_unset(),
        content_size: Option::<Size>::None,
    }
}

impl Filling {
    pub fn new(axis: Axis) -> (r: Self)
        ensures
            r@ == spec_new_filling(axis),
    {
        Filling {
            axis,
            offset: Offset::zero(),
            size: Size::zero(),
            style: Style::new(),
            content_size: None,
        }
    }

    /// Sets the basis of the main-axis dimension.
    pub fn size(self, size: Dim) -> (r: Self)
        ensures
            r@ == (FillingView {
                size: crate::axis::spec_with_dim(
                    self.axis,
                    self@.size,
                    crate::dimension::FlexDim {
                        base: crate::dimension::spec_clamp_base(
                            size,
                            crate::axis::spec_dim_of(self.axis, self@.size).min,
                            crate::axis::spec_dim_of(self.axis, self@.size).max,
                        ),
                        ..crate::axis::spec_dim_of(self.axis, self@.size)
                    },
                ),
                ..self@
            }),
    {
        let mut f = self;
        f.axis.dim_mut(&mut f.size).set_base(size);
        f
    }

    pub fn grow(self, weight: Fill) -> (r: Self)
        ensures
            r@ == (FillingView {
                size: crate::axis::spec_with_dim(
                    self.axis,
                    self@.size,
                    crate::dimension::FlexDim {
                        grow: Option::Some(weight),
                        ..crate::axis::spec_dim_of(self.axis, self@.size)
                    },
                ),
                ..self@
            }),
    {
        let mut f = self;
        f.axis.dim_mut(&mut f.size).set_grow(weight);
        f
    }

    pub fn shrink(self, weight: Fill) -> (r: Self)
        ensures
            r@ == (FillingView {
                size: crate::axis::spec_with_dim(
                    self.axis,
                    self@.size,
                    crate::dimension::FlexDim {
                        shrink: Option::Some(weight),
                        ..crate::axis::spec_dim_of(self.axis, self@.size)
                    },
                ),
                ..self@
            }),
    {
        let mut f = self;
        f.axis.dim_mut(&mut f.size).set_shrink(weight);
        f
    }

    pub fn content_size(&self) -> (r: Option<Size>)
        ensures
            r == self.content_size,
    {
        self.content_size
    }
}

} // verus!
