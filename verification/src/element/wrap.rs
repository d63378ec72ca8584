//! The forced line break: a marker whose native size is infinite along
//! its axis, so the packing step always closes the current line at its
//! position; it contributes no visible geometry.

use vstd::prelude::*;

use crate::axis::Axis;
use crate::element::WrapView;
use crate::position::{Offset, Size};
use crate::style::Style;
use crate::unit::Unit;

verus! {

#[derive(Debug)]
pub struct Wrap {
    pub axis: Axis,
    pub offset: Offset,
    pub size: Size,
    pub style: Style,
}

impl View for Wrap {
    type V = WrapView;

    open spec fn view(&self) -> WrapView {
        WrapView { axis: self.axis, offset: self.offset, size: self.size, style: self.style }
    }
}

/// A fresh break marker on the given axis.
pub open spec fn spec_new_wrap(axis: Axis) -> WrapView {
    WrapView {
        axis,
        offset: Offset { x: Unit(0), y: Unit(0) },
        size: (match axis {
            Axis::Horizontal => Size {
                width: crate::dimension::spec_flex_fixed(Unit(i64::MAX)),
                height: crate::dimension::spec_flex_fixed(Unit(0)),
                depth: Option::None,
            },
            Axis::Vertical => Size {
                width: crate::dimension::spec_flex_fixed(Unit(0)),
                height: crate::dimension::spec_flex_fixed(Unit(i64::MAX)),
                depth: Option::None,
            },
        }),
        style: crate::style::spec_style_unset(),
    }
}

impl Wrap {
    pub fn new(axis: Axis) -> (r: Self)
        ensures
            r@ == spec_new_wrap(axis),
            r@ == (WrapView {
                axis,
                offset: Offset { x: Unit(0), y: Unit(0) },
                size: (match axis {
                    Axis::Horizontal => Size {
                        width: crate::dimension::spec_flex_fixed(Unit(i64::MAX)),
                        height: crate::dimension::spec_flex_fixed(Unit(0)),
                        depth: Option::None,
                    },
                    Axis::Vertical => Size {
                        width: crate::dimension::spec_flex_fixed(Unit(0)),
                        height: crate::dimension::spec_flex_fixed(Unit(i64::MAX)),
                        depth: Option::None,
                    },
                }),
                style: crate::style::spec_style_unset(),
            }),
    {
        Wrap {
            axis,
            offset: Offset::zero(),
            size: match axis {
                Axis::Horizontal => Size::fixed(Unit::infinity(), Unit::zero()),
                Axis::Vertical => Size::fixed(Unit::zero(), Unit::infinity()),
            },
            style: Style::new(),
        }
    }
}

} // verus!
