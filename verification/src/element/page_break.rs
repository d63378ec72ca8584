//! The forced page break: a marker with infinite height, so a vertical
//! flow always breaks at its position; during rendering it asks the sink
//! for a new page.

use vstd::prelude::*;

use crate::element::PageBreakView;
use crate::position::{Offset, Size};
use crate::style::Style;
use crate::unit::Unit;

verus! {

#[derive(Debug)]
pub struct PageBreak {
    pub offset: Offset,
    pub size: Size,
    pub style: Style,
}

impl View for PageBreak {
    type V = PageBreakView;

    open spec fn view(&self) -> PageBreakView {
        PageBreakView { offset: self.offset, size: self.size, style: self.style }
    }
}

/// A fresh page break marker.
pub open spec fn spec_new_page_break() -> PageBreakView {
    PageBreakView {
        offset: Offset { x: Unit(0), y: Unit(0) },
        size: Size {
            width: crate::dimension::spec_flex_fixed(Unit(0)),
            height: crate::dimension::spec_flex_fixed(Unit(i64::MAX)),
            depth: Option::None,
        },
        style: crate::style::spec_style_unset(),
    }
}

impl PageBreak {
    pub fn new() -> (r: Self)
        ensures
            r@ == spec_new_page_break(),
            r@ == (PageBreakView {
                offset: Offset { x: Unit(0), y: Unit(0) },
                size: Size {
                    width: crate::dimension::spec_flex_fixed(Unit(0)),
                    height: crate::dimension::spec_flex_fixed(Unit(i64::MAX)),
                    depth: Option::None,
                },
                style: crate::style::spec_style_unset(),
            }),
    {
        PageBreak {
            offset: Offset::zero(),
            size: Size::fixed(Unit::zero(), Unit::infinity()),
            style: Style::new(),
        }
    }
}

} // verus!
