//! The text leaf.  It owns its input string and, once the typesetting
//! collaborator has shaped it, the shaped extent in page units; measuring
//! adopts that extent as a fixed size with a baseline depth.

use vstd::prelude::*;

use crate::element::{NodeView, TextView};
use crate::font::TextExtent;
use crate::position::{Offset, Size};
use crate::style::Style;
use crate::unit::Unit;

verus! {

#[derive(Debug)]
pub struct Text {
    pub offset: Offset,
    pub size: Size,
    pub style: Style,
    pub content: String,
    pub shape: Option<TextExtent>,
}

impl View for Text {
    type V = TextView;

    open spec fn view(&self) -> TextView {
        TextView {
            offset: self.offset,
            size: self.size,
            style: self.style,
            content: self.content@,
            shape: self.shape,
        }
    }
}

/// A fresh text leaf holding the given characters.
pub open spec fn spec_new_text(content: Seq<char>) -> NodeView {
    NodeView::Text(
        TextView {
            offset: Offset { x: Unit(0), y: Unit(0) },
            size: crate::element::spec_size_none(),
            style: crate::style::spec_style_unset(),
            content,
            shape: Option::None,
        },
    )
}

impl Text {
    pub fn new(content: String) -> (r: Self)
        ensures
            NodeView::Text(r@) == spec_new_text(content@),
    {
        Text {
            offset: Offset::zero(),
            size: Size::content(),
            style: Style::new(),
            content,
            shape: None,
        }
    }

    /// Stores the shaped extent that the typesetting collaborator
    /// computed for this leaf under its effective style.
    pub fn set_shape(&mut self, shape: TextExtent)
        ensures
            final(self)@ == (TextView { shape: Option::Some(shape), ..old(self)@ }),
    {
        self.shape = Some(shape);
    }
}


/// What measuring a text leaf yields: a shaped leaf adopts its extent as
/// a fixed size with a baseline depth; an unshaped leaf is unchanged.
pub open spec fn spec_measure_text(t: TextView) -> TextView {
    match t.shape {
        Option::Some(e) => TextView {
            size: Size {
                width: crate::dimension::spec_flex_fixed(e.width),
                height: crate::dimension::spec_flex_fixed(e.height),
                depth: Option::Some(e.depth),
            },
            ..t
        },
        Option::None => t,
    }
}

impl Text {
    /// Adopts the shaped extent, if any, as this leaf's fixed size.
    pub fn measure(self) -> (r: Self)
        ensures
            r@ == spec_measure_text(self@),
    {
        match self.shape {
            Some(e) => {
                let mut t = self;
                t.size = Size::fixed_depth(e.width, e.height, e.depth);
                t
            },
            None => self,
        }
    }
}

} // verus!
