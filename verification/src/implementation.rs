//! Convenience constructors for the node kinds, named by orientation.

use vstd::prelude::*;

use crate::axis::Axis;
use crate::dimension::Dim;
use crate::element::{BlockBox, Filling, LayoutBox, Node, NodeView, PageBreak, Text, Wrap};
use crate::unit::Fill;

verus! {

/// An absolute-positioned container.
pub fn bbox() -> (r: BlockBox)
    ensures
        r@ == crate::element::blockbox::spec_new_block(),
{
    BlockBox::new()
}

/// A horizontal flowing container.
pub fn hbox() -> (r: LayoutBox)
    ensures
        r@ == crate::element::layoutbox::spec_new_box(Axis::Horizontal),
        r.axis == Axis::Horizontal,
{
    LayoutBox::new(Axis::Horizontal)
}

/// A horizontal filler.
pub fn hfilling() -> (r: Filling)
    ensures
        r@ == crate::element::filling::spec_new_filling(Axis::Horizontal),
        r.axis == Axis::Horizontal,
{
    Filling::new(Axis::Horizontal)
}

/// A horizontal filler with a grow weight.
pub fn hfill(weight: Fill) -> (r: Filling)
    ensures
        r@ == (crate::element::FillingView {
            size: crate::axis::spec_with_dim(
                Axis::Horizontal,
                crate::element::filling::spec_new_filling(Axis::Horizontal).size,
                crate::dimension::FlexDim {
                    grow: Option::Some(weight),
                    ..crate::axis::spec_dim_of(
                        Axis::Horizontal,
                        crate::element::filling::spec_new_filling(Axis::Horizontal).size,
                    )
                },
            ),
            ..crate::element::filling::spec_new_filling(Axis::Horizontal)
        }),
{
    hfilling().grow(weight)
}

/// A horizontal filler with a fixed extent.
pub fn hspace(size: Dim) -> (r: Filling)
    ensures
        r@ == (crate::element::FillingView {
            size: crate::axis::spec_with_dim(
                Axis::Horizontal,
                crate::element::filling::spec_new_filling(Axis::Horizontal).size,
                crate::dimension::FlexDim {
                    base: crate::dimension::spec_clamp_base(
                        size,
                        crate::dimension::MaybeDim::Unset,
                        crate::dimension::MaybeDim::Unset,
                    ),
                    ..crate::axis::spec_dim_of(
                        Axis::Horizontal,
                        crate::element::filling::spec_new_filling(Axis::Horizontal).size,
                    )
                },
            ),
            ..crate::element::filling::spec_new_filling(Axis::Horizontal)
        }),
{
    hfilling().size(size)
}

/// A forced line break in a horizontal flow.
pub fn hwrap() -> (r: Wrap)
    ensures
        r@ == crate::element::wrap::spec_new_wrap(Axis::Horizontal),
{
    Wrap::new(Axis::Horizontal)
}

/// A vertical flowing container.
pub fn vbox() -> (r: LayoutBox)
    ensures
        r@ == crate::element::layoutbox::spec_new_box(Axis::Vertical),
        r.axis == Axis::Vertical,
{
    LayoutBox::new(Axis::Vertical)
}

/// A vertical filler.
pub fn vfilling() -> (r: Filling)
    ensures
        r@ == crate::element::filling::spec_new_filling(Axis::Vertical),
        r.axis == Axis::Vertical,
{
    Filling::new(Axis::Vertical)
}

/// A vertical filler with a grow weight.
pub fn vfill(weight: Fill) -> (r: Filling)
    ensures
        r@ == (crate::element::FillingView {
            size: crate::axis::spec_with_dim(
                Axis::Vertical,
                crate::element::filling::spec_new_filling(Axis::Vertical).size,
                crate::dimension::FlexDim {
                    grow: Option::Some(weight),
                    ..crate::axis::spec_dim_of(
                        Axis::Vertical,
                        crate::element::filling::spec_new_filling(Axis::Vertical).size,
                    )
                },
            ),
            ..crate::element::filling::spec_new_filling(Axis::Vertical)
        }),
{
    vfilling().grow(weight)
}

/// A vertical filler with a fixed extent.
pub fn vspace(size: Dim) -> (r: Filling)
    ensures
        r@ == (crate::element::FillingView {
            size: crate::axis::spec_with_dim(
                Axis::Vertical,
                crate::element::filling::spec_new_filling(Axis::Vertical).size,
                crate::dimension::FlexDim {
                    base: crate::dimension::spec_clamp_base(
                        size,
                        crate::dimension::MaybeDim::Unset,
                        crate::dimension::MaybeDim::Unset,
                    ),
                    ..crate::axis::spec_dim_of(
                        Axis::Vertical,
                        crate::element::filling::spec_new_filling(Axis::Vertical).size,
                    )
                },
            ),
            ..crate::element::filling::spec_new_filling(Axis::Vertical)
        }),
{
    vfilling().size(size)
}

/// A forced line break in a vertical flow.
pub fn vwrap() -> (r: Wrap)
    ensures
        r@ == crate::element::wrap::spec_new_wrap(Axis::Vertical),
{
    Wrap::new(Axis::Vertical)
}

/// A forced page break.
pub fn vbreak() -> (r: PageBreak)
    ensures
        r@ == crate::element::page_break::spec_new_page_break(),
{
    PageBreak::new()
}

/// A text leaf.
pub fn text(content: String) -> (r: Text)
    ensures
        NodeView::Text(r@) == crate::element::text::spec_new_text(content@),
{
    Text::new(content)
}

} // verus!
