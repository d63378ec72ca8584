//! The absolute-positioned container: its children do not flow; each
//! carries its own offset, and lay-out only translates those offsets by
//! the block's own position.

use vstd::prelude::*;

use crate::axis::Axis;
use crate::dimension::{Dim, MaybeDim};
use crate::element::{
    BlockView, Node, NodeView, lemma_nodes_view_push, nodes_view, spec_set_style, spec_stamp_style,
    spec_style_of,
};
use crate::position::{Offset, Size};
use crate::style::{Style, spec_apply_style, spec_style_inherit};
use crate::unit::{Fill, Unit};

verus! {

#[derive(Debug)]
pub struct BlockBox {
    pub offset: Offset,
    pub size: Size,
    pub style: Style,
    pub children: Vec<Node>,
}

impl View for BlockBox {
    type V = BlockView;

    open spec fn view(&self) -> BlockView
        decreases self,
    {
        BlockView {
            offset: self.offset,
            size: self.size,
            style: self.style,
            children: nodes_view(self.children@),
        }
    }
}

/// A fresh absolute-positioned container.
pub open spec fn spec_new_block() -> BlockView {
    BlockView {
        offset: Offset { x: Unit(0), y: Unit(0) },
        size: crate::element::spec_size_none(),
        style: crate::style::spec_style_unset(),
        children: Seq::<NodeView>::empty(),
    }
}

impl BlockBox {
    pub fn new() -> (r: Self)
        ensures
            r@ == spec_new_block(),
            r@ == (BlockView {
                offset: Offset { x: Unit(0), y: Unit(0) },
                size: crate::element::spec_size_none(),
                style: crate::style::spec_style_unset(),
                children: Seq::<NodeView>::empty(),
            }),
    {
        let b = BlockBox {
            offset: Offset::zero(),
            size: Size::content(),
            style: Style::new(),
            children: Vec::new(),
        };
        proof {
            assert(nodes_view(b.children@) =~= Seq::<NodeView>::empty());
        }
        b
    }

    /// Sets the basis of the horizontal dimension.
    pub fn axis_size(self, size: Dim) -> (r: Self)
        ensures
            r@ == (BlockView {
                size: (Size {
                    width: crate::dimension::FlexDim {
                        base: crate::dimension::spec_clamp_base(
                            size,
                            self@.size.width.min,
                            self@.size.width.max,
                        ),
                        ..self@.size.width
                    },
                    ..self@.size
                }),
                ..self@
            }),
    {
        let mut b = self;
        b.size.width.set_base(size);
        b
    }

    pub fn axis_min(self, size: MaybeDim) -> (r: Self)
        ensures
            r@ == (BlockView {
                size: (Size {
                    width: crate::dimension::spec_with_min(self@.size.width, size),
                    ..self@.size
                }),
                ..self@
            }),
    {
        let mut b = self;
        b.size.width.set_min(size);
        b
    }

    pub fn axis_max(self, size: MaybeDim) -> (r: Self)
        ensures
            r@ == (BlockView {
                size: (Size {
                    width: crate::dimension::spec_with_max(self@.size.width, size),
                    ..self@.size
                }),
                ..self@
            }),
    {
        let mut b = self;
        b.size.width.set_max(size);
        b
    }

    pub fn axis_grow(self, weight: Fill) -> (r: Self)
        ensures
            r@ == (BlockView {
                size: (Size {
                    width: crate::dimension::FlexDim {
                        grow: Option::Some(weight),
                        ..self@.size.width
                    },
                    ..self@.size
                }),
                ..self@
            }),
    {
        let mut b = self;
        b.size.width.set_grow(weight);
        b
    }

    pub fn axis_shrink(self, weight: Fill) -> (r: Self)
        ensures
            r@ == (BlockView {
                size: (Size {
                    width: crate::dimension::FlexDim {
                        shrink: Option::Some(weight),
                        ..self@.size.width
                    },
                    ..self@.size
                }),
                ..self@
            }),
    {
        let mut b = self;
        b.size.width.set_shrink(weight);
        b
    }

    /// Sets the baseline depth of this block.
    pub fn axis_depth(self, depth: Unit) -> (r: Self)
        ensures
            r@ == (BlockView {
                size: (Size { depth: Option::Some(depth), ..self@.size }),
                ..self@
            }),
    {
        let mut b = self;
        b.size.set_depth(Some(depth));
        b
    }

    pub fn cross_size(self, size: Dim) -> (r: Self)
        ensures
            r@ == (BlockView {
                size: (Size {
                    height: crate::dimension::FlexDim {
                        base: crate::dimension::spec_clamp_base(
                            size,
                            self@.size.height.min,
                            self@.size.height.max,
                        ),
                        ..self@.size.height
                    },
                    ..self@.size
                }),
                ..self@
            }),
    {
        let mut b = self;
        b.size.height.set_base(size);
        b
    }

    pub fn cross_min(self, size: MaybeDim) -> (r: Self)
        ensures
            r@ == (BlockView {
                size: (Size {
                    height: crate::dimension::spec_with_min(self@.size.height, size),
                    ..self@.size
                }),
                ..self@
            }),
    {
        let mut b = self;
        b.size.height.set_min(size);
        b
    }

    pub fn cross_max(self, size: MaybeDim) -> (r: Self)
        ensures
            r@ == (BlockView {
                size: (Size {
                    height: crate::dimension::spec_with_max(self@.size.height, size),
                    ..self@.size
                }),
                ..self@
            }),
    {
        let mut b = self;
        b.size.height.set_max(size);
        b
    }

    pub fn cross_grow(self, weight: Fill) -> (r: Self)
        ensures
            r@ == (BlockView {
                size: (Size {
                    height: crate::dimension::FlexDim {
                        grow: Option::Some(weight),
                        ..self@.size.height
                    },
                    ..self@.size
                }),
                ..self@
            }),
    {
        let mut b = self;
        b.size.height.set_grow(weight);
        b
    }

    pub fn cross_shrink(self, weight: Fill) -> (r: Self)
        ensures
            r@ == (BlockView {
                size: (Size {
                    height: crate::dimension::FlexDim {
                        shrink: Option::Some(weight),
                        ..self@.size.height
                    },
                    ..self@.size
                }),
                ..self@
            }),
    {
        let mut b = self;
        b.size.height.set_shrink(weight);
        b
    }

    /// Adopts a style: the block stamps the size policy and stores the
    /// style; its children keep theirs (they do not flow).
    pub fn style(self, style: Style) -> (r: Self)
        ensures
            r@ == (BlockView {
                size: spec_apply_style(self@.size, Axis::Horizontal, style),
                style,
                ..self@
            }),
    {
        let mut b = self;
        b.size.apply_style(Axis::Horizontal, &style);
        b.style = style;
        b
    }

    /// Stacks a style on top of the current one and adopts the result.
    pub fn add_style(self, style: Style) -> (r: Self)
        ensures
            ({
                let merged = crate::style::spec_style_merge(style, self@.style);
                r@ == (BlockView {
                    size: spec_apply_style(self@.size, Axis::Horizontal, merged),
                    style: merged,
                    ..self@
                })
            }),
    {
        let merged = style.merge(&self.style);
        self.style(merged)
    }

    /// Adds a child: the child's size policy is stamped horizontally
    /// under its cascaded style, and the child adopts that style.
    pub fn child(self, child: Node) -> (r: Self)
        ensures
            ({
                let inherited = spec_style_inherit(spec_style_of(child@), self@.style);
                r@ == (BlockView {
                    children: self@.children.push(
                        spec_set_style(spec_stamp_style(child@, Axis::Horizontal, inherited), inherited),
                    ),
                    ..self@
                })
            }),
    {
        let mut b = self;
        let inherited = child.style_ref().inherit(&b.style);
        let stamped = child.stamp_style(Axis::Horizontal, &inherited);
        let adopted = stamped.set_style(inherited);
        proof {
            lemma_nodes_view_push(b.children@, adopted);
        }
        b.children.push(adopted);
        b
    }
}


/// What measuring an absolute container yields: parent-relative bases
/// resolve against the room, children are measured under the padded
/// room, and under baseline rules a missing depth is taken from the
/// first child's ascent.
pub open spec fn spec_measure_block(b: BlockView, room: Size) -> BlockView
    decreases crate::element::nodes_height(b.children), 2nat, 0nat,
{
    let size1 = Size {
        width: crate::dimension::spec_resolve_parented(
            b.size.width,
            crate::axis::spec_axis_size(Axis::Horizontal, room),
        ),
        ..b.size
    };
    let size2 = Size {
        height: crate::dimension::spec_resolve_parented(
            size1.height,
            crate::axis::spec_axis_size(Axis::Vertical, room),
        ),
        ..size1
    };
    let narrowed_room = crate::position::spec_narrow_size(b.style.padding, room);
    let measured = crate::element::spec_measure_children(b.children, narrowed_room);
    let ascent = if b.children.len() == 0 {
        crate::position::spec_ascent(size2)
    } else {
        crate::position::spec_ascent(crate::element::spec_size_after_wrap(measured[0]))
    };
    let baseline = (crate::style::spec_align_items(b.style) matches
        crate::style::AlignItems::Baseline);
    let size3 = if baseline && (size2.depth matches Option::None) {
        Size {
            depth: match ascent {
                Option::Some(a) => Option::Some(
                    Unit(
                        crate::unit::sat_sub(
                            crate::dimension::spec_base_size(size2.height).0 as int,
                            a.0 as int,
                        ) as i64,
                    ),
                ),
                Option::None => Option::None,
            },
            ..size2
        }
    } else {
        size2
    };
    BlockView {
        size: size3,
        children: if b.children.len() == 0 {
            b.children
        } else {
            measured
        },
        ..b
    }
}

impl BlockBox {
    /// The measure walk on an absolute container.
    pub fn measure(self, room: &Size) -> (r: Self)
        ensures
            r@ == spec_measure_block(self@, *room),
        decreases crate::element::nodes_height(self@.children), 1nat,
    {
        let ghost b0 = self@;
        let BlockBox { offset, mut size, style, children } = self;
        proof {
            assert(b0.children == nodes_view(children@));
            crate::element::lemma_nodes_view_len(children@);
        }
        let axis_room = Axis::Horizontal.base_size(room);
        size.width.resolve_parented(axis_room);
        let cross_room = Axis::Vertical.base_size(room);
        size.height.resolve_parented(cross_room);

        let new_children: Vec<Node>;
        let ascent: Option<Unit>;
        if children.len() == 0 {
            ascent = size.ascent();
            new_children = children;
        } else {
            let mut narrowed_room = *room;
            style.padding().narrow_size(&mut narrowed_room);
            let measured = crate::element::measure_children(children, &narrowed_room);
            proof {
                crate::element::lemma_nodes_view_len(measured@);
                assert(nodes_view(measured@)[0] == measured@[0]@) by {
                    crate::element::lemma_nodes_view_index(measured@, 0);
                }
            }
            ascent = measured[0].size_after_wrap().ascent();
            new_children = measured;
        }

        let respect_baseline = matches!(style.align_items(), crate::style::AlignItems::Baseline);
        if respect_baseline && size.depth().is_none() {
            let d = match ascent {
                Some(a) => Some(size.height().sub(a)),
                None => None,
            };
            size.set_depth(d);
        }
        BlockBox { offset, size, style, children: new_children }
    }
}


/// What laying out an absolute container yields: padding narrows the
/// offset, baselines may shift the block downward, each child is laid
/// out at its own offset translated by the block's, and under baseline
/// rules a missing depth is taken from the first child's ascent.
pub open spec fn spec_lay_out_block(b: BlockView, position0: Offset, room0: Size) -> BlockView
    decreases crate::element::nodes_height(b.children), 4nat, 0nat,
{
    let padding = b.style.padding;
    let offset = crate::position::spec_narrow_offset(padding, position0);
    let room = crate::position::spec_narrow_size(padding, room0);
    let align = crate::style::spec_align_items(b.style);
    let self_ascent = crate::position::spec_ascent(b.size);
    let offset1 = if (align matches crate::style::AlignItems::Baseline)
        && (room.depth matches Option::Some(_)) && (self_ascent matches Option::Some(_)) {
        let shift = match crate::unit::spec_sub_unit(
            crate::position::spec_ascent(room),
            self_ascent,
        ) {
            Option::Some(u) => u,
            Option::None => Unit(0),
        };
        Offset {
            x: offset.x,
            y: Unit(crate::unit::sat_add(offset.y.0 as int, shift.0 as int) as i64),
        }
    } else {
        offset
    };
    let out = crate::element::spec_lay_out_block_children(b.children, offset1);
    let ascent = if b.children.len() == 0 {
        crate::position::spec_ascent(b.size)
    } else {
        crate::position::spec_ascent(crate::element::spec_size_after_wrap(out[0]))
    };
    let offset2 = crate::position::spec_widen_offset(padding, offset1);
    let size2 = if (align matches crate::style::AlignItems::Baseline)
        && (b.size.depth matches Option::None) {
        Size {
            depth: match ascent {
                Option::Some(a) => Option::Some(
                    Unit(
                        crate::unit::sat_sub(
                            crate::dimension::spec_base_size(b.size.height).0 as int,
                            a.0 as int,
                        ) as i64,
                    ),
                ),
                Option::None => Option::None,
            },
            ..b.size
        }
    } else {
        b.size
    };
    BlockView {
        offset: offset2,
        size: size2,
        children: if b.children.len() == 0 {
            b.children
        } else {
            out
        },
        ..b
    }
}

impl BlockBox {
    /// The lay-out walk on an absolute container.
    #[verifier::rlimit(100)]
    #[verifier::loop_isolation(false)]
    pub fn lay_out(self, position: Offset, room: Size) -> (r: Self)
        ensures
            r@ == spec_lay_out_block(self@, position, room),
        decreases crate::element::nodes_height(self@.children), 2nat,
    {
        let ghost b0 = self@;
        let BlockBox { offset: _, size, style, children } = self;
        proof {
            assert(b0.children == nodes_view(children@));
            crate::element::lemma_nodes_view_len(children@);
        }
        let padding = style.padding();
        let mut offset = position;
        let mut room = room;
        padding.narrow(&mut offset, &mut room);
        let align = style.align_items();
        let self_ascent = size.ascent();
        if matches!(align, crate::style::AlignItems::Baseline) && room.depth().is_some()
            && self_ascent.is_some() {
            let shift = match crate::unit::sub_unit(room.ascent(), self_ascent) {
                Some(u) => u,
                None => Unit::zero(),
            };
            offset.y_advance(shift);
        }
        let ghost cs0 = nodes_view(children@);
        let was_empty = children.len() == 0;
        let mut work = children;
        let mut out: Vec<Node> = Vec::new();
        proof {
            assert(nodes_view(out@) + crate::element::spec_lay_out_block_children(
                nodes_view(work@),
                offset,
            ) =~= crate::element::spec_lay_out_block_children(cs0, offset));
        }
        while work.len() > 0
            invariant
                crate::element::spec_lay_out_block_children(cs0, offset) == nodes_view(out@)
                    + crate::element::spec_lay_out_block_children(nodes_view(work@), offset),
                crate::element::nodes_height(nodes_view(work@))
                    <= crate::element::nodes_height(cs0),
                out@.len() + work@.len() == cs0.len(),
            decreases work@.len(),
        {
            let ghost prev_work = work@;
            let ghost pre = nodes_view(prev_work);
            let ghost done = nodes_view(out@);
            let child = work.remove(0);
            proof {
                crate::element::lemma_nodes_view_len(prev_work);
                assert(prev_work.remove(0) =~= prev_work.drop_first());
                assert(prev_work.drop_first() == work@);
                crate::element::lemma_nodes_view_len(work@);
                assert(pre =~= seq![prev_work[0]@] + nodes_view(work@));
                assert(pre.drop_first() =~= nodes_view(work@));
                assert(pre[0] == child@);
                crate::element::lemma_nodes_height_index(pre, 0);
                assert(pre.subrange(1, pre.len() as int) =~= pre.drop_first());
                crate::element::lemma_nodes_height_subrange(pre, 1, pre.len() as int);
            }
            let at = child.offset_ref().add(&offset);
            let child_room = *child.size_ref();
            let laid = child.lay_out(at, child_room);
            proof {
                crate::element::lemma_nodes_view_push(out@, laid);
            }
            out.push(laid);
            proof {
                assert(done.push(laid@) =~= done + seq![laid@]);
                assert((done + seq![laid@]) + crate::element::spec_lay_out_block_children(
                    nodes_view(work@),
                    offset,
                ) =~= done + (seq![laid@] + crate::element::spec_lay_out_block_children(
                    nodes_view(work@),
                    offset,
                )));
            }
        }
        proof {
            assert(nodes_view(work@) =~= Seq::<NodeView>::empty());
            assert(nodes_view(out@) + crate::element::spec_lay_out_block_children(
                nodes_view(work@),
                offset,
            ) =~= nodes_view(out@));
        }
        let ascent: Option<Unit>;
        if was_empty {
            ascent = size.ascent();
        } else {
            proof {
                crate::element::lemma_nodes_view_len(out@);
                crate::element::lemma_nodes_view_index(out@, 0);
            }
            ascent = out[0].size_after_wrap().ascent();
        }
        padding.widen_offset(&mut offset);
        let mut size = size;
        if matches!(align, crate::style::AlignItems::Baseline) && size.depth().is_none() {
            let d = match ascent {
                Some(a) => Some(size.height().sub(a)),
                None => None,
            };
            size.set_depth(d);
        }
        BlockBox { offset, size, style, children: out }
    }
}

} // verus!
