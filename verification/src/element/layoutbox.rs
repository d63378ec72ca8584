//! The flowing container: a box that packs its children along one axis,
//! wrapping into lines, distributing slack by grow/shrink weights, and
//! aligning across the cross axis.

use vstd::prelude::*;

use crate::axis::Axis;
use crate::dimension::{Dim, MaybeDim};
use crate::element::{
    BoxView, Node, NodeView, lemma_nodes_height_index, lemma_nodes_height_subrange,
    lemma_nodes_view_len, lemma_nodes_view_push, node_height, nodes_height, nodes_view,
    spec_set_style, spec_set_style_children, spec_style_of,
};
use crate::position::{Offset, Size};
use crate::style::{Style, spec_apply_style, spec_style_inherit};
use crate::unit::{Fill, Unit};

verus! {

/// A recursive container with wrapping and alignment.
#[derive(Debug)]
pub struct LayoutBox {
    pub axis: Axis,
    pub offset: Offset,
    pub size: Size,
    pub break_inside: bool,
    pub style: Style,
    pub children: Vec<Node>,
    pub content_size: Option<Size>,
}

impl View for LayoutBox {
    type V = BoxView;

    open spec fn view(&self) -> BoxView
        decreases self,
    {
        BoxView {
            axis: self.axis,
            offset: self.offset,
            size: self.size,
            break_inside: self.break_inside,
            style: self.style,
            children: nodes_view(self.children@),
            content_size: self.content_size,
        }
    }
}

/// What adopting a style leaves on a flowing container: the style's size
/// policy stamped onto the unset slots of its size, the style stored,
/// and each child handed its own style cascaded under the new one.
pub open spec fn spec_set_style_box(b: BoxView, s: Style) -> BoxView
    decreases nodes_height(b.children), 2nat, 0nat,
{
    BoxView {
        children: spec_set_style_children(b.children, s),
        size: spec_apply_style(b.size, b.axis, s),
        style: s,
        ..b
    }
}

/// A fresh flowing container on the given axis.
pub open spec fn spec_new_box(axis: Axis) -> BoxView {
    BoxView {
        axis,
        offset: Offset { x: Unit(0), y: Unit(0) },
        size: crate::element::spec_size_none(),
        break_inside: true,
        style: crate::style::spec_style_unset(),
        children: Seq::<NodeView>::empty(),
        content_size: Option::<Size>::None,
    }
}

impl LayoutBox {
    pub fn new(axis: Axis) -> (r: Self)
        ensures
            r@ == spec_new_box(axis),
    {
        LayoutBox {
            axis,
            offset: Offset::zero(),
            size: Size::none(),
            break_inside: true,
            style: Style::new(),
            children: Vec::new(),
            content_size: None,
        }
    }

    pub fn axis(&self) -> (r: Axis)
        ensures
            r == self.axis,
    {
        self.axis
    }

    /// Sets the basis of the main-axis dimension.
    pub fn size(self, size: Dim) -> (r: Self)
        ensures
            r@ == (BoxView {
                size: crate::axis::spec_with_dim(
                    self.axis,
                    self@.size,
                    crate::dimension::FlexDim {
                        base: crate::dimension::spec_clamp_base(
                            size,
                            crate::axis::spec_dim_of(self.axis, self@.size).min,
                            crate::axis::spec_dim_of(self.axis, self@.size).max,
                        ),
                        ..crate::axis::spec_dim_of(self.axis, self@.size)
                    },
                ),
                ..self@
            }),
    {
        let mut b = self;
        b.axis.dim_mut(&mut b.size).set_base(size);
        b
    }

    /// Keeps this box out of page-break avoidance: the box asks the sink
    /// for a fresh page when its room does not fit.
    pub fn avoid_break(self) -> (r: Self)
        ensures
            r@ == (BoxView { break_inside: false, ..self@ }),
    {
        let mut b = self;
        b.break_inside = false;
        b
    }

    pub fn min(self, size: MaybeDim) -> (r: Self)
        ensures
            r@ == (BoxView {
                size: crate::axis::spec_with_dim(
                    self.axis,
                    self@.size,
                    crate::dimension::spec_with_min(
                        crate::axis::spec_dim_of(self.axis, self@.size),
                        size,
                    ),
                ),
                ..self@
            }),
    {
        let mut b = self;
        b.axis.dim_mut(&mut b.size).set_min(size);
        b
    }

    pub fn max(self, size: MaybeDim) -> (r: Self)
        ensures
            r@ == (BoxView {
                size: crate::axis::spec_with_dim(
                    self.axis,
                    self@.size,
                    crate::dimension::spec_with_max(
                        crate::axis::spec_dim_of(self.axis, self@.size),
                        size,
                    ),
                ),
                ..self@
            }),
    {
        let mut b = self;
        b.axis.dim_mut(&mut b.size).set_max(size);
        b
    }

    pub fn grow(self, weight: Fill) -> (r: Self)
        ensures
            r@ == (BoxView {
                size: crate::axis::spec_with_dim(
                    self.axis,
                    self@.size,
                    crate::dimension::FlexDim {
                        grow: Option::Some(weight),
                        ..crate::axis::spec_dim_of(self.axis, self@.size)
                    },
                ),
                ..self@
            }),
    {
        let mut b = self;
        b.axis.dim_mut(&mut b.size).set_grow(weight);
        b
    }

    pub fn shrink(self, weight: Fill) -> (r: Self)
        ensures
            r@ == (BoxView {
                size: crate::axis::spec_with_dim(
                    self.axis,
                    self@.size,
                    crate::dimension::FlexDim {
                        shrink: Option::Some(weight),
                        ..crate::axis::spec_dim_of(self.axis, self@.size)
                    },
                ),
                ..self@
            }),
    {
        let mut b = self;
        b.axis.dim_mut(&mut b.size).set_shrink(weight);
        b
    }

    /// Sets the baseline depth of this box.
    pub fn depth(self, depth: Unit) -> (r: Self)
        ensures
            r@ == (BoxView {
                size: (Size { depth: Option::Some(depth), ..self@.size }),
                ..self@
            }),
    {
        let mut b = self;
        b.size.set_depth(Some(depth));
        b
    }

    pub fn cross_size(self, size: Dim) -> (r: Self)
        ensures
            ({
                let cross = crate::axis::spec_cross(self.axis);
                r@ == (BoxView {
                    size: crate::axis::spec_with_dim(
                        cross,
                        self@.size,
                        crate::dimension::FlexDim {
                            base: crate::dimension::spec_clamp_base(
                                size,
                                crate::axis::spec_dim_of(cross, self@.size).min,
                                crate::axis::spec_dim_of(cross, self@.size).max,
                            ),
                            ..crate::axis::spec_dim_of(cross, self@.size)
                        },
                    ),
                    ..self@
                })
            }),
    {
        let mut b = self;
        b.axis.cross().dim_mut(&mut b.size).set_base(size);
        b
    }

    pub fn cross_min(self, size: MaybeDim) -> (r: Self)
        ensures
            ({
                let cross = crate::axis::spec_cross(self.axis);
                r@ == (BoxView {
                    size: crate::axis::spec_with_dim(
                        cross,
                        self@.size,
                        crate::dimension::spec_with_min(
                            crate::axis::spec_dim_of(cross, self@.size),
                            size,
                        ),
                    ),
                    ..self@
                })
            }),
    {
        let mut b = self;
        b.axis.cross().dim_mut(&mut b.size).set_min(size);
        b
    }

    pub fn cross_max(self, size: MaybeDim) -> (r: Self)
        ensures
            ({
                let cross = crate::axis::spec_cross(self.axis);
                r@ == (BoxView {
                    size: crate::axis::spec_with_dim(
                        cross,
                        self@.size,
                        crate::dimension::spec_with_max(
                            crate::axis::spec_dim_of(cross, self@.size),
                            size,
                        ),
                    ),
                    ..self@
                })
            }),
    {
        let mut b = self;
        b.axis.cross().dim_mut(&mut b.size).set_max(size);
        b
    }

    pub fn cross_grow(self, weight: Fill) -> (r: Self)
        ensures
            ({
                let cross = crate::axis::spec_cross(self.axis);
                r@ == (BoxView {
                    size: crate::axis::spec_with_dim(
                        cross,
                        self@.size,
                        crate::dimension::FlexDim {
                            grow: Option::Some(weight),
                            ..crate::axis::spec_dim_of(cross, self@.size)
                        },
                    ),
                    ..self@
                })
            }),
    {
        let mut b = self;
        b.axis.cross().dim_mut(&mut b.size).set_grow(weight);
        b
    }

    pub fn cross_shrink(self, weight: Fill) -> (r: Self)
        ensures
            ({
                let cross = crate::axis::spec_cross(self.axis);
                r@ == (BoxView {
                    size: crate::axis::spec_with_dim(
                        cross,
                        self@.size,
                        crate::dimension::FlexDim {
                            shrink: Option::Some(weight),
                            ..crate::axis::spec_dim_of(cross, self@.size)
                        },
                    ),
                    ..self@
                })
            }),
    {
        let mut b = self;
        b.axis.cross().dim_mut(&mut b.size).set_shrink(weight);
        b
    }

    /// Replaces this box's style, re-propagating inheritance downward.
    pub fn style(self, style: Style) -> (r: Self)
        ensures
            r@ == spec_set_style_box(self@, style),
    {
        self.set_style_box(style)
    }

    /// Stacks a style on top of the current one (present fields of the
    /// new style win) and adopts the result.
    pub fn add_style(self, style: Style) -> (r: Self)
        ensures
            r@ == spec_set_style_box(self@, crate::style::spec_style_merge(style, self@.style)),
    {
        let merged = style.merge(&self.style);
        self.set_style_box(merged)
    }

    /// Replaces the stored offset and size.
    pub fn take_over_position(&mut self, offset: Offset, size: Size)
        ensures
            final(self)@ == (BoxView { offset, size, ..old(self)@ }),
    {
        self.offset = offset;
        self.size = size;
    }

    /// Adds a child, which adopts its own style cascaded under this
    /// box's style.
    pub fn child(self, child: Node) -> (r: Self)
        ensures
            r@ == (BoxView {
                children: self@.children.push(
                    spec_set_style(child@, spec_style_inherit(spec_style_of(child@), self@.style)),
                ),
                ..self@
            }),
    {
        let mut b = self;
        let inherited = child.style_ref().inherit(&b.style);
        let adopted = child.set_style(inherited);
        proof {
            lemma_nodes_view_push(b.children@, adopted);
        }
        b.children.push(adopted);
        b
    }

    /// Adds a text leaf as a child.
    pub fn text(self, content: String) -> (r: Self)
        ensures
            r@ == (BoxView {
                children: self@.children.push(
                    spec_set_style(
                        crate::element::text::spec_new_text(content@),
                        spec_style_inherit(
                            spec_style_of(crate::element::text::spec_new_text(content@)),
                            self@.style,
                        ),
                    ),
                ),
                ..self@
            }),
    {
        self.child(Node::Text(crate::element::Text::new(content)))
    }

    /// The style-adoption walk shared by `style` and `Node::set_style`.
    #[verifier::loop_isolation(false)]
    pub fn set_style_box(self, style: Style) -> (r: Self)
        ensures
            r@ == spec_set_style_box(self@, style),
        decreases nodes_height(self@.children),
    {
        let ghost cs0 = self@.children;
        let LayoutBox { axis, offset, mut size, break_inside, style: _, children, content_size } =
            self;
        proof {
            assert(cs0 == nodes_view(children@));
        }
        let mut work = children;
        let mut out: Vec<Node> = Vec::new();
        proof {
            assert(nodes_view(out@) + spec_set_style_children(nodes_view(work@), style)
                =~= spec_set_style_children(cs0, style));
        }
        while work.len() > 0
            invariant
                spec_set_style_children(cs0, style) == nodes_view(out@)
                    + spec_set_style_children(nodes_view(work@), style),
                nodes_height(nodes_view(work@)) <= nodes_height(cs0),
            decreases work@.len(),
        {
            let ghost prev_work = work@;
            let ghost pre = nodes_view(prev_work);
            let ghost done = nodes_view(out@);
            let child = work.remove(0);
            proof {
                lemma_nodes_view_len(prev_work);
                assert(prev_work.remove(0) =~= prev_work.drop_first());
                assert(prev_work.drop_first() == work@);
                lemma_nodes_view_len(work@);
                assert(pre =~= seq![prev_work[0]@] + nodes_view(work@));
                assert(pre.drop_first() =~= nodes_view(work@));
                assert(pre[0] == child@);
                lemma_nodes_height_index(pre, 0);
                assert(pre.subrange(1, pre.len() as int) =~= pre.drop_first());
                lemma_nodes_height_subrange(pre, 1, pre.len() as int);
            }
            let inherited = child.style_ref().inherit(&style);
            proof {
                assert(node_height(child@) < nodes_height(cs0));
            }
            let styled = child.set_style(inherited);
            proof {
                lemma_nodes_view_push(out@, styled);
            }
            out.push(styled);
            proof {
                assert(pre[0] == child@);
                assert(spec_set_style_children(pre, style) == seq![
                    spec_set_style(pre[0], spec_style_inherit(spec_style_of(pre[0]), style))
                ] + spec_set_style_children(pre.drop_first(), style));
                assert(done.push(styled@) =~= done + seq![styled@]);
                assert((done + seq![styled@]) + spec_set_style_children(nodes_view(work@), style)
                    =~= done + (seq![styled@] + spec_set_style_children(nodes_view(work@), style)));
            }
        }
        proof {
            assert(nodes_view(work@) =~= Seq::<NodeView>::empty());
            assert(nodes_view(out@) + spec_set_style_children(nodes_view(work@), style)
                =~= nodes_view(out@));
        }
        size.apply_style(axis, &style);
        LayoutBox { axis, offset, size, break_inside, style, children: out, content_size }
    }
}


/// The aggregation of native line sizes into one content size: per line
/// the main-axis extent takes the maximum, and the cross-axis extents
/// add (with a cross gap between lines); under baseline rules only the
/// first line of a vertical stack keeps its baseline.
pub open spec fn spec_aggregate_lines(
    lines: Seq<crate::children::LineView>,
    axis: Axis,
    cross_gap: Unit,
    baseline: bool,
    is_first: bool,
    sum: Size,
) -> Size
    decreases lines.len(),
{
    if lines.len() == 0 {
        sum
    } else {
        let cross = crate::axis::spec_cross(axis);
        let line_size = lines[0].1;
        let sum1 = crate::axis::spec_with_dim(
            axis,
            sum,
            crate::dimension::FlexDim {
                base: crate::dimension::spec_dim_max_of(
                    crate::axis::spec_dim_of(axis, sum).base,
                    crate::axis::spec_dim_of(axis, line_size).base,
                ),
                ..crate::axis::spec_dim_of(axis, sum)
            },
        );
        let with_gap = if is_first {
            crate::element::spec_size_none()
        } else {
            crate::axis::spec_extend_dim(cross, sum1, cross_gap)
        };
        let sum2 = crate::axis::spec_extend_size(
            cross,
            with_gap,
            line_size,
            baseline && (is_first || (axis matches Axis::Horizontal)),
        );
        spec_aggregate_lines(lines.drop_first(), axis, cross_gap, baseline, false, sum2)
    }
}

/// What measuring a flowing container yields: parent-relative bases are
/// resolved against the room, children are measured under the full room,
/// their native lines are packed and aggregated, a content-typed basis
/// adopts the aggregate (widened by padding), and under baseline rules a
/// missing depth is inherited from the aggregate.
pub open spec fn spec_measure_box(b: BoxView, room: Size) -> BoxView
    decreases nodes_height(b.children), 2nat, 0nat,
{
    let axis = b.axis;
    let cross = crate::axis::spec_cross(axis);
    let size1 = crate::axis::spec_with_dim(
        axis,
        b.size,
        crate::dimension::spec_resolve_parented(
            crate::axis::spec_dim_of(axis, b.size),
            crate::axis::spec_axis_size(axis, room),
        ),
    );
    let size2 = crate::axis::spec_with_dim(
        cross,
        size1,
        crate::dimension::spec_resolve_parented(
            crate::axis::spec_dim_of(cross, size1),
            crate::axis::spec_axis_size(cross, room),
        ),
    );
    let baseline = (crate::style::spec_align_items(b.style) matches
        crate::style::AlignItems::Baseline);
    let padded = crate::position::spec_narrow_size(b.style.padding, size2);
    let measured = crate::element::spec_measure_children(b.children, room);
    let self_size = if b.children.len() == 0 {
        padded
    } else {
        let narrowed_room = crate::position::spec_narrow_size(b.style.padding, room);
        let axis_room = crate::dimension::spec_size_available(
            crate::axis::spec_dim_of(axis, padded),
            crate::axis::spec_axis_size(axis, narrowed_room),
        );
        let wrap = match b.style.wrap {
            Option::Some(w) => w,
            Option::None => axis matches Axis::Horizontal,
        };
        let axis_gap = match axis {
            Axis::Horizontal => crate::style::spec_gap(b.style.horizontal_gap),
            Axis::Vertical => crate::style::spec_gap(b.style.vertical_gap),
        };
        let cross_gap = match axis {
            Axis::Horizontal => crate::style::spec_gap(b.style.vertical_gap),
            Axis::Vertical => crate::style::spec_gap(b.style.horizontal_gap),
        };
        let lines = crate::children::spec_pack(
            measured,
            axis,
            axis_room,
            axis_gap,
            cross_gap,
            wrap,
            baseline,
        );
        let agg = spec_aggregate_lines(
            lines,
            axis,
            cross_gap,
            baseline,
            true,
            crate::element::spec_size_none(),
        );
        let agg1 = if (crate::axis::spec_dim_of(axis, padded).base matches Dim::Fixed(_)) {
            crate::axis::spec_with_dim(axis, agg, crate::axis::spec_dim_of(axis, padded))
        } else {
            agg
        };
        if (crate::axis::spec_dim_of(cross, padded).base matches Dim::Fixed(_)) {
            crate::axis::spec_with_dim(cross, agg1, crate::axis::spec_dim_of(cross, padded))
        } else {
            agg1
        }
    };
    let widened = crate::position::spec_widen_size(b.style.padding, self_size);
    let size3 = crate::axis::spec_with_dim(
        axis,
        size2,
        crate::dimension::spec_resolve_content(
            crate::axis::spec_dim_of(axis, size2),
            crate::axis::spec_axis_size(axis, widened),
        ),
    );
    let size4 = crate::axis::spec_with_dim(
        cross,
        size3,
        crate::dimension::spec_resolve_content(
            crate::axis::spec_dim_of(cross, size3),
            crate::axis::spec_axis_size(cross, widened),
        ),
    );
    let size5 = if baseline && (size4.depth matches Option::None) {
        Size { depth: widened.depth, ..size4 }
    } else {
        size4
    };
    BoxView {
        size: size5,
        children: if b.children.len() == 0 {
            b.children
        } else {
            measured
        },
        ..b
    }
}

impl LayoutBox {
    /// The measure walk on a flowing container.
    #[verifier::loop_isolation(false)]
    pub fn measure(self, room: &crate::position::Size) -> (r: Self)
        ensures
            r@ == spec_measure_box(self@, *room),
        decreases nodes_height(self@.children), 1nat,
    {
        let ghost b0 = self@;
        let LayoutBox { axis, offset, mut size, break_inside, style, children, content_size } =
            self;
        proof {
            assert(b0.children == nodes_view(children@));
            crate::element::lemma_nodes_view_len(children@);
        }
        let cross = axis.cross();
        let axis_room_in = axis.base_size(room);
        let d = axis.dim_mut(&mut size);
        d.resolve_parented(axis_room_in);
        let cross_room_in = cross.base_size(room);
        let d = cross.dim_mut(&mut size);
        d.resolve_parented(cross_room_in);
        let respect_baseline = matches!(style.align_items(), crate::style::AlignItems::Baseline);
        let mut self_size = size;
        style.padding().narrow_size(&mut self_size);

        let new_children: Vec<Node>;
        let final_self: Size;
        if children.len() == 0 {
            new_children = children;
            final_self = self_size;
        } else {
            let measured = crate::element::measure_children(children, room);
            let mut narrowed_room = *room;
            style.padding().narrow_size(&mut narrowed_room);
            let axis_room0 = axis.base_size(&narrowed_room);
            let axis_room2 = axis.dim(&self_size).size_available(axis_room0);
            let wrap = match style.wrap() {
                Some(w) => w,
                None => matches!(axis, Axis::Horizontal),
            };
            let axis_gap = axis.select(style.horizontal_gap_size(), style.vertical_gap_size());
            let cross_gap = cross.select(style.horizontal_gap_size(), style.vertical_gap_size());
            let lines = crate::children::lay_out_native(
                axis,
                &measured,
                axis_room2,
                axis_gap,
                cross_gap,
                wrap,
                respect_baseline,
            );
            let ghost lv = crate::children::lines_view(lines@);
            let ghost full = spec_aggregate_lines(
                lv,
                axis,
                cross_gap,
                respect_baseline,
                true,
                crate::element::spec_size_none(),
            );
            let mut sum = Size::none();
            let mut i: usize = 0;
            proof {
                assert(lv.skip(0) =~= lv);
            }
            while i < lines.len()
                invariant
                    i <= lines.len(),
                    spec_aggregate_lines(
                        lv.skip(i as int),
                        axis,
                        cross_gap,
                        respect_baseline,
                        i == 0,
                        sum,
                    ) == full,
                decreases lines@.len() - i,
            {
                let line = lines[i];
                proof {
                    assert(lv.skip(i as int)[0] == lv[i as int]);
                    assert(lv[i as int] == (line.offset, line.size, line.count as int));
                    assert(lv.skip(i as int).drop_first() =~= lv.skip(i as int + 1));
                }
                let maxed = axis.dim(&sum).max_of(axis.dim(&line.size));
                let d = axis.dim_mut(&mut sum);
                *d = maxed;
                let with_gap = if i == 0 {
                    Size::none()
                } else {
                    cross.extend_dim(&sum, cross_gap)
                };
                sum = cross.extend_size(
                    &with_gap,
                    &line.size,
                    respect_baseline && (i == 0 || matches!(axis, Axis::Horizontal)),
                );
                i = i + 1;
            }
            proof {
                assert(lv.skip(i as int) =~= Seq::<crate::children::LineView>::empty());
            }
            if axis.dim(&self_size).is_fixed() {
                let v = *axis.dim(&self_size);
                let d = axis.dim_mut(&mut sum);
                *d = v;
            }
            if cross.dim(&self_size).is_fixed() {
                let v = *cross.dim(&self_size);
                let d = cross.dim_mut(&mut sum);
                *d = v;
            }
            new_children = measured;
            final_self = sum;
        }
        let mut final_size = final_self;
        style.padding().widen_size(&mut final_size);
        let wa = axis.base_size(&final_size);
        let d = axis.dim_mut(&mut size);
        d.resolve_content(wa);
        let wc = cross.base_size(&final_size);
        let d = cross.dim_mut(&mut size);
        d.resolve_content(wc);
        if respect_baseline && size.depth().is_none() {
            size.set_depth(final_size.depth());
        }
        LayoutBox { axis, offset, size, break_inside, style, children: new_children, content_size }
    }
}


/// One child's placement within a line: its distributed main-axis
/// extent, its cross extent, alignment offsets, the recursive lay-out,
/// and the line-size bookkeeping.  Yields the laid-out child, the new
/// pen position, the new line size, and the new first-line ascent.
pub open spec fn spec_lay_out_child_step(
    child: NodeView,
    axis: Axis,
    align: crate::style::AlignItems,
    self_ascent: Option<Unit>,
    native_line_size: Size,
    slack: Unit,
    sum_grow: Option<crate::unit::Fill>,
    sum_shrink: Option<crate::unit::Fill>,
    line_cross_room: Unit,
    line_cross_dyn: bool,
    axis_gap: Unit,
    is_first: bool,
    position: Offset,
    line_size: Size,
    first_ascent: Option<Unit>,
) -> (NodeView, Offset, Size, Option<Unit>)
    decreases node_height(child), 4nat, 0nat,
{
    let cross = crate::axis::spec_cross(axis);
    let first_ascent1 = if is_first && (axis matches Axis::Vertical) {
        crate::position::spec_max_depth(
            first_ascent,
            crate::position::spec_ascent(crate::element::spec_size_after_wrap(child)),
        )
    } else {
        first_ascent
    };
    let (position1, line_size1) = if is_first {
        (position, line_size)
    } else {
        (
            crate::axis::spec_advance(axis, position, axis_gap),
            crate::axis::spec_extend_dim(axis, line_size, axis_gap),
        )
    };
    let snap = crate::element::spec_size_after_wrap(child);
    let child_axis_size = crate::dimension::spec_size_distributed(
        crate::axis::spec_dim_of(axis, snap),
        slack,
        sum_grow,
        sum_shrink,
    );
    let cross_snap = crate::axis::spec_dim_of(cross, snap);
    let child_cross_grows = (cross_snap.base matches Dim::Content(_))
        || (cross_snap.grow matches Option::Some(_)) || (cross_snap.shrink matches Option::Some(_));
    let child_cross_size = if child_cross_grows && line_cross_dyn {
        crate::dimension::spec_size_available(cross_snap, line_cross_room)
    } else {
        crate::dimension::spec_size_filled(
            cross_snap,
            crate::axis::spec_axis_size(cross, native_line_size),
        )
    };
    let child_ascent = crate::position::spec_ascent(snap);
    let child_axis_offset = if (align matches crate::style::AlignItems::Baseline) && is_first
        && (axis matches Axis::Vertical) && (self_ascent matches Option::Some(_))
        && (child_ascent matches Option::Some(_)) {
        match (self_ascent, child_ascent) {
            (Option::Some(sa), Option::Some(ca)) => Unit(
                crate::unit::sat_sub(sa.0 as int, ca.0 as int) as i64,
            ),
            _ => Unit(0),
        }
    } else {
        Unit(0)
    };
    let position2 = crate::axis::spec_advance(axis, position1, child_axis_offset);
    let child_cross_offset = match align {
        crate::style::AlignItems::Start => Unit(0),
        crate::style::AlignItems::Center => Unit(
            crate::unit::half_toward_zero(
                crate::unit::sat_sub(line_cross_room.0 as int, child_cross_size.0 as int),
            ) as i64,
        ),
        crate::style::AlignItems::End => Unit(
            crate::unit::sat_sub(line_cross_room.0 as int, child_cross_size.0 as int) as i64,
        ),
        crate::style::AlignItems::Baseline => if (axis matches Axis::Horizontal) {
            match (crate::position::spec_ascent(native_line_size), child_ascent) {
                (Option::Some(la), Option::Some(ca)) => Unit(
                    crate::unit::sat_sub(la.0 as int, ca.0 as int) as i64,
                ),
                _ => Unit(0),
            }
        } else {
            Unit(0)
        },
    };
    let placed = crate::axis::spec_advance(cross, position2, child_cross_offset);
    let wh = match axis {
        Axis::Horizontal => (child_axis_size, child_cross_size),
        Axis::Vertical => (child_cross_size, child_axis_size),
    };
    let child_room = Size {
        width: crate::dimension::spec_flex_fixed(wh.0),
        height: crate::dimension::spec_flex_fixed(wh.1),
        depth: snap.depth,
    };
    let laid = crate::element::spec_lay_out(child, placed, child_room);
    let bounding0 = crate::element::spec_size_after_lay_out(laid);
    let bounding1 = crate::axis::spec_extend_dim(axis, bounding0, child_axis_offset);
    let bounding2 = crate::axis::spec_extend_dim(cross, bounding1, child_cross_offset);
    let position3 = crate::axis::spec_advance(axis, position2, child_axis_size);
    let line_size2 = crate::axis::spec_extend_size(
        axis,
        line_size1,
        bounding2,
        align matches crate::style::AlignItems::Baseline,
    );
    (laid, position3, line_size2, first_ascent1)
}

/// The inner fold of lay-out: places the children of one line, one
/// step per child.
pub open spec fn spec_lay_out_line_children(
    cs: Seq<NodeView>,
    axis: Axis,
    align: crate::style::AlignItems,
    self_ascent: Option<Unit>,
    native_line_size: Size,
    slack: Unit,
    sum_grow: Option<crate::unit::Fill>,
    sum_shrink: Option<crate::unit::Fill>,
    line_cross_room: Unit,
    line_cross_dyn: bool,
    axis_gap: Unit,
    is_first: bool,
    position: Offset,
    line_size: Size,
    first_ascent: Option<Unit>,
    out: Seq<NodeView>,
) -> (Seq<NodeView>, Offset, Size, Option<Unit>)
    decreases nodes_height(cs), 1nat, cs.len(),
    via spec_lay_out_line_children_decreases
{
    if cs.len() == 0 {
        (out, position, line_size, first_ascent)
    } else {
        let st = spec_lay_out_child_step(
            cs[0],
            axis,
            align,
            self_ascent,
            native_line_size,
            slack,
            sum_grow,
            sum_shrink,
            line_cross_room,
            line_cross_dyn,
            axis_gap,
            is_first,
            position,
            line_size,
            first_ascent,
        );
        spec_lay_out_line_children(
            cs.drop_first(),
            axis,
            align,
            self_ascent,
            native_line_size,
            slack,
            sum_grow,
            sum_shrink,
            line_cross_room,
            line_cross_dyn,
            axis_gap,
            false,
            st.1,
            st.2,
            st.3,
            out.push(st.0),
        )
    }
}

#[via_fn]
proof fn spec_lay_out_line_children_decreases(
    cs: Seq<NodeView>,
    axis: Axis,
    align: crate::style::AlignItems,
    self_ascent: Option<Unit>,
    native_line_size: Size,
    slack: Unit,
    sum_grow: Option<crate::unit::Fill>,
    sum_shrink: Option<crate::unit::Fill>,
    line_cross_room: Unit,
    line_cross_dyn: bool,
    axis_gap: Unit,
    is_first: bool,
    position: Offset,
    line_size: Size,
    first_ascent: Option<Unit>,
    out: Seq<NodeView>,
) {
    if cs.len() > 0 {
        lemma_nodes_height_index(cs, 0);
        assert(cs.drop_first() =~= cs.subrange(1, cs.len() as int));
        lemma_nodes_height_subrange(cs, 1, cs.len() as int);
    }
}

/// The outer fold of lay-out: iterates the packed lines top to bottom,
/// consuming each line's children from the front of `rest`, and
/// advancing the pen by each line's cross extent plus the cross gap.
pub open spec fn spec_lay_out_lines(
    lines: Seq<crate::children::LineView>,
    rest: Seq<NodeView>,
    axis: Axis,
    align: crate::style::AlignItems,
    self_ascent: Option<Unit>,
    cross_takes_native: bool,
    multi_line: bool,
    line_cross_dyn: bool,
    cross_size: Unit,
    axis_size: Unit,
    axis_gap: Unit,
    cross_gap: Unit,
    reset_offset: Offset,
    is_first: bool,
    position: Offset,
    content_size: Size,
    first_ascent: Option<Unit>,
    out: Seq<NodeView>,
) -> (Seq<NodeView>, Offset, Size, Option<Unit>)
    decreases nodes_height(rest), 2nat, lines.len(),
    via spec_lay_out_lines_decreases
{
    if lines.len() == 0 {
        (out, position, content_size, first_ascent)
    } else {
        let cross = crate::axis::spec_cross(axis);
        let native = lines[0].1;
        let kraw = lines[0].2;
        let k = if kraw < 0 {
            0
        } else if kraw > rest.len() {
            rest.len() as int
        } else {
            kraw
        };
        let (position1, content_size1) = if is_first {
            (position, content_size)
        } else {
            (
                crate::axis::spec_advance(cross, position, cross_gap),
                crate::axis::spec_extend_dim(cross, content_size, cross_gap),
            )
        };
        let slack = Unit(
            crate::unit::sat_sub(
                axis_size.0 as int,
                crate::axis::spec_axis_size(axis, native).0 as int,
            ) as i64,
        );
        let sum_grow = crate::axis::spec_dim_of(axis, native).grow;
        let sum_shrink = crate::axis::spec_dim_of(axis, native).shrink;
        let line_cross_room = if multi_line || cross_takes_native {
            crate::axis::spec_axis_size(cross, native)
        } else {
            cross_size
        };
        let position2 = crate::axis::spec_with_offset(
            axis,
            position1,
            crate::axis::spec_axis_offset(axis, reset_offset),
        );
        let inner = spec_lay_out_line_children(
            rest.take(k),
            axis,
            align,
            self_ascent,
            native,
            slack,
            sum_grow,
            sum_shrink,
            line_cross_room,
            line_cross_dyn,
            axis_gap,
            true,
            position2,
            crate::position::spec_size_zero(),
            first_ascent,
            out,
        );
        let position4 = crate::axis::spec_advance(
            cross,
            inner.1,
            crate::axis::spec_axis_size(cross, inner.2),
        );
        let content2 = crate::axis::spec_extend_size(
            cross,
            content_size1,
            inner.2,
            align matches crate::style::AlignItems::Baseline,
        );
        spec_lay_out_lines(
            lines.drop_first(),
            rest.skip(k),
            axis,
            align,
            self_ascent,
            cross_takes_native,
            multi_line,
            line_cross_dyn,
            cross_size,
            axis_size,
            axis_gap,
            cross_gap,
            reset_offset,
            false,
            position4,
            content2,
            inner.3,
            inner.0,
        )
    }
}

#[via_fn]
proof fn spec_lay_out_lines_decreases(
    lines: Seq<crate::children::LineView>,
    rest: Seq<NodeView>,
    axis: Axis,
    align: crate::style::AlignItems,
    self_ascent: Option<Unit>,
    cross_takes_native: bool,
    multi_line: bool,
    line_cross_dyn: bool,
    cross_size: Unit,
    axis_size: Unit,
    axis_gap: Unit,
    cross_gap: Unit,
    reset_offset: Offset,
    is_first: bool,
    position: Offset,
    content_size: Size,
    first_ascent: Option<Unit>,
    out: Seq<NodeView>,
) {
    if lines.len() > 0 {
        let kraw = lines[0].2;
        let k = if kraw < 0 {
            0
        } else if kraw > rest.len() {
            rest.len() as int
        } else {
            kraw
        };
        assert(rest.take(k) =~= rest.subrange(0, k));
        lemma_nodes_height_subrange(rest, 0, k);
        assert(rest.skip(k) =~= rest.subrange(k, rest.len() as int));
        lemma_nodes_height_subrange(rest, k, rest.len() as int);
    }
}

/// What laying out a flowing container yields: padding narrows the room
/// and offset, baselines may shift the box downward, the measured
/// children are re-packed at the available extent and placed line by
/// line with flex distribution and cross alignment, the content size is
/// resolved into the box's own bases, and padding is restored.
pub open spec fn spec_lay_out_box(b: BoxView, position0: Offset, room0: Size) -> BoxView
    decreases nodes_height(b.children), 4nat, 0nat,
{
    let padding = b.style.padding;
    let offset = crate::position::spec_narrow_offset(padding, position0);
    let room = crate::position::spec_narrow_size(padding, room0);
    let size = crate::position::spec_narrow_size(padding, b.size);
    let axis = b.axis;
    let cross = crate::axis::spec_cross(axis);
    let size_cross_dim = crate::axis::spec_dim_of(cross, size);
    let cross_takes_native = (size_cross_dim.base matches Dim::Content(_))
        && (size_cross_dim.grow matches Option::None) && (size_cross_dim.shrink matches Option::None);
    let axis_room = crate::axis::spec_axis_size(axis, room);
    let axis_size = crate::dimension::spec_size_available(
        crate::axis::spec_dim_of(axis, size),
        axis_room,
    );
    let cross_room = crate::axis::spec_axis_size(cross, room);
    let cross_size = crate::dimension::spec_size_available(size_cross_dim, cross_room);
    let wrap = match b.style.wrap {
        Option::Some(w) => w,
        Option::None => axis matches Axis::Horizontal,
    };
    let align = crate::style::spec_align_items(b.style);
    let axis_gap = match axis {
        Axis::Horizontal => crate::style::spec_gap(b.style.horizontal_gap),
        Axis::Vertical => crate::style::spec_gap(b.style.vertical_gap),
    };
    let cross_gap = match axis {
        Axis::Horizontal => crate::style::spec_gap(b.style.vertical_gap),
        Axis::Vertical => crate::style::spec_gap(b.style.horizontal_gap),
    };
    let self_ascent = crate::position::spec_ascent(b.size);
    let offset1 = if (align matches crate::style::AlignItems::Baseline)
        && (room.depth matches Option::Some(_)) && (self_ascent matches Option::Some(_)) {
        let shift = match crate::unit::spec_sub_unit(
            crate::position::spec_ascent(room),
            self_ascent,
        ) {
            Option::Some(u) => u,
            Option::None => Unit(0),
        };
        Offset { x: offset.x, y: Unit(crate::unit::sat_add(offset.y.0 as int, shift.0 as int) as i64) }
    } else {
        offset
    };
    let lines = crate::children::spec_pack(
        b.children,
        axis,
        axis_size,
        axis_gap,
        cross_gap,
        wrap,
        align matches crate::style::AlignItems::Baseline,
    );
    let multi_line = lines.len() > 1;
    let first_pair = if lines.len() > 0 && (axis matches Axis::Horizontal) {
        let la = crate::position::spec_ascent(lines[0].1);
        let off = if (align matches crate::style::AlignItems::Baseline)
            && (self_ascent matches Option::Some(_)) && (la matches Option::Some(_)) {
            let shift = match crate::unit::spec_sub_unit(self_ascent, la) {
                Option::Some(u) => u,
                Option::None => Unit(0),
            };
            Offset {
                x: offset1.x,
                y: Unit(crate::unit::sat_add(offset1.y.0 as int, shift.0 as int) as i64),
            }
        } else {
            offset1
        };
        let fa = match self_ascent {
            Option::Some(a) => Option::Some(a),
            Option::None => la,
        };
        (off, fa)
    } else {
        (offset1, Option::<Unit>::None)
    };
    let line_cross_dyn = (size_cross_dim.grow matches Option::Some(_))
        || (size_cross_dim.shrink matches Option::Some(_));
    let folded = spec_lay_out_lines(
        lines,
        b.children,
        axis,
        align,
        self_ascent,
        cross_takes_native,
        multi_line,
        line_cross_dyn,
        cross_size,
        axis_size,
        axis_gap,
        cross_gap,
        first_pair.0,
        true,
        offset1,
        crate::position::spec_size_zero(),
        first_pair.1,
        Seq::empty(),
    );
    let content_final = folded.2;
    let size2 = crate::axis::spec_resolve_content_size(axis, size, content_final, axis_room);
    let size3 = crate::axis::spec_resolve_content_size(cross, size2, content_final, cross_room);
    let offset_final = crate::position::spec_widen_offset(padding, first_pair.0);
    let size4 = crate::position::spec_widen_size(padding, size3);
    let size5 = if (size4.depth matches Option::None) {
        Size {
            depth: match folded.3 {
                Option::Some(fa) => Option::Some(
                    Unit(
                        crate::unit::sat_sub(
                            crate::dimension::spec_base_size(size4.height).0 as int,
                            fa.0 as int,
                        ) as i64,
                    ),
                ),
                Option::None => Option::None,
            },
            ..size4
        }
    } else {
        size4
    };
    BoxView {
        offset: offset_final,
        size: size5,
        children: folded.0,
        content_size: Option::Some(content_final),
        ..b
    }
}


/// Places one child within its line and lays it out recursively.
#[verifier::rlimit(60)]
pub fn lay_out_line_child(
    child: Node,
    axis: Axis,
    align: crate::style::AlignItems,
    self_ascent: Option<Unit>,
    native: &Size,
    slack: Unit,
    sum_grow: Option<crate::unit::Fill>,
    sum_shrink: Option<crate::unit::Fill>,
    line_cross_room: Unit,
    line_cross_dyn: bool,
    axis_gap: Unit,
    is_first: bool,
    position: Offset,
    line_size: Size,
    first_ascent: Option<Unit>,
) -> (r: (Node, Offset, Size, Option<Unit>))
    ensures
        ({
            let st = spec_lay_out_child_step(
                child@,
                axis,
                align,
                self_ascent,
                *native,
                slack,
                sum_grow,
                sum_shrink,
                line_cross_room,
                line_cross_dyn,
                axis_gap,
                is_first,
                position,
                line_size,
                first_ascent,
            );
            r.0@ == st.0 && r.1 == st.1 && r.2 == st.2 && r.3 == st.3
        }),
    decreases node_height(child@), 4nat,
{
    let cross = axis.cross();
    let mut position = position;
    let mut line_size = line_size;
    let mut first_ascent = first_ascent;
    if is_first {
        if matches!(axis, Axis::Vertical) {
            first_ascent = crate::position::max_depth(
                first_ascent,
                child.size_after_wrap().ascent(),
            );
        }
    } else {
        position = axis.advance_dim(&position, axis_gap);
        line_size = axis.extend_dim(&line_size, axis_gap);
    }
    let snap = child.size_after_wrap();
    let child_axis_size = axis.dim(&snap).size_distributed(slack, sum_grow, sum_shrink);
    let cross_snap = *cross.dim(&snap);
    let child_cross_grows = cross_snap.is_content_or_dyn();
    let child_cross_size = if child_cross_grows && line_cross_dyn {
        cross_snap.size_available(line_cross_room)
    } else {
        cross_snap.size_filled(cross.base_size(native))
    };
    let child_ascent = snap.ascent();
    let child_axis_offset = if matches!(align, crate::style::AlignItems::Baseline) && is_first
        && matches!(axis, Axis::Vertical) && self_ascent.is_some() && child_ascent.is_some() {
        match (self_ascent, child_ascent) {
            (Some(sa), Some(ca)) => sa.sub(ca),
            _ => Unit::zero(),
        }
    } else {
        Unit::zero()
    };
    position = axis.advance_dim(&position, child_axis_offset);
    let child_cross_offset = match align {
        crate::style::AlignItems::Start => Unit::zero(),
        crate::style::AlignItems::Center => line_cross_room.sub(child_cross_size).half(),
        crate::style::AlignItems::End => line_cross_room.sub(child_cross_size),
        crate::style::AlignItems::Baseline => if matches!(axis, Axis::Horizontal) {
            match (native.ascent(), child_ascent) {
                (Some(la), Some(ca)) => la.sub(ca),
                _ => Unit::zero(),
            }
        } else {
            Unit::zero()
        },
    };
    let placed = cross.advance_dim(&position, child_cross_offset);
    let wh = match axis {
        Axis::Horizontal => (child_axis_size, child_cross_size),
        Axis::Vertical => (child_cross_size, child_axis_size),
    };
    let child_room = match snap.depth() {
        Some(d) => Size::fixed_depth(wh.0, wh.1, d),
        None => Size::fixed(wh.0, wh.1),
    };
    let laid = child.lay_out(placed, child_room);
    let mut bounding = laid.size_after_lay_out();
    bounding = axis.extend_dim(&bounding, child_axis_offset);
    bounding = cross.extend_dim(&bounding, child_cross_offset);
    position = axis.advance_dim(&position, child_axis_size);
    line_size = axis.extend_size(
        &line_size,
        &bounding,
        matches!(align, crate::style::AlignItems::Baseline),
    );
    (laid, position, line_size, first_ascent)
}

/// Lays out the first `count` nodes of `work` as one line, appending
/// the laid-out children to `out`.  Returns the remaining work, the
/// grown output, the pen position, the line size, and the first-line
/// ascent.
#[verifier::rlimit(100)]
#[verifier::loop_isolation(false)]
pub fn lay_out_line(
    work: Vec<Node>,
    out: Vec<Node>,
    count: usize,
    axis: Axis,
    align: crate::style::AlignItems,
    self_ascent: Option<Unit>,
    native: &Size,
    slack: Unit,
    sum_grow: Option<crate::unit::Fill>,
    sum_shrink: Option<crate::unit::Fill>,
    line_cross_room: Unit,
    line_cross_dyn: bool,
    axis_gap: Unit,
    position: Offset,
    first_ascent: Option<Unit>,
) -> (r: (Vec<Node>, Vec<Node>, Offset, Size, Option<Unit>))
    requires
        count <= work@.len(),
    ensures
        ({
            let res = spec_lay_out_line_children(
                nodes_view(work@).take(count as int),
                axis,
                align,
                self_ascent,
                *native,
                slack,
                sum_grow,
                sum_shrink,
                line_cross_room,
                line_cross_dyn,
                axis_gap,
                true,
                position,
                crate::position::spec_size_zero(),
                first_ascent,
                nodes_view(out@),
            );
            nodes_view(r.1@) == res.0 && r.2 == res.1 && r.3 == res.2 && r.4 == res.3
        }),
        nodes_view(r.0@) == nodes_view(work@).skip(count as int),
        r.0@.len() == work@.len() - count,
    decreases nodes_height(nodes_view(work@)), 1nat,
{
    let ghost ws0 = nodes_view(work@);
    proof {
        crate::element::lemma_nodes_view_len(work@);
    }
    let ghost inner_full = spec_lay_out_line_children(
        ws0.take(count as int),
        axis,
        align,
        self_ascent,
        *native,
        slack,
        sum_grow,
        sum_shrink,
        line_cross_room,
        line_cross_dyn,
        axis_gap,
        true,
        position,
        crate::position::spec_size_zero(),
        first_ascent,
        nodes_view(out@),
    );
    let mut work = work;
    let mut out = out;
    let mut position = position;
    let mut first_ascent = first_ascent;
    let mut line_size = Size::zero();
    let mut cj: usize = 0;
    proof {
        assert(ws0.take(count as int) =~= ws0.subrange(0, count as int));
        assert(ws0.skip(0) =~= ws0);
    }
    while cj < count
        invariant
            cj <= count,
            nodes_view(work@) == ws0.skip(cj as int),
            work@.len() == ws0.len() - cj,
            spec_lay_out_line_children(
                ws0.subrange(cj as int, count as int),
                axis,
                align,
                self_ascent,
                *native,
                slack,
                sum_grow,
                sum_shrink,
                line_cross_room,
                line_cross_dyn,
                axis_gap,
                cj == 0,
                position,
                line_size,
                first_ascent,
                nodes_view(out@),
            ) == inner_full,
        decreases count - cj,
    {
        let ghost prev_work = work@;
        let ghost sub = ws0.subrange(cj as int, count as int);
        let ghost g_cj = cj as int;
        let ghost g_first = cj == 0;
        let ghost g_pos = position;
        let ghost g_ls = line_size;
        let ghost g_fa = first_ascent;
        let ghost g_out = nodes_view(out@);
        let child = work.remove(0);
        proof {
            crate::element::lemma_nodes_view_len(prev_work);
            assert(prev_work.remove(0) =~= prev_work.drop_first());
            assert(prev_work.drop_first() == work@);
            crate::element::lemma_nodes_view_len(work@);
            assert(nodes_view(prev_work) =~= seq![prev_work[0]@] + nodes_view(work@));
            assert(nodes_view(prev_work) == ws0.skip(cj as int));
            assert(ws0.skip(cj as int)[0] == ws0[cj as int]);
            assert(child@ == ws0[cj as int]);
            assert(nodes_view(work@) =~= ws0.skip(cj as int).drop_first());
            assert(ws0.skip(cj as int).drop_first() =~= ws0.skip(cj as int + 1));
            assert(sub[0] == ws0[cj as int]);
            assert(sub.drop_first() =~= ws0.subrange(cj as int + 1, count as int));
            lemma_nodes_height_index(ws0, cj as int);
        }
        let stepped = lay_out_line_child(
            child,
            axis,
            align,
            self_ascent,
            native,
            slack,
            sum_grow,
            sum_shrink,
            line_cross_room,
            line_cross_dyn,
            axis_gap,
            cj == 0,
            position,
            line_size,
            first_ascent,
        );
        let laid = stepped.0;
        position = stepped.1;
        line_size = stepped.2;
        first_ascent = stepped.3;
        proof {
            crate::element::lemma_nodes_view_push(out@, laid);
        }
        out.push(laid);
        cj = cj + 1;
        proof {
            assert(sub.len() == count - g_cj);
            assert(sub.len() > 0);
            let st = spec_lay_out_child_step(
                sub[0],
                axis,
                align,
                self_ascent,
                *native,
                slack,
                sum_grow,
                sum_shrink,
                line_cross_room,
                line_cross_dyn,
                axis_gap,
                g_first,
                g_pos,
                g_ls,
                g_fa,
            );
            assert(laid@ == st.0 && position == st.1 && line_size == st.2 && first_ascent == st.3);
            assert(spec_lay_out_line_children(
                sub,
                axis,
                align,
                self_ascent,
                *native,
                slack,
                sum_grow,
                sum_shrink,
                line_cross_room,
                line_cross_dyn,
                axis_gap,
                g_first,
                g_pos,
                g_ls,
                g_fa,
                g_out,
            ) == spec_lay_out_line_children(
                sub.drop_first(),
                axis,
                align,
                self_ascent,
                *native,
                slack,
                sum_grow,
                sum_shrink,
                line_cross_room,
                line_cross_dyn,
                axis_gap,
                false,
                st.1,
                st.2,
                st.3,
                g_out.push(st.0),
            ));
            assert(nodes_view(out@) =~= g_out.push(laid@));
            assert(ws0.subrange(cj as int, count as int) =~= sub.drop_first());
        }
    }
    proof {
        assert(ws0.subrange(cj as int, count as int) =~= Seq::<NodeView>::empty());
        assert(inner_full == (nodes_view(out@), position, line_size, first_ascent));
    }
    (work, out, position, line_size, first_ascent)
}

impl LayoutBox {
    /// The lay-out walk on a flowing container.
    #[verifier::rlimit(100)]
    #[verifier::spinoff_prover]
    #[verifier::loop_isolation(false)]
    pub fn lay_out(self, position0: Offset, room0: Size) -> (r: Self)
        ensures
            r@ == spec_lay_out_box(self@, position0, room0),
        decreases nodes_height(self@.children), 2nat,
    {
        let ghost b0 = self@;
        let LayoutBox { axis, offset: _, size, break_inside, style, children, content_size: _ } =
            self;
        proof {
            assert(b0.children == nodes_view(children@));
            crate::element::lemma_nodes_view_len(children@);
        }
        let padding = style.padding();
        let mut offset = position0;
        let mut room = room0;
        padding.narrow(&mut offset, &mut room);
        let unpadded_size = size;
        let mut size_local = size;
        padding.narrow_size(&mut size_local);
        let cross = axis.cross();
        let cross_takes_native = cross.dim(&size_local).is_content_fixed();
        let axis_room = axis.base_size(&room);
        let axis_size = axis.dim(&size_local).size_available(axis_room);
        let cross_room = cross.base_size(&room);
        let cross_size = cross.dim(&size_local).size_available(cross_room);
        let wrap = match style.wrap() {
            Some(w) => w,
            None => matches!(axis, Axis::Horizontal),
        };
        let align = style.align_items();
        let axis_gap = axis.select(style.horizontal_gap_size(), style.vertical_gap_size());
        let cross_gap = cross.select(style.horizontal_gap_size(), style.vertical_gap_size());
        let self_ascent = unpadded_size.ascent();
        if matches!(align, crate::style::AlignItems::Baseline) && room.depth().is_some()
            && self_ascent.is_some() {
            let shift = match crate::unit::sub_unit(room.ascent(), self_ascent) {
                Some(u) => u,
                None => Unit::zero(),
            };
            offset.y_advance(shift);
        }
        let lines = crate::children::lay_out_native(
            axis,
            &children,
            axis_size,
            axis_gap,
            cross_gap,
            wrap,
            matches!(align, crate::style::AlignItems::Baseline),
        );
        let multi_line = lines.len() > 1;
        let mut position = offset;
        let mut first_ascent: Option<Unit> = None;
        if lines.len() > 0 && matches!(axis, Axis::Horizontal) {
            proof {
                assert(crate::children::lines_view(lines@)[0] == (lines@[0].offset, lines@[0].size,
                    lines@[0].count as int));
            }
            let la = lines[0].size.ascent();
            if matches!(align, crate::style::AlignItems::Baseline) && self_ascent.is_some()
                && la.is_some() {
                let shift = match crate::unit::sub_unit(self_ascent, la) {
                    Some(u) => u,
                    None => Unit::zero(),
                };
                offset.y_advance(shift);
            }
            first_ascent = match self_ascent {
                Some(a) => Some(a),
                None => la,
            };
        }
        let line_cross_dyn = cross.dim(&size_local).is_dyn();
        let ghost lv = crate::children::lines_view(lines@);
        let ghost full = spec_lay_out_lines(
            lv,
            b0.children,
            axis,
            align,
            self_ascent,
            cross_takes_native,
            multi_line,
            line_cross_dyn,
            cross_size,
            axis_size,
            axis_gap,
            cross_gap,
            offset,
            true,
            position,
            crate::position::spec_size_zero(),
            first_ascent,
            Seq::empty(),
        );
        let mut work = children;
        let mut out: Vec<Node> = Vec::new();
        let mut content_size = Size::zero();
        let mut li: usize = 0;
        proof {
            assert(lv.skip(0) =~= lv);
            assert(nodes_view(out@) =~= Seq::<NodeView>::empty());
        }
        while li < lines.len()
            invariant
                li <= lines.len(),
                work@.len() == crate::children::lines_count_sum(lv.skip(li as int)),
                nodes_height(nodes_view(work@)) <= nodes_height(b0.children),
                spec_lay_out_lines(
                    lv.skip(li as int),
                    nodes_view(work@),
                    axis,
                    align,
                    self_ascent,
                    cross_takes_native,
                    multi_line,
                    line_cross_dyn,
                    cross_size,
                    axis_size,
                    axis_gap,
                    cross_gap,
                    offset,
                    li == 0,
                    position,
                    content_size,
                    first_ascent,
                    nodes_view(out@),
                ) == full,
            decreases lines@.len() - li,
        {
            let ghost rest_ls = nodes_view(work@);
            let ghost g_pos0 = position;
            let ghost g_cs0 = content_size;
            let ghost g_fa0 = first_ascent;
            let ghost g_out0 = nodes_view(out@);
            let line = lines[li];
            proof {
                assert(lv[li as int] == (line.offset, line.size, line.count as int));
                assert(lv.skip(li as int)[0] == lv[li as int]);
                assert(lv.skip(li as int).drop_first() =~= lv.skip(li as int + 1));
                assert(forall|j: int| 0 <= j < lv.skip(li as int + 1).len()
                    ==> #[trigger] lv.skip(li as int + 1)[j].2 == lv[li as int + 1 + j].2);
                assert(forall|j: int| 0 <= j < lv.len() ==> #[trigger] lv[j].2 == lines@[j].count);
                crate::children::lemma_lines_count_sum_nonneg(lv.skip(li as int + 1));
                assert(crate::children::lines_count_sum(lv.skip(li as int)) == line.count
                    + crate::children::lines_count_sum(lv.skip(li as int + 1)));
                crate::element::lemma_nodes_view_len(work@);
                assert(line.count <= rest_ls.len());
            }
            if li > 0 {
                position = cross.advance_dim(&position, cross_gap);
                content_size = cross.extend_dim(&content_size, cross_gap);
            }
            let native = line.size;
            let slack = axis_size.sub(axis.base_size(&native));
            let sum_grow = axis.dim(&native).grow;
            let sum_shrink = axis.dim(&native).shrink;
            let line_cross_room = if multi_line || cross_takes_native {
                cross.base_size(&native)
            } else {
                cross_size
            };
            axis.set_offset(&mut position, axis.offset(&offset));
            let stepped = lay_out_line(
                work,
                out,
                line.count,
                axis,
                align,
                self_ascent,
                &native,
                slack,
                sum_grow,
                sum_shrink,
                line_cross_room,
                line_cross_dyn,
                axis_gap,
                position,
                first_ascent,
            );
            work = stepped.0;
            out = stepped.1;
            position = stepped.2;
            let line_size = stepped.3;
            first_ascent = stepped.4;
            position = cross.advance_dim(&position, cross.base_size(&line_size));
            content_size = cross.extend_size(
                &content_size,
                &line_size,
                matches!(align, crate::style::AlignItems::Baseline),
            );
            li = li + 1;
            proof {
                assert(nodes_view(work@) == rest_ls.skip(line.count as int));
                assert(rest_ls.skip(line.count as int) =~= rest_ls.subrange(
                    line.count as int,
                    rest_ls.len() as int,
                ));
                lemma_nodes_height_subrange(rest_ls, line.count as int, rest_ls.len() as int);
                assert(rest_ls.take(line.count as int) =~= rest_ls.subrange(
                    0,
                    line.count as int,
                ));
            }
        }
        proof {
            assert(lv.skip(li as int) =~= Seq::<crate::children::LineView>::empty());
            assert(full == (nodes_view(out@), position, content_size, first_ascent));
        }
        axis.resolve_content_size(&mut size_local, &content_size, axis_room);
        cross.resolve_content_size(&mut size_local, &content_size, cross_room);
        padding.widen(&mut offset, &mut size_local);
        if size_local.depth().is_none() {
            let d = match first_ascent {
                Some(fa) => Some(size_local.height().sub(fa)),
                None => None,
            };
            size_local.set_depth(d);
        }
        LayoutBox {
            axis,
            offset,
            size: size_local,
            break_inside,
            style,
            children: out,
            content_size: Some(content_size),
        }
    }
}

} // verus!
