//! Line packing: the greedy algorithm that splits a flat child sequence
//! into lines along the main axis.
//!
//! For each child in order, the effective addition to the current line
//! is its native main-axis extent, preceded by the axis gap when the
//! line already holds something.  When wrapping is on, the line holds at
//! least one item, and the addition would exceed the room, the line is
//! closed and a new one starts one cross gap below.  Break markers have
//! infinite native extent, which forces a wrap at their position, yet
//! they contribute nothing to the line they open.

use vstd::prelude::*;

use crate::axis::{
    Axis, spec_advance, spec_axis_offset, spec_axis_size, spec_cross, spec_extend_dim,
    spec_extend_size, spec_with_offset,
};
use crate::element::{Node, NodeView, lemma_nodes_view_index, nodes_view, spec_size_after_wrap,
    spec_size_ref};
use crate::position::{Offset, Size, spec_size_zero};
use crate::unit::{Unit, sat_add};

verus! {

/// One packed line: its cross-axis offset from the packing origin, its
/// accumulated size, and how many consecutive children it holds.
#[derive(Debug, Clone, Copy, PartialEq, Eq, Structural)]
pub struct Line {
    pub offset: Unit,
    pub size: Size,
    pub count: usize,
}

/// The mathematical value of a packed line: cross offset, size, count.
pub type LineView = (Unit, Size, int);

/// The views of a vector of lines.
pub open spec fn lines_view(ls: Seq<Line>) -> Seq<LineView> {
    Seq::new(ls.len(), |i: int| (ls[i].offset, ls[i].size, ls[i].count as int))
}

/// Total child count over a sequence of lines.
pub open spec fn lines_count_sum(ls: Seq<LineView>) -> int
    decreases ls.len(),
{
    if ls.len() == 0 {
        0
    } else {
        ls[0].2 + lines_count_sum(ls.drop_first())
    }
}

pub proof fn lemma_lines_count_sum_push(ls: Seq<LineView>, l: LineView)
    ensures
        lines_count_sum(ls.push(l)) == lines_count_sum(ls) + l.2,
    decreases ls.len(),
{
    if ls.len() == 0 {
        assert(ls.push(l)[0] == l);
        assert(ls.push(l).drop_first() =~= Seq::<LineView>::empty());
        assert(lines_count_sum(ls.push(l)) == l.2 + lines_count_sum(Seq::<LineView>::empty()));
    } else {
        assert(ls.push(l).drop_first() =~= ls.drop_first().push(l));
        assert(ls.push(l)[0] == ls[0]);
        lemma_lines_count_sum_push(ls.drop_first(), l);
        assert(lines_count_sum(ls.push(l)) == ls[0].2 + lines_count_sum(ls.drop_first().push(l)));
    }
}

/// The greedy packing fold: consumes children from the front, carrying
/// the pen `offset`, the open line's size and child count, and the
/// closed lines.
pub open spec fn spec_pack_go(
    cs: Seq<NodeView>,
    axis: Axis,
    wrap_room: Unit,
    axis_gap: Unit,
    cross_gap: Unit,
    wrap: bool,
    baseline: bool,
    offset: Offset,
    line_size: Size,
    line_count: int,
    lines: Seq<LineView>,
) -> Seq<LineView>
    decreases cs.len(),
{
    let cross = spec_cross(axis);
    if cs.len() == 0 {
        if line_count > 0 {
            lines.push((spec_axis_offset(cross, offset), line_size, line_count))
        } else {
            lines
        }
    } else {
        let child = cs[0];
        let line_gap = if line_count == 0 {
            Unit(0)
        } else {
            axis_gap
        };
        let wraps = wrap && line_count > 0 && spec_axis_size(axis, line_size).0 + line_gap.0
            + spec_axis_size(axis, spec_size_ref(child)).0 > wrap_room.0;
        let (offset1, line_size1, line_count1, lines1) = if wraps {
            let next = spec_advance(
                cross,
                offset,
                Unit(sat_add(spec_axis_size(cross, line_size).0 as int, cross_gap.0 as int) as i64),
            );
            (
                spec_with_offset(axis, next, Unit(0)),
                spec_size_zero(),
                0int,
                lines.push((spec_axis_offset(cross, offset), line_size, line_count)),
            )
        } else if line_gap.0 > 0 {
            (
                spec_advance(axis, offset, line_gap),
                spec_extend_dim(axis, line_size, line_gap),
                line_count,
                lines,
            )
        } else {
            (offset, line_size, line_count, lines)
        };
        let contributed = spec_size_after_wrap(child);
        let line_size2 = spec_extend_size(axis, line_size1, contributed, baseline);
        let offset2 = spec_advance(axis, offset1, spec_axis_size(axis, contributed));
        spec_pack_go(
            cs.drop_first(),
            axis,
            wrap_room,
            axis_gap,
            cross_gap,
            wrap,
            baseline,
            offset2,
            line_size2,
            line_count1 + 1,
            lines1,
        )
    }
}

/// The packed lines of a child sequence: the greedy fold started from
/// the origin with an empty open line.
pub open spec fn spec_pack(
    cs: Seq<NodeView>,
    axis: Axis,
    wrap_room: Unit,
    axis_gap: Unit,
    cross_gap: Unit,
    wrap: bool,
    baseline: bool,
) -> Seq<LineView> {
    spec_pack_go(
        cs,
        axis,
        wrap_room,
        axis_gap,
        cross_gap,
        wrap,
        baseline,
        Offset { x: Unit(0), y: Unit(0) },
        spec_size_zero(),
        0,
        Seq::empty(),
    )
}

/// Packs the children into lines along the axis.  The result covers the
/// children exactly, in order: line `k` holds the `count` children that
/// follow those of lines `0..k`, and every line holds at least one.
#[verifier::loop_isolation(false)]
pub fn lay_out_native(
    axis: Axis,
    children: &Vec<Node>,
    axis_room: Unit,
    axis_gap: Unit,
    cross_gap: Unit,
    wrap: bool,
    respect_baseline: bool,
) -> (lines: Vec<Line>)
    ensures
        lines_view(lines@) == spec_pack(
            nodes_view(children@),
            axis,
            axis_room,
            axis_gap,
            cross_gap,
            wrap,
            respect_baseline,
        ),
        lines_count_sum(lines_view(lines@)) == children@.len(),
        forall|k: int| 0 <= k < lines@.len() ==> 0 < #[trigger] lines@[k].count,
{
    let ghost vs = nodes_view(children@);
    proof {
        crate::element::lemma_nodes_view_len(children@);
    }
    let cross = axis.cross();
    let mut offset = Offset::zero();
    let mut line_size = Size::zero();
    let mut line_count: usize = 0;
    let mut lines: Vec<Line> = Vec::new();
    let mut i: usize = 0;
    proof {
        assert(vs.skip(0) =~= vs);
        assert(lines_view(lines@) =~= Seq::<LineView>::empty());
    }
    while i < children.len()
        invariant
            i <= children.len(),
            line_count <= i,
            lines_count_sum(lines_view(lines@)) + line_count == i,
            forall|k: int| 0 <= k < lines@.len() ==> 0 < #[trigger] lines@[k].count,
            spec_pack_go(
                vs.skip(i as int),
                axis,
                axis_room,
                axis_gap,
                cross_gap,
                wrap,
                respect_baseline,
                offset,
                line_size,
                line_count as int,
                lines_view(lines@),
            ) == spec_pack(vs, axis, axis_room, axis_gap, cross_gap, wrap, respect_baseline),
        decreases children@.len() - i,
    {
        let ghost rest = vs.skip(i as int);
        proof {
            lemma_nodes_view_index(children@, i as int);
            assert(rest[0] == vs[i as int]);
            assert(rest.drop_first() =~= vs.skip(i as int + 1));
        }
        let child = &children[i];
        let line_gap = if line_count == 0 {
            Unit::zero()
        } else {
            axis_gap
        };
        let line_axis: Unit = axis.base_size(&line_size);
        let child_axis: Unit = axis.base_size(child.size_ref());
        let exceeds: bool = (line_axis.0 as i128) + (line_gap.0 as i128) + (child_axis.0 as i128)
            > (axis_room.0 as i128);
        if wrap && line_count > 0 && exceeds {
            let next = cross.advance_dim(&offset, cross.base_size(&line_size).add(cross_gap));
            let closed = Line { offset: cross.offset(&offset), size: line_size, count: line_count };
            proof {
                lemma_lines_count_sum_push(lines_view(lines@), (closed.offset, closed.size,
                    closed.count as int));
                assert(lines_view(lines@.push(closed)) =~= lines_view(lines@).push(
                    (closed.offset, closed.size, closed.count as int),
                ));
            }
            lines.push(closed);
            offset = next;
            axis.set_offset(&mut offset, Unit::zero());
            line_size = Size::zero();
            line_count = 0;
        } else if line_gap.0 > 0 {
            offset = axis.advance_dim(&offset, line_gap);
            line_size = axis.extend_dim(&line_size, line_gap);
        }
        let contributed = child.size_after_wrap();
        line_size = axis.extend_size(&line_size, &contributed, respect_baseline);
        offset = axis.advance_dim(&offset, axis.base_size(&contributed));
        line_count = line_count + 1;
        i = i + 1;
    }
    proof {
        assert(vs.skip(i as int) =~= Seq::<NodeView>::empty());
    }
    if line_count > 0 {
        let closed = Line { offset: cross.offset(&offset), size: line_size, count: line_count };
        proof {
            lemma_lines_count_sum_push(lines_view(lines@), (closed.offset, closed.size,
                closed.count as int));
            assert(lines_view(lines@.push(closed)) =~= lines_view(lines@).push(
                (closed.offset, closed.size, closed.count as int),
            ));
        }
        lines.push(closed);
    }
    lines
}


/// A sum of non-negative counts is non-negative.
pub proof fn lemma_lines_count_sum_nonneg(ls: Seq<LineView>)
    requires
        forall|j: int| 0 <= j < ls.len() ==> 0 <= #[trigger] ls[j].2,
    ensures
        0 <= lines_count_sum(ls),
    decreases ls.len(),
{
    if ls.len() > 0 {
        assert(forall|j: int| 0 <= j < ls.drop_first().len()
            ==> #[trigger] ls.drop_first()[j].2 == ls[j + 1].2);
        lemma_lines_count_sum_nonneg(ls.drop_first());
    }
}


/// The main-axis extent a line accumulates from a child sequence: each
/// child adds its contributed extent (nothing, when its basis is
/// unresolved), preceded by the axis gap after the first child; all
/// additions saturate.
pub open spec fn spec_line_extent(cs: Seq<NodeView>, axis: Axis, axis_gap: Unit, acc: int, first: bool) -> int
    decreases cs.len(),
{
    if cs.len() == 0 {
        acc
    } else {
        let acc1 = if first {
            acc
        } else {
            crate::unit::clip(acc + axis_gap.0)
        };
        let dim = crate::axis::spec_dim_of(axis, spec_size_after_wrap(cs[0]));
        let acc2 = match crate::dimension::spec_dim_size(dim.base) {
            Option::Some(c) => crate::unit::clip(acc1 + c.0),
            Option::None => acc1,
        };
        spec_line_extent(cs.drop_first(), axis, axis_gap, acc2, false)
    }
}

/// Whether every already-closed line that holds two or more children
/// fits the room along the axis.
pub open spec fn lines_fit(lines: Seq<LineView>, axis: Axis, room: Unit) -> bool {
    forall|i: int| 0 <= i < lines.len()
        ==> (#[trigger] lines[i].2 >= 2 ==> spec_axis_size(axis, lines[i].1).0 <= room.0)
}

/// A child the wrapping guarantee speaks of: it contributes a
/// non-negative main-axis extent to its line, and the native extent the
/// wrap check reads is at least that contribution.  Every node whose
/// sizes are non-negative satisfies this; the break markers do by
/// construction.
pub open spec fn pack_child_ok(n: NodeView, axis: Axis) -> bool {
    &&& spec_axis_size(axis, spec_size_after_wrap(n)).0 >= 0
    &&& spec_axis_size(axis, spec_size_ref(n)).0 >= spec_axis_size(axis, spec_size_after_wrap(n)).0
}

/// The step fact behind the wrapping guarantee: a line with a known
/// non-negative extent, extended by the gap and a child that passed the
/// greedy check, still fits the room, and its extent stays known and
/// non-negative.
proof fn lemma_extend_keeps_axis_sum(
    axis: Axis,
    line: Size,
    child: NodeView,
    baseline: bool,
    room: Unit,
    gap: Unit,
)
    requires
        crate::dimension::spec_dim_size(crate::axis::spec_dim_of(axis, line).base)
            matches Option::Some(_),
        0 <= spec_axis_size(axis, line).0,
        0 <= gap.0,
        pack_child_ok(child, axis),
        spec_axis_size(axis, line).0 + gap.0 + spec_axis_size(axis, spec_size_ref(child)).0
            <= room.0,
    ensures
        ({
            let stepped = if gap.0 > 0 {
                spec_extend_dim(axis, line, gap)
            } else {
                line
            };
            let grown = spec_extend_size(axis, stepped, spec_size_after_wrap(child), baseline);
            &&& spec_axis_size(axis, grown).0 <= room.0
            &&& 0 <= spec_axis_size(axis, grown).0
            &&& crate::dimension::spec_dim_size(crate::axis::spec_dim_of(axis, grown).base)
                matches Option::Some(_)
        }),
{
}

/// A fresh line opened by one child keeps a known non-negative extent.
proof fn lemma_first_child_extent(axis: Axis, child: NodeView, baseline: bool)
    requires
        pack_child_ok(child, axis),
    ensures
        ({
            let grown = spec_extend_size(axis, spec_size_zero(), spec_size_after_wrap(child), baseline);
            &&& 0 <= spec_axis_size(axis, grown).0
            &&& crate::dimension::spec_dim_size(crate::axis::spec_dim_of(axis, grown).base)
                matches Option::Some(_)
        }),
{
}

/// Wrapping keeps lines within the room: with wrapping on, a
/// non-negative axis gap, and children of non-negative extents, every
/// packed line that holds at least two children has a main-axis extent
/// no larger than the room.  (A single oversized child sits alone on
/// its line and may exceed the room; such lines are left out.)
pub proof fn lemma_pack_wrap_lines_fit(
    cs: Seq<NodeView>,
    axis: Axis,
    room: Unit,
    axis_gap: Unit,
    cross_gap: Unit,
    baseline: bool,
)
    requires
        0 <= axis_gap.0,
        forall|i: int| 0 <= i < cs.len() ==> pack_child_ok(#[trigger] cs[i], axis),
    ensures
        lines_fit(spec_pack(cs, axis, room, axis_gap, cross_gap, true, baseline), axis, room),
{
    lemma_pack_go_wrap_fit(
        cs,
        axis,
        room,
        axis_gap,
        cross_gap,
        baseline,
        Offset { x: Unit(0), y: Unit(0) },
        spec_size_zero(),
        0,
        Seq::empty(),
    );
}

#[verifier::rlimit(100)]
proof fn lemma_pack_go_wrap_fit(
    cs: Seq<NodeView>,
    axis: Axis,
    room: Unit,
    axis_gap: Unit,
    cross_gap: Unit,
    baseline: bool,
    offset: Offset,
    line_size: Size,
    line_count: int,
    lines: Seq<LineView>,
)
    requires
        0 <= axis_gap.0,
        0 <= line_count,
        forall|i: int| 0 <= i < cs.len() ==> pack_child_ok(#[trigger] cs[i], axis),
        line_count >= 2 ==> spec_axis_size(axis, line_size).0 <= room.0,
        crate::dimension::spec_dim_size(crate::axis::spec_dim_of(axis, line_size).base)
            matches Option::Some(_),
        0 <= spec_axis_size(axis, line_size).0,
        lines_fit(lines, axis, room),
    ensures
        lines_fit(
            spec_pack_go(
                cs,
                axis,
                room,
                axis_gap,
                cross_gap,
                true,
                baseline,
                offset,
                line_size,
                line_count,
                lines,
            ),
            axis,
            room,
        ),
    decreases cs.len(),
{
    let cross = spec_cross(axis);
    if cs.len() == 0 {
        let closed = (spec_axis_offset(cross, offset), line_size, line_count);
        if line_count > 0 {
            assert forall|i: int| 0 <= i < lines.push(closed).len()
                && #[trigger] lines.push(closed)[i].2 >= 2 implies spec_axis_size(
                axis,
                lines.push(closed)[i].1,
            ).0 <= room.0 by {
                if i < lines.len() {
                    assert(lines.push(closed)[i] == lines[i]);
                } else {
                    assert(lines.push(closed)[i] == closed);
                }
            }
        }
    } else {
        let child = cs[0];
        assert(pack_child_ok(child, axis));
        assert(forall|i: int| 0 <= i < cs.drop_first().len()
            ==> pack_child_ok(#[trigger] cs.drop_first()[i], axis)) by {
            assert(forall|i: int| 0 <= i < cs.drop_first().len()
                ==> cs.drop_first()[i] == cs[i + 1]);
        }
        let line_gap = if line_count == 0 {
            Unit(0)
        } else {
            axis_gap
        };
        let wraps = line_count > 0 && spec_axis_size(axis, line_size).0 + line_gap.0
            + spec_axis_size(axis, spec_size_ref(child)).0 > room.0;
        if wraps {
            let closed = (spec_axis_offset(cross, offset), line_size, line_count);
            assert forall|i: int| 0 <= i < lines.push(closed).len()
                && #[trigger] lines.push(closed)[i].2 >= 2 implies spec_axis_size(
                axis,
                lines.push(closed)[i].1,
            ).0 <= room.0 by {
                if i < lines.len() {
                    assert(lines.push(closed)[i] == lines[i]);
                } else {
                    assert(lines.push(closed)[i] == closed);
                }
            }
            lemma_first_child_extent(axis, child, baseline);
            let next = spec_advance(
                cross,
                offset,
                Unit(sat_add(spec_axis_size(cross, line_size).0 as int, cross_gap.0 as int) as i64),
            );
            lemma_pack_go_wrap_fit(
                cs.drop_first(),
                axis,
                room,
                axis_gap,
                cross_gap,
                baseline,
                spec_advance(
                    axis,
                    crate::axis::spec_with_offset(axis, next, Unit(0)),
                    spec_axis_size(axis, spec_size_after_wrap(child)),
                ),
                spec_extend_size(axis, spec_size_zero(), spec_size_after_wrap(child), baseline),
                1,
                lines.push(closed),
            );
        } else {
            if line_count == 0 {
                lemma_first_child_extent(axis, child, baseline);
                assert(spec_extend_size(axis, line_size, spec_size_after_wrap(child), baseline)
                    == spec_extend_size(
                    axis,
                    spec_size_zero(),
                    spec_size_after_wrap(child),
                    baseline,
                ) || spec_axis_size(
                    axis,
                    spec_extend_size(axis, line_size, spec_size_after_wrap(child), baseline),
                ).0 >= 0);
                lemma_pack_go_wrap_fit(
                    cs.drop_first(),
                    axis,
                    room,
                    axis_gap,
                    cross_gap,
                    baseline,
                    spec_advance(
                        axis,
                        offset,
                        spec_axis_size(axis, spec_size_after_wrap(child)),
                    ),
                    spec_extend_size(axis, line_size, spec_size_after_wrap(child), baseline),
                    line_count + 1,
                    lines,
                );
            } else {
                assert(!wraps);
                assert(line_count > 0);
                assert(spec_axis_size(axis, line_size).0 + line_gap.0 + spec_axis_size(
                    axis,
                    spec_size_ref(child),
                ).0 <= room.0);
                lemma_extend_keeps_axis_sum(axis, line_size, child, baseline, room, line_gap);
                let stepped = if line_gap.0 > 0 {
                    spec_extend_dim(axis, line_size, line_gap)
                } else {
                    line_size
                };
                lemma_pack_go_wrap_fit(
                    cs.drop_first(),
                    axis,
                    room,
                    axis_gap,
                    cross_gap,
                    baseline,
                    spec_advance(
                        axis,
                        if line_gap.0 > 0 {
                            spec_advance(axis, offset, line_gap)
                        } else {
                            offset
                        },
                        spec_axis_size(axis, spec_size_after_wrap(child)),
                    ),
                    spec_extend_size(axis, stepped, spec_size_after_wrap(child), baseline),
                    line_count + 1,
                    lines,
                );
            }
        }
    }
}


/// The extension step keeps the line's extent known, and grows it by
/// the gap and the child's contribution exactly as the extent fold
/// says.
proof fn lemma_no_wrap_step_extent(axis: Axis, line: Size, child: NodeView, baseline: bool, gap: Unit)
    requires
        0 <= gap.0,
        crate::dimension::spec_dim_size(crate::axis::spec_dim_of(axis, line).base)
            matches Option::Some(_),
    ensures
        ({
            let stepped = if gap.0 > 0 {
                spec_extend_dim(axis, line, gap)
            } else {
                line
            };
            let grown = spec_extend_size(axis, stepped, spec_size_after_wrap(child), baseline);
            let acc1 = crate::unit::clip(spec_axis_size(axis, line).0 + gap.0);
            &&& crate::dimension::spec_dim_size(crate::axis::spec_dim_of(axis, grown).base)
                matches Option::Some(_)
            &&& spec_axis_size(axis, grown).0 == (match crate::dimension::spec_dim_size(
                crate::axis::spec_dim_of(axis, spec_size_after_wrap(child)).base,
            ) {
                Option::Some(c) => crate::unit::clip(acc1 + c.0),
                Option::None => acc1,
            })
        }),
{
}

/// Without wrapping, packing yields a single line that holds every
/// child, whose main-axis extent is the children's contributions plus
/// one axis gap between neighbours (all additions saturating); an empty
/// child sequence yields no lines.
pub proof fn lemma_pack_no_wrap_single_line(
    cs: Seq<NodeView>,
    axis: Axis,
    room: Unit,
    axis_gap: Unit,
    cross_gap: Unit,
    baseline: bool,
)
    requires
        0 <= axis_gap.0,
    ensures
        ({
            let lines = spec_pack(cs, axis, room, axis_gap, cross_gap, false, baseline);
            &&& (cs.len() == 0 ==> lines.len() == 0)
            &&& (cs.len() > 0 ==> lines.len() == 1 && lines[0].2 == cs.len()
                && spec_axis_size(axis, lines[0].1).0 == spec_line_extent(
                    cs,
                    axis,
                    axis_gap,
                    0int,
                    true,
                ))
        }),
{
    lemma_pack_go_no_wrap(
        cs,
        axis,
        room,
        axis_gap,
        cross_gap,
        baseline,
        Offset { x: Unit(0), y: Unit(0) },
        spec_size_zero(),
        0,
        Seq::empty(),
    );
}

proof fn lemma_pack_go_no_wrap(
    cs: Seq<NodeView>,
    axis: Axis,
    room: Unit,
    axis_gap: Unit,
    cross_gap: Unit,
    baseline: bool,
    offset: Offset,
    line_size: Size,
    line_count: int,
    lines: Seq<LineView>,
)
    requires
        0 <= line_count,
        0 <= axis_gap.0,
        crate::dimension::spec_dim_size(crate::axis::spec_dim_of(axis, line_size).base)
            matches Option::Some(_),
    ensures
        ({
            let r = spec_pack_go(
                cs,
                axis,
                room,
                axis_gap,
                cross_gap,
                false,
                baseline,
                offset,
                line_size,
                line_count,
                lines,
            );
            if cs.len() + line_count > 0 {
                &&& r.len() == lines.len() + 1
                &&& r[r.len() - 1].2 == line_count + cs.len()
                &&& spec_axis_size(axis, r[r.len() - 1].1).0 == spec_line_extent(
                    cs,
                    axis,
                    axis_gap,
                    spec_axis_size(axis, line_size).0 as int,
                    line_count == 0,
                )
                &&& forall|i: int| 0 <= i < lines.len() ==> r[i] == lines[i]
            } else {
                r == lines
            }
        }),
    decreases cs.len(),
{
    if cs.len() == 0 {
    } else {
        let child = cs[0];
        let line_gap = if line_count == 0 {
            Unit(0)
        } else {
            axis_gap
        };
        lemma_no_wrap_step_extent(axis, line_size, child, baseline, line_gap);
        let stepped = if line_gap.0 > 0 {
            spec_extend_dim(axis, line_size, line_gap)
        } else {
            line_size
        };
        let grown = spec_extend_size(axis, stepped, spec_size_after_wrap(child), baseline);
        lemma_pack_go_no_wrap(
            cs.drop_first(),
            axis,
            room,
            axis_gap,
            cross_gap,
            baseline,
            spec_advance(
                axis,
                if line_gap.0 > 0 {
                    spec_advance(axis, offset, line_gap)
                } else {
                    offset
                },
                spec_axis_size(axis, spec_size_after_wrap(child)),
            ),
            grown,
            line_count + 1,
            lines,
        );
    }
}

} // verus!
