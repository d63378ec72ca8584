//! The render walk: the third pass over a finalized tree.
//!
//! Rendering makes no decision on any sink response, so the kernel
//! computes the full list of primitives as a pure function of the tree:
//! page-break requests, border strokes between the box corners, debug
//! frames, glyph-run placements and page breaks, in the order the sink
//! must receive them.  The rendering collaborator walks the list and
//! performs each operation against the real sink; shaped glyph runs are
//! kept on that side, keyed by the text leaf's index in traversal
//! order.

use vstd::prelude::*;

use crate::element::{
    Node, NodeView, lemma_nodes_height_index, lemma_nodes_view_index, lemma_nodes_view_len,
    node_height, nodes_height, nodes_view,
};
use crate::position::{Offset, Quad, Size};
use crate::style::{Border, Stroke, Style};
use crate::unit::{Unit, sat_add};

verus! {

/// Options handed to the render sink when a new page is requested: an
/// optional margin, an optional page size, and optionally the rectangle
/// that must fit on the current page for the break to be skipped.
#[derive(Debug)]
pub struct NewPageOptions {
    pub margin: Option<Quad>,
    pub size: Option<Size>,
    pub break_if_not_room: Option<(Offset, Size)>,
}

impl NewPageOptions {
    pub fn new() -> (r: Self)
        ensures
            r == (NewPageOptions {
                margin: Option::<Quad>::None,
                size: Option::<Size>::None,
                break_if_not_room: Option::<(Offset, Size)>::None,
            }),
    {
        NewPageOptions { margin: None, size: None, break_if_not_room: None }
    }

    pub fn with_margin(self, margin: Quad) -> (r: Self)
        ensures
            r == (NewPageOptions { margin: Option::Some(margin), ..self }),
    {
        NewPageOptions { margin: Some(margin), ..self }
    }

    pub fn with_size(self, size: Size) -> (r: Self)
        ensures
            r == (NewPageOptions { size: Option::Some(size), ..self }),
    {
        NewPageOptions { size: Some(size), ..self }
    }

    /// Asks for a page break only where the given rectangle does not
    /// fit on the current page.
    pub fn with_break_if_not_room(self, at: Offset, size: Size) -> (r: Self)
        ensures
            r == (NewPageOptions { break_if_not_room: Option::Some((at, size)), ..self }),
    {
        NewPageOptions { break_if_not_room: Some((at, size)), ..self }
    }
}

/// One primitive of the render walk, in sink order.
#[derive(Debug)]
pub enum RenderOp {
    /// A page break request for a box that avoids inner breaks: break
    /// only if the rectangle does not fit on the current page.
    BreakIfNoRoom { at: Offset, size: Size },
    /// An absolute container registers its bounding strip against the
    /// sink's page-break bookkeeping before its content is emitted.
    CheckPageBreak { y: Unit, height: Unit },
    /// Releases the reservation of the last `CheckPageBreak`.
    ReleaseBreakReservation,
    /// One border stroke between two corners.
    BorderLine { from: Offset, to: Offset, stroke: Stroke },
    /// A shaped glyph run committed at an offset under a style; the
    /// collaborator holds the run itself, keyed by the text leaf's
    /// index in traversal order.
    GlyphRun { leaf: usize, at: Offset, style: Style },
    /// A diagnostic bounding rectangle.
    DebugFrame { at: Offset, size: Size },
    /// An unconditional new page.
    NewPage,
}

/// The bottom-right corner of a laid-out rectangle.
pub open spec fn spec_corner(offset: Offset, size: Size) -> Offset {
    Offset {
        x: Unit(sat_add(offset.x.0 as int, crate::dimension::spec_base_size(size.width).0 as int) as i64),
        y: Unit(sat_add(offset.y.0 as int, crate::dimension::spec_base_size(size.height).0 as int) as i64),
    }
}

/// The border strokes of a rectangle, clockwise from the top side:
/// top, right, bottom, left, one line per present side.
pub open spec fn spec_border_ops(offset: Offset, size: Size, border: Border, acc: Seq<RenderOp>) -> Seq<RenderOp> {
    let tl = offset;
    let br = spec_corner(offset, size);
    let acc1 = match border.top {
        Option::Some(stroke) => acc.push(
            RenderOp::BorderLine { from: tl, to: Offset { x: br.x, y: tl.y }, stroke },
        ),
        Option::None => acc,
    };
    let acc2 = match border.right {
        Option::Some(stroke) => acc1.push(
            RenderOp::BorderLine { from: Offset { x: br.x, y: tl.y }, to: br, stroke },
        ),
        Option::None => acc1,
    };
    let acc3 = match border.bottom {
        Option::Some(stroke) => acc2.push(
            RenderOp::BorderLine { from: br, to: Offset { x: tl.x, y: br.y }, stroke },
        ),
        Option::None => acc2,
    };
    match border.left {
        Option::Some(stroke) => acc3.push(
            RenderOp::BorderLine { from: Offset { x: tl.x, y: br.y }, to: tl, stroke },
        ),
        Option::None => acc3,
    }
}

/// The render walk of one node: what it appends to the operation list,
/// and the next text-leaf index.  A flowing container first requests an
/// avoid-break check if it declares one, then its children in order,
/// then its border lines, then its debug frame.  An absolute container
/// brackets the same sequence in a page-break reservation.  A shaped
/// text leaf commits its glyph run; an unshaped or empty one is
/// skipped.  A page break requests a new page; fillers and line breaks
/// contribute nothing.
pub open spec fn spec_render_node(n: NodeView, leaf: usize, acc: Seq<RenderOp>) -> (
    Seq<RenderOp>,
    usize,
)
    decreases node_height(n), 1nat, 0nat,
{
    match n {
        NodeView::Box(b) => {
            let acc1 = if !b.break_inside {
                acc.push(RenderOp::BreakIfNoRoom { at: b.offset, size: b.size })
            } else {
                acc
            };
            let st = spec_render_children(b.children, leaf, acc1);
            let acc2 = spec_border_ops(b.offset, b.size, b.style.border, st.0);
            (acc2.push(RenderOp::DebugFrame { at: b.offset, size: b.size }), st.1)
        },
        NodeView::Block(b) => {
            let acc1 = acc.push(
                RenderOp::CheckPageBreak {
                    y: b.offset.y,
                    height: crate::dimension::spec_base_size(b.size.height),
                },
            );
            let st = spec_render_children(b.children, leaf, acc1);
            let acc2 = spec_border_ops(b.offset, b.size, b.style.border, st.0);
            (
                acc2.push(RenderOp::DebugFrame { at: b.offset, size: b.size }).push(
                    RenderOp::ReleaseBreakReservation,
                ),
                st.1,
            )
        },
        NodeView::Text(t) => {
            let acc1 = if (t.shape matches Option::Some(_)) {
                acc.push(RenderOp::GlyphRun { leaf, at: t.offset, style: t.style }).push(
                    RenderOp::DebugFrame { at: t.offset, size: t.size },
                )
            } else {
                acc
            };
            let next = if leaf < usize::MAX {
                (leaf + 1) as usize
            } else {
                leaf
            };
            (acc1, next)
        },
        NodeView::PageBreak(_) => (acc.push(RenderOp::NewPage), leaf),
        _ => (acc, leaf),
    }
}

/// The render walk of a child sequence, left to right, threading the
/// text-leaf index.
pub open spec fn spec_render_children(cs: Seq<NodeView>, leaf: usize, acc: Seq<RenderOp>) -> (
    Seq<RenderOp>,
    usize,
)
    decreases nodes_height(cs), 0nat, cs.len(),
    via spec_render_children_decreases
{
    if cs.len() == 0 {
        (acc, leaf)
    } else {
        let st = spec_render_node(cs[0], leaf, acc);
        spec_render_children(cs.drop_first(), st.1, st.0)
    }
}

#[via_fn]
proof fn spec_render_children_decreases(cs: Seq<NodeView>, leaf: usize, acc: Seq<RenderOp>) {
    if cs.len() > 0 {
        lemma_nodes_height_index(cs, 0);
        assert(cs.drop_first() =~= cs.subrange(1, cs.len() as int));
        crate::element::lemma_nodes_height_subrange(cs, 1, cs.len() as int);
    }
}

/// The full operation list of a finalized tree, in sink order, with
/// text leaves numbered from zero in traversal order.
pub open spec fn spec_render_plan(root: NodeView) -> Seq<RenderOp> {
    spec_render_node(root, 0, Seq::empty()).0
}

/// Appends one node's render operations and returns the next text-leaf
/// index.
#[verifier::loop_isolation(false)]
pub fn render_node(node: &Node, leaf: usize, ops: &mut Vec<RenderOp>) -> (r: usize)
    ensures
        ({
            let st = spec_render_node(node@, leaf, old(ops)@);
            final(ops)@ == st.0 && r == st.1
        }),
    decreases node_height(node@), 1nat,
{
    match node {
        Node::Box(b) => {
            if !b.break_inside {
                ops.push(RenderOp::BreakIfNoRoom { at: b.offset, size: b.size });
            }
            let next = render_children(&b.children, leaf, ops);
            push_border_ops(b.offset, b.size, &b.style, ops);
            ops.push(RenderOp::DebugFrame { at: b.offset, size: b.size });
            next
        },
        Node::Block(b) => {
            ops.push(RenderOp::CheckPageBreak { y: b.offset.y, height: b.size.height() });
            let next = render_children(&b.children, leaf, ops);
            push_border_ops(b.offset, b.size, &b.style, ops);
            ops.push(RenderOp::DebugFrame { at: b.offset, size: b.size });
            ops.push(RenderOp::ReleaseBreakReservation);
            next
        },
        Node::Text(t) => {
            if t.shape.is_some() {
                ops.push(RenderOp::GlyphRun { leaf, at: t.offset, style: t.style.duplicate() });
                ops.push(RenderOp::DebugFrame { at: t.offset, size: t.size });
            }
            if leaf < usize::MAX {
                leaf + 1
            } else {
                leaf
            }
        },
        Node::PageBreak(_) => {
            ops.push(RenderOp::NewPage);
            leaf
        },
        _ => leaf,
    }
}

/// Appends the border lines of a rectangle: top, right, bottom, left.
fn push_border_ops(offset: Offset, size: Size, style: &Style, ops: &mut Vec<RenderOp>)
    ensures
        final(ops)@ == spec_border_ops(offset, size, style.border, old(ops)@),
{
    let tl = offset;
    let br = Offset { x: tl.x.add(size.width()), y: tl.y.add(size.height()) };
    if let Some(stroke) = style.border.top {
        ops.push(RenderOp::BorderLine { from: tl, to: Offset { x: br.x, y: tl.y }, stroke });
    }
    if let Some(stroke) = style.border.right {
        ops.push(RenderOp::BorderLine { from: Offset { x: br.x, y: tl.y }, to: br, stroke });
    }
    if let Some(stroke) = style.border.bottom {
        ops.push(RenderOp::BorderLine { from: br, to: Offset { x: tl.x, y: br.y }, stroke });
    }
    if let Some(stroke) = style.border.left {
        ops.push(RenderOp::BorderLine { from: Offset { x: tl.x, y: br.y }, to: tl, stroke });
    }
}

/// Appends the render operations of a child sequence, left to right.
#[verifier::loop_isolation(false)]
pub fn render_children(children: &Vec<Node>, leaf: usize, ops: &mut Vec<RenderOp>) -> (r: usize)
    ensures
        ({
            let st = spec_render_children(nodes_view(children@), leaf, old(ops)@);
            final(ops)@ == st.0 && r == st.1
        }),
    decreases nodes_height(nodes_view(children@)), 0nat,
{
    let ghost vs = nodes_view(children@);
    proof {
        lemma_nodes_view_len(children@);
    }
    let ghost full = spec_render_children(vs, leaf, ops@);
    let mut next = leaf;
    let mut i: usize = 0;
    proof {
        assert(vs.skip(0) =~= vs);
    }
    while i < children.len()
        invariant
            i <= children.len(),
            spec_render_children(vs.skip(i as int), next, ops@) == full,
        decreases children@.len() - i,
    {
        proof {
            lemma_nodes_view_index(children@, i as int);
            assert(vs.skip(i as int)[0] == vs[i as int]);
            lemma_nodes_height_index(vs, i as int);
        }
        let child = &children[i];
        next = render_node(child, next, ops);
        proof {
            assert(vs.skip(i as int).drop_first() =~= vs.skip(i as int + 1));
        }
        i = i + 1;
    }
    proof {
        assert(vs.skip(i as int) =~= Seq::<NodeView>::empty());
    }
    next
}

/// The full render walk: the list of primitives the sink must perform,
/// in order, for a finalized tree.
pub fn render_plan(root: &Node) -> (r: Vec<RenderOp>)
    ensures
        r@ == spec_render_plan(root@),
{
    let mut ops: Vec<RenderOp> = Vec::new();
    proof {
        assert(ops@ =~= Seq::<RenderOp>::empty());
    }
    let _ = render_node(root, 0, &mut ops);
    ops
}

} // verus!
