//! The polymorphic layout nodes.
//!
//! A `Node` is one of: a flowing container (`LayoutBox`), an
//! absolute-positioned container (`BlockBox`), a stretchable filler
//! (`Filling`), a forced line break (`Wrap`), a forced page break
//! (`PageBreak`), or a text leaf (`Text`).  Parents own their children
//! exclusively; the tree has no cycles and no back-pointers.
//!
//! Contracts speak of trees through the mathematical view `NodeView`,
//! in which a container's children are a sequence of views.

pub mod blockbox;
pub mod filling;
pub mod layoutbox;
pub mod page_break;
pub mod text;
pub mod wrap;

use vstd::prelude::*;

use crate::axis::Axis;
use crate::font::TextExtent;
use crate::position::{Offset, Size};
use crate::style::{Style, spec_apply_style, spec_style_inherit};
use crate::unit::Unit;

pub use blockbox::BlockBox;
pub use filling::Filling;
pub use layoutbox::LayoutBox;
pub use page_break::PageBreak;
pub use text::Text;
pub use wrap::Wrap;

verus! {

/// One node of the layout tree.
#[derive(Debug)]
pub enum Node {
    Box(LayoutBox),
    Block(BlockBox),
    Filling(Filling),
    Wrap(Wrap),
    PageBreak(PageBreak),
    Text(Text),
}

/// The mathematical value of a layout tree.
pub enum NodeView {
    Box(BoxView),
    Block(BlockView),
    Filling(FillingView),
    Wrap(WrapView),
    PageBreak(PageBreakView),
    Text(TextView),
}

pub struct BoxView {
    pub axis: Axis,
    pub offset: Offset,
    pub size: Size,
    pub break_inside: bool,
    pub style: Style,
    pub children: Seq<NodeView>,
    pub content_size: Option<Size>,
}

pub struct BlockView {
    pub offset: Offset,
    pub size: Size,
    pub style: Style,
    pub children: Seq<NodeView>,
}

pub struct FillingView {
    pub axis: Axis,
    pub offset: Offset,
    pub size: Size,
    pub style: Style,
    pub content_size: Option<Size>,
}

pub struct WrapView {
    pub axis: Axis,
    pub offset: Offset,
    pub size: Size,
    pub style: Style,
}

pub struct PageBreakView {
    pub offset: Offset,
    pub size: Size,
    pub style: Style,
}

pub struct TextView {
    pub offset: Offset,
    pub size: Size,
    pub style: Style,
    pub content: Seq<char>,
    pub shape: Option<TextExtent>,
}

/// The view of a sequence of nodes.
pub open spec fn nodes_view(cs: Seq<Node>) -> Seq<NodeView>
    decreases cs,
{
    if cs.len() == 0 {
        Seq::empty()
    } else {
        seq![cs[0]@] + nodes_view(cs.drop_first())
    }
}

impl View for Node {
    type V = NodeView;

    open spec fn view(&self) -> NodeView
        decreases self,
    {
        match self {
            Node::Box(b) => NodeView::Box(b@),
            Node::Block(b) => NodeView::Block(b@),
            Node::Filling(f) => NodeView::Filling(f@),
            Node::Wrap(w) => NodeView::Wrap(w@),
            Node::PageBreak(p) => NodeView::PageBreak(p@),
            Node::Text(t) => NodeView::Text(t@),
        }
    }
}

/// The view of a longer sequence extends the view of its front.
pub proof fn lemma_nodes_view_push(cs: Seq<Node>, n: Node)
    ensures
        nodes_view(cs.push(n)) =~= nodes_view(cs).push(n@),
    decreases cs.len(),
{
    if cs.len() == 0 {
        assert(cs.push(n).drop_first() =~= Seq::<Node>::empty());
        assert(cs.push(n)[0] == n);
        assert(nodes_view(cs.push(n)) == seq![cs.push(n)[0]@] + nodes_view(
            cs.push(n).drop_first(),
        ));
        assert(nodes_view(Seq::<Node>::empty()) == Seq::<NodeView>::empty());
        assert(nodes_view(cs) == Seq::<NodeView>::empty());
    } else {
        assert(cs.push(n).drop_first() =~= cs.drop_first().push(n));
        lemma_nodes_view_push(cs.drop_first(), n);
        assert(nodes_view(cs.push(n)) == seq![cs.push(n)[0]@] + nodes_view(
            cs.push(n).drop_first(),
        ));
        assert(nodes_view(cs) == seq![cs[0]@] + nodes_view(cs.drop_first()));
        assert(cs.push(n)[0] == cs[0]);
    }
}

/// Views index pointwise.
pub proof fn lemma_nodes_view_index(cs: Seq<Node>, i: int)
    requires
        0 <= i < cs.len(),
    ensures
        nodes_view(cs).len() == cs.len(),
        nodes_view(cs)[i] == cs[i]@,
    decreases cs.len(),
{
    lemma_nodes_view_len(cs);
    lemma_nodes_view_len(cs.drop_first());
    assert(nodes_view(cs) == seq![cs[0]@] + nodes_view(cs.drop_first()));
    if i > 0 {
        lemma_nodes_view_index(cs.drop_first(), i - 1);
        assert(nodes_view(cs)[i] == nodes_view(cs.drop_first())[i - 1]);
    } else {
        assert(nodes_view(cs)[0] == cs[0]@);
    }
}

pub proof fn lemma_nodes_view_len(cs: Seq<Node>)
    ensures
        nodes_view(cs).len() == cs.len(),
    decreases cs.len(),
{
    if cs.len() > 0 {
        lemma_nodes_view_len(cs.drop_first());
        assert(nodes_view(cs) == seq![cs[0]@] + nodes_view(cs.drop_first()));
    } else {
        assert(nodes_view(cs) == Seq::<NodeView>::empty());
    }
}

/// The structural height of a node's view: leaves have height zero, and
/// a container stands one above its tallest child.
pub open spec fn node_height(n: NodeView) -> nat
    decreases n,
{
    match n {
        NodeView::Box(b) => nodes_height(b.children) + 1,
        NodeView::Block(b) => nodes_height(b.children) + 1,
        _ => 0,
    }
}

/// One more than the tallest height among the views of a sequence (zero
/// for an empty sequence), so that every member is strictly lower.
pub open spec fn nodes_height(cs: Seq<NodeView>) -> nat
    decreases cs,
{
    if cs.len() == 0 {
        0
    } else {
        let first: nat = node_height(cs[0]) + 1;
        let rest = nodes_height(cs.drop_first());
        if first >= rest {
            first
        } else {
            rest
        }
    }
}

/// Every member of a sequence stands strictly below the sequence's
/// height.
pub proof fn lemma_nodes_height_index(cs: Seq<NodeView>, i: int)
    requires
        0 <= i < cs.len(),
    ensures
        node_height(cs[i]) < nodes_height(cs),
    decreases cs.len(),
{
    if i > 0 {
        lemma_nodes_height_index(cs.drop_first(), i - 1);
    }
}

/// A contiguous part of a sequence is no taller than the whole.
pub proof fn lemma_nodes_height_subrange(cs: Seq<NodeView>, a: int, b: int)
    requires
        0 <= a <= b <= cs.len(),
    ensures
        nodes_height(cs.subrange(a, b)) <= nodes_height(cs),
    decreases b - a,
{
    if a < b {
        let sub = cs.subrange(a, b);
        assert(sub.drop_first() =~= cs.subrange(a + 1, b));
        lemma_nodes_height_subrange(cs, a + 1, b);
        lemma_nodes_height_index(cs, a);
    }
}

/// The native size of a node, as the packing step reads it for the wrap
/// decision; break markers read as infinite along their axis.
pub open spec fn spec_size_ref(n: NodeView) -> Size {
    match n {
        NodeView::Box(b) => b.size,
        NodeView::Block(b) => b.size,
        NodeView::Filling(f) => f.size,
        NodeView::Wrap(w) => w.size,
        NodeView::PageBreak(p) => p.size,
        NodeView::Text(t) => t.size,
    }
}

/// An entirely unset size, as the break markers contribute to a line.
pub open spec fn spec_size_none() -> Size {
    Size {
        width: crate::dimension::spec_flex_content(),
        height: crate::dimension::spec_flex_content(),
        depth: Option::None,
    }
}

/// The size a node contributes to its line once the wrap decision is
/// made: break markers contribute nothing.
pub open spec fn spec_size_after_wrap(n: NodeView) -> Size {
    match n {
        NodeView::Wrap(_) => spec_size_none(),
        NodeView::PageBreak(_) => spec_size_none(),
        _ => spec_size_ref(n),
    }
}

/// The bounding size of a node after lay-out: a filler reports the room
/// it received, break markers report nothing.
pub open spec fn spec_size_after_lay_out(n: NodeView) -> Size {
    match n {
        NodeView::Filling(f) => match f.content_size {
            Option::Some(s) => s,
            Option::None => Size {
                width: crate::dimension::spec_flex_fixed(Unit(0)),
                height: crate::dimension::spec_flex_fixed(Unit(0)),
                depth: Option::None,
            },
        },
        NodeView::Wrap(_) => spec_size_none(),
        NodeView::PageBreak(_) => spec_size_none(),
        _ => spec_size_ref(n),
    }
}

pub open spec fn spec_offset_of(n: NodeView) -> Offset {
    match n {
        NodeView::Box(b) => b.offset,
        NodeView::Block(b) => b.offset,
        NodeView::Filling(f) => f.offset,
        NodeView::Wrap(w) => w.offset,
        NodeView::PageBreak(p) => p.offset,
        NodeView::Text(t) => t.offset,
    }
}

pub open spec fn spec_style_of(n: NodeView) -> Style {
    match n {
        NodeView::Box(b) => b.style,
        NodeView::Block(b) => b.style,
        NodeView::Filling(f) => f.style,
        NodeView::Wrap(w) => w.style,
        NodeView::PageBreak(p) => p.style,
        NodeView::Text(t) => t.style,
    }
}

/// What adopting a style leaves behind.  A flowing container stamps the
/// style's size policy onto its own size, stores the style, and hands
/// each child the child's own style cascaded under the new one; the
/// other nodes only stamp and store.
pub open spec fn spec_set_style(n: NodeView, s: Style) -> NodeView
    decreases node_height(n), 0nat, 0nat,
{
    match n {
        NodeView::Box(b) => NodeView::Box(crate::element::layoutbox::spec_set_style_box(b, s)),
        NodeView::Block(b) => NodeView::Block(
            BlockView { size: spec_apply_style(b.size, Axis::Horizontal, s), style: s, ..b },
        ),
        NodeView::Filling(f) => NodeView::Filling(
            FillingView { size: spec_apply_style(f.size, f.axis, s), style: s, ..f },
        ),
        NodeView::Wrap(w) => NodeView::Wrap(WrapView { style: s, ..w }),
        NodeView::PageBreak(p) => NodeView::PageBreak(PageBreakView { style: s, ..p }),
        NodeView::Text(t) => NodeView::Text(
            TextView { size: spec_apply_style(t.size, Axis::Horizontal, s), style: s, ..t },
        ),
    }
}

/// The children of a container after the container adopts a style: each
/// child adopts its own style cascaded under the new one.
pub open spec fn spec_set_style_children(cs: Seq<NodeView>, s: Style) -> Seq<NodeView>
    decreases nodes_height(cs), 1nat, cs.len(),
    via spec_set_style_children_decreases
{
    if cs.len() == 0 {
        Seq::empty()
    } else {
        seq![spec_set_style(cs[0], spec_style_inherit(spec_style_of(cs[0]), s))]
            + spec_set_style_children(cs.drop_first(), s)
    }
}

#[via_fn]
proof fn spec_set_style_children_decreases(cs: Seq<NodeView>, s: Style) {
    if cs.len() > 0 {
        lemma_nodes_height_index(cs, 0);
        assert(cs.drop_first() =~= cs.subrange(1, cs.len() as int));
        lemma_nodes_height_subrange(cs, 1, cs.len() as int);
    }
}

/// The node with the style's size policy stamped onto its size along
/// the given axis; nothing else changes.
pub open spec fn spec_stamp_style(n: NodeView, axis: Axis, s: Style) -> NodeView {
    match n {
        NodeView::Box(b) => NodeView::Box(BoxView { size: spec_apply_style(b.size, axis, s), ..b }),
        NodeView::Block(b) => NodeView::Block(
            BlockView { size: spec_apply_style(b.size, axis, s), ..b },
        ),
        NodeView::Filling(f) => NodeView::Filling(
            FillingView { size: spec_apply_style(f.size, axis, s), ..f },
        ),
        NodeView::Wrap(w) => NodeView::Wrap(WrapView { size: spec_apply_style(w.size, axis, s), ..w }),
        NodeView::PageBreak(p) => NodeView::PageBreak(
            PageBreakView { size: spec_apply_style(p.size, axis, s), ..p },
        ),
        NodeView::Text(t) => NodeView::Text(TextView { size: spec_apply_style(t.size, axis, s), ..t }),
    }
}

impl Node {
    /// The native size, as the wrap decision reads it.
    pub fn size_ref(&self) -> (r: &Size)
        ensures
            *r == spec_size_ref(self@),
    {
        match self {
            Node::Box(b) => &b.size,
            Node::Block(b) => &b.size,
            Node::Filling(f) => &f.size,
            Node::Wrap(w) => &w.size,
            Node::PageBreak(p) => &p.size,
            Node::Text(t) => &t.size,
        }
    }

    /// The size this node contributes to its line.
    pub fn size_after_wrap(&self) -> (r: Size)
        ensures
            r == spec_size_after_wrap(self@),
    {
        match self {
            Node::Wrap(_) => Size::none(),
            Node::PageBreak(_) => Size::none(),
            _ => *self.size_ref(),
        }
    }

    /// The bounding size after lay-out.
    pub fn size_after_lay_out(&self) -> (r: Size)
        ensures
            r == spec_size_after_lay_out(self@),
    {
        match self {
            Node::Filling(f) => match f.content_size {
                Some(s) => s,
                None => Size::zero(),
            },
            Node::Wrap(_) => Size::none(),
            Node::PageBreak(_) => Size::none(),
            _ => *self.size_ref(),
        }
    }

    pub fn offset_ref(&self) -> (r: &Offset)
        ensures
            *r == spec_offset_of(self@),
    {
        match self {
            Node::Box(b) => &b.offset,
            Node::Block(b) => &b.offset,
            Node::Filling(f) => &f.offset,
            Node::Wrap(w) => &w.offset,
            Node::PageBreak(p) => &p.offset,
            Node::Text(t) => &t.offset,
        }
    }

    pub fn style_ref(&self) -> (r: &Style)
        ensures
            *r == spec_style_of(self@),
    {
        match self {
            Node::Box(b) => &b.style,
            Node::Block(b) => &b.style,
            Node::Filling(f) => &f.style,
            Node::Wrap(w) => &w.style,
            Node::PageBreak(p) => &p.style,
            Node::Text(t) => &t.style,
        }
    }

    /// Stamps the style's size policy onto this node's size along the
    /// given axis, leaving everything else alone.
    pub fn stamp_style(self, axis: Axis, style: &Style) -> (r: Node)
        ensures
            r@ == spec_stamp_style(self@, axis, *style),
    {
        match self {
            Node::Box(mut b) => {
                b.size.apply_style(axis, style);
                Node::Box(b)
            },
            Node::Block(mut b) => {
                b.size.apply_style(axis, style);
                Node::Block(b)
            },
            Node::Filling(mut f) => {
                f.size.apply_style(axis, style);
                Node::Filling(f)
            },
            Node::Wrap(mut w) => {
                w.size.apply_style(axis, style);
                Node::Wrap(w)
            },
            Node::PageBreak(mut p) => {
                p.size.apply_style(axis, style);
                Node::PageBreak(p)
            },
            Node::Text(mut t) => {
                t.size.apply_style(axis, style);
                Node::Text(t)
            },
        }
    }

    /// Adopts a style: containers re-propagate the cascade to their
    /// children, and size-policy slots still unset take the style's.
    pub fn set_style(self, style: Style) -> (r: Node)
        ensures
            r@ == spec_set_style(self@, style),
        decreases node_height(self@),
    {
        match self {
            Node::Box(b) => Node::Box(b.set_style_box(style)),
            Node::Block(b) => {
                let mut b = b;
                b.size.apply_style(Axis::Horizontal, &style);
                b.style = style;
                Node::Block(b)
            },
            Node::Filling(f) => {
                let mut f = f;
                f.size.apply_style(f.axis, &style);
                f.style = style;
                Node::Filling(f)
            },
            Node::Wrap(w) => {
                let mut w = w;
                w.style = style;
                Node::Wrap(w)
            },
            Node::PageBreak(p) => {
                let mut p = p;
                p.style = style;
                Node::PageBreak(p)
            },
            Node::Text(t) => {
                let mut t = t;
                t.size.apply_style(Axis::Horizontal, &style);
                t.style = style;
                Node::Text(t)
            },
        }
    }
}



/// What measuring a node yields: containers measure recursively, text
/// adopts its shaped extent, and fillers and break markers are
/// unchanged.
pub open spec fn spec_measure(n: NodeView, room: Size) -> NodeView
    decreases node_height(n), 1nat, 0nat,
{
    match n {
        NodeView::Box(b) => NodeView::Box(crate::element::layoutbox::spec_measure_box(b, room)),
        NodeView::Block(b) => NodeView::Block(
            crate::element::blockbox::spec_measure_block(b, room),
        ),
        NodeView::Text(t) => NodeView::Text(crate::element::text::spec_measure_text(t)),
        _ => n,
    }
}

/// Each child measured under the same room, in order.
pub open spec fn spec_measure_children(cs: Seq<NodeView>, room: Size) -> Seq<NodeView>
    decreases nodes_height(cs), 0nat, cs.len(),
    via spec_measure_children_decreases
{
    if cs.len() == 0 {
        Seq::empty()
    } else {
        seq![spec_measure(cs[0], room)] + spec_measure_children(cs.drop_first(), room)
    }
}

#[via_fn]
proof fn spec_measure_children_decreases(cs: Seq<NodeView>, room: Size) {
    if cs.len() > 0 {
        lemma_nodes_height_index(cs, 0);
        assert(cs.drop_first() =~= cs.subrange(1, cs.len() as int));
        lemma_nodes_height_subrange(cs, 1, cs.len() as int);
    }
}

impl Node {
    /// The measure walk: resolves parent-relative bases against the
    /// granted room, measures children bottom-up, and aggregates a
    /// native content size.
    pub fn measure(self, room: &Size) -> (r: Node)
        ensures
            r@ == spec_measure(self@, *room),
        decreases node_height(self@), 1nat,
    {
        match self {
            Node::Box(b) => Node::Box(b.measure(room)),
            Node::Block(b) => Node::Block(b.measure(room)),
            Node::Text(t) => Node::Text(t.measure()),
            other => other,
        }
    }
}

/// Measures each node of a vector under the same room, in order.
#[verifier::loop_isolation(false)]
pub fn measure_children(children: Vec<Node>, room: &Size) -> (r: Vec<Node>)
    ensures
        nodes_view(r@) == spec_measure_children(nodes_view(children@), *room),
        r@.len() == children@.len(),
    decreases nodes_height(nodes_view(children@)), 0nat,
{
    let ghost cs0 = nodes_view(children@);
    let ghost n0 = children@.len();
    let mut work = children;
    let mut out: Vec<Node> = Vec::new();
    proof {
        assert(nodes_view(out@) + spec_measure_children(nodes_view(work@), *room)
            =~= spec_measure_children(cs0, *room));
    }
    while work.len() > 0
        invariant
            spec_measure_children(cs0, *room) == nodes_view(out@) + spec_measure_children(
                nodes_view(work@),
                *room,
            ),
            nodes_height(nodes_view(work@)) <= nodes_height(cs0),
            out@.len() + work@.len() == n0,
        decreases work@.len(),
    {
        let ghost prev_work = work@;
        let ghost pre = nodes_view(prev_work);
        let ghost done = nodes_view(out@);
        let child = work.remove(0);
        proof {
            lemma_nodes_view_len(prev_work);
            assert(prev_work.remove(0) =~= prev_work.drop_first());
            assert(prev_work.drop_first() == work@);
            lemma_nodes_view_len(work@);
            assert(pre =~= seq![prev_work[0]@] + nodes_view(work@));
            assert(pre.drop_first() =~= nodes_view(work@));
            assert(pre[0] == child@);
            lemma_nodes_height_index(pre, 0);
            assert(pre.subrange(1, pre.len() as int) =~= pre.drop_first());
            lemma_nodes_height_subrange(pre, 1, pre.len() as int);
        }
        let measured = child.measure(room);
        proof {
            lemma_nodes_view_push(out@, measured);
        }
        out.push(measured);
        proof {
            assert(spec_measure_children(pre, *room) == seq![spec_measure(pre[0], *room)]
                + spec_measure_children(pre.drop_first(), *room));
            assert(measured@ == spec_measure(pre[0], *room));
            assert(done.push(measured@) =~= done + seq![measured@]);
            assert((done + seq![measured@]) + spec_measure_children(nodes_view(work@), *room)
                =~= done + (seq![measured@] + spec_measure_children(nodes_view(work@), *room)));
        }
    }
    proof {
        assert(nodes_view(work@) =~= Seq::<NodeView>::empty());
        assert(nodes_view(out@) + spec_measure_children(nodes_view(work@), *room)
            =~= nodes_view(out@));
    }
    out
}


/// What laying out a node yields.  Containers lay out recursively;
/// fillers adopt the offered position and record the room as their
/// content size; markers and text adopt the position.
pub open spec fn spec_lay_out(n: NodeView, position: Offset, room: Size) -> NodeView
    decreases node_height(n), 3nat, 0nat,
{
    match n {
        NodeView::Box(b) => NodeView::Box(
            crate::element::layoutbox::spec_lay_out_box(b, position, room),
        ),
        NodeView::Block(b) => NodeView::Block(
            crate::element::blockbox::spec_lay_out_block(b, position, room),
        ),
        NodeView::Filling(f) => NodeView::Filling(
            FillingView { offset: position, content_size: Option::Some(room), ..f },
        ),
        NodeView::Wrap(w) => NodeView::Wrap(WrapView { offset: position, ..w }),
        NodeView::PageBreak(p) => NodeView::PageBreak(PageBreakView { offset: position, ..p }),
        NodeView::Text(t) => NodeView::Text(TextView { offset: position, ..t }),
    }
}

/// Each child of an absolute container laid out at its own offset
/// translated by the container's, in its own size.
pub open spec fn spec_lay_out_block_children(cs: Seq<NodeView>, offset: Offset) -> Seq<NodeView>
    decreases nodes_height(cs), 1nat, cs.len(),
    via spec_lay_out_block_children_decreases
{
    if cs.len() == 0 {
        Seq::empty()
    } else {
        let child = cs[0];
        let at = Offset {
            x: Unit(crate::unit::sat_add(spec_offset_of(child).x.0 as int, offset.x.0 as int) as i64),
            y: Unit(crate::unit::sat_add(spec_offset_of(child).y.0 as int, offset.y.0 as int) as i64),
        };
        seq![spec_lay_out(child, at, spec_size_ref(child))] + spec_lay_out_block_children(
            cs.drop_first(),
            offset,
        )
    }
}

#[via_fn]
proof fn spec_lay_out_block_children_decreases(cs: Seq<NodeView>, offset: Offset) {
    if cs.len() > 0 {
        lemma_nodes_height_index(cs, 0);
        assert(cs.drop_first() =~= cs.subrange(1, cs.len() as int));
        lemma_nodes_height_subrange(cs, 1, cs.len() as int);
    }
}

impl Node {
    /// The lay-out walk: assigns absolute offsets and final sizes,
    /// distributing slack and aligning across the cross axis.
    pub fn lay_out(self, position: Offset, room: Size) -> (r: Node)
        ensures
            r@ == spec_lay_out(self@, position, room),
        decreases node_height(self@), 3nat,
    {
        match self {
            Node::Box(b) => Node::Box(b.lay_out(position, room)),
            Node::Block(b) => Node::Block(b.lay_out(position, room)),
            Node::Filling(mut f) => {
                f.offset = position;
                f.content_size = Some(room);
                Node::Filling(f)
            },
            Node::Wrap(mut w) => {
                w.offset = position;
                Node::Wrap(w)
            },
            Node::PageBreak(mut p) => {
                p.offset = position;
                Node::PageBreak(p)
            },
            Node::Text(mut t) => {
                t.offset = position;
                Node::Text(t)
            },
        }
    }
}

} // verus!
