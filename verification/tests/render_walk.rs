use flexpage::color::Rgba;
use flexpage::dimension::Dim;
use flexpage::element::{Node, Text};
use flexpage::font::TextExtent;
use flexpage::implementation::{bbox, hbox, vbreak};
use flexpage::position::{Offset, Size};
use flexpage::render::{render_plan, RenderOp};
use flexpage::style::{Border, Stroke, StyleBuilder};
use flexpage::unit::Unit;

fn u(v: i64) -> Unit {
    Unit::from_i64(v)
}

fn shaped_text(content: &str, width: i64, height: i64, depth: i64) -> Text {
    let mut t = Text::new(String::from(content));
    t.set_shape(TextExtent::new(u(width), u(height), u(depth)));
    t
}

#[test]
fn render_emits_runs_breaks_borders_and_frames_in_order() {
    let stroke = Stroke::new(Rgba::black(), 1000);
    let outer = hbox()
        .style(StyleBuilder::new().with_border(Border::square(stroke)).build())
        .child(Node::Text(shaped_text("ab", 100, 35, 7)))
        .child(Node::PageBreak(vbreak()));

    let outer = outer.lay_out(Offset::new(u(10), u(10)), Size::fixed(u(190), u(277)));
    let tl = outer.offset;
    let width = outer.size.width();
    let height = outer.size.height();
    let ops = render_plan(&Node::Box(outer));

    assert_eq!(8, ops.len());
    match &ops[0] {
        RenderOp::GlyphRun { leaf, at, .. } => {
            assert_eq!(0, *leaf);
            assert_eq!(10, at.x.0);
        }
        other => panic!("expected a glyph run, got {:?}", other),
    }
    assert!(matches!(&ops[1], RenderOp::DebugFrame { .. }));
    assert!(matches!(&ops[2], RenderOp::NewPage));
    let br = Offset::new(tl.x.add(width), tl.y.add(height));
    match &ops[3] {
        RenderOp::BorderLine { from, to, .. } => {
            assert_eq!((tl.x.0, tl.y.0), (from.x.0, from.y.0));
            assert_eq!((br.x.0, tl.y.0), (to.x.0, to.y.0));
        }
        other => panic!("expected the top border, got {:?}", other),
    }
    match &ops[4] {
        RenderOp::BorderLine { from, to, .. } => {
            assert_eq!((br.x.0, tl.y.0), (from.x.0, from.y.0));
            assert_eq!((br.x.0, br.y.0), (to.x.0, to.y.0));
        }
        other => panic!("expected the right border, got {:?}", other),
    }
    match &ops[5] {
        RenderOp::BorderLine { from, to, .. } => {
            assert_eq!((br.x.0, br.y.0), (from.x.0, from.y.0));
            assert_eq!((tl.x.0, br.y.0), (to.x.0, to.y.0));
        }
        other => panic!("expected the bottom border, got {:?}", other),
    }
    match &ops[6] {
        RenderOp::BorderLine { from, to, .. } => {
            assert_eq!((tl.x.0, br.y.0), (from.x.0, from.y.0));
            assert_eq!((tl.x.0, tl.y.0), (to.x.0, to.y.0));
        }
        other => panic!("expected the left border, got {:?}", other),
    }
    assert!(matches!(&ops[7], RenderOp::DebugFrame { .. }));
}

#[test]
fn render_skips_unshaped_text_but_numbers_every_leaf() {
    let outer = hbox()
        .child(Node::Text(Text::new(String::from("unshaped"))))
        .child(Node::Text(shaped_text("cd", 90, 35, 7)));

    let ops = render_plan(&Node::Box(outer));

    assert_eq!(3, ops.len());
    match &ops[0] {
        RenderOp::GlyphRun { leaf, .. } => assert_eq!(1, *leaf),
        other => panic!("expected a glyph run, got {:?}", other),
    }
    assert!(matches!(&ops[1], RenderOp::DebugFrame { .. }));
    assert!(matches!(&ops[2], RenderOp::DebugFrame { .. }));
}

#[test]
fn render_avoid_break_box_asks_first() {
    let outer = hbox().avoid_break().size(Dim::Fixed(u(40)));
    let outer = outer.lay_out(Offset::new(u(10), u(10)), Size::fixed(u(190), u(277)));
    let ops = render_plan(&Node::Box(outer));

    assert_eq!(2, ops.len());
    match &ops[0] {
        RenderOp::BreakIfNoRoom { at, size } => {
            assert_eq!(10, at.x.0);
            assert_eq!(40, size.width().0);
        }
        other => panic!("expected a break request, got {:?}", other),
    }
    assert!(matches!(&ops[1], RenderOp::DebugFrame { .. }));
}

#[test]
fn render_block_brackets_children_in_a_reservation() {
    let block = bbox()
        .axis_size(Dim::Fixed(u(60)))
        .cross_size(Dim::Fixed(u(30)))
        .child(Node::Text(shaped_text("ef", 50, 35, 7)));

    let block = block.lay_out(Offset::new(u(5), u(6)), Size::fixed(u(190), u(277)));
    let ops = render_plan(&Node::Block(block));

    assert_eq!(5, ops.len());
    match &ops[0] {
        RenderOp::CheckPageBreak { y, height } => {
            assert_eq!(6, y.0);
            assert_eq!(30, height.0);
        }
        other => panic!("expected a page-break check, got {:?}", other),
    }
    assert!(matches!(&ops[1], RenderOp::GlyphRun { .. }));
    assert!(matches!(&ops[2], RenderOp::DebugFrame { .. }));
    assert!(matches!(&ops[3], RenderOp::DebugFrame { .. }));
    assert!(matches!(&ops[4], RenderOp::ReleaseBreakReservation));
}
