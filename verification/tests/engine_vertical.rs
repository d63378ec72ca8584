use flexpage::dimension::Dim;
use flexpage::element::Node;
use flexpage::implementation::{hbox, vbox};
use flexpage::position::{Offset, Size};
use flexpage::style::{AlignItems, StyleBuilder};
use flexpage::unit::{Fill, Unit};

fn u(v: i64) -> Unit {
    Unit::from_i64(v)
}

#[test]
fn vbox_in_vbox_single_fixed_box_c_0_0() {
    let box1 = vbox().size(Dim::Fixed(u(15)));

    let outer = vbox()
        .style(StyleBuilder::new().with_align_items(AlignItems::Start).build())
        .child(Node::Box(box1));

    let outer = outer.lay_out(Offset::new(u(10), u(10)), Size::fixed(u(190), u(277)));

    assert_eq!(10, outer.offset.x.0);
    assert_eq!(10, outer.offset.y.0);
    assert_eq!(0, outer.size.width().0);
    assert_eq!(15, outer.size.height().0);
    assert_eq!(0, outer.content_size.as_ref().unwrap().width().0);
    assert_eq!(15, outer.content_size.as_ref().unwrap().height().0);

    assert_eq!(10, outer.children[0].offset_ref().x.0);
    assert_eq!(10, outer.children[0].offset_ref().y.0);
    assert_eq!(0, outer.children[0].size_ref().width().0);
    assert_eq!(15, outer.children[0].size_ref().height().0);
}

#[test]
fn vbox_in_vbox_triple_fixed_boxes_c() {
    let box1 = vbox().size(Dim::Fixed(u(15)));
    let box2 = vbox().size(Dim::Fixed(u(18)));
    let box3 = vbox().size(Dim::Fixed(u(16)));

    let outer = vbox()
        .style(StyleBuilder::new().with_align_items(AlignItems::Start).build())
        .child(Node::Box(box1))
        .child(Node::Box(box2))
        .child(Node::Box(box3));

    let outer = outer.lay_out(Offset::new(u(10), u(10)), Size::fixed(u(190), u(277)));

    assert_eq!(10, outer.offset.x.0);
    assert_eq!(10, outer.offset.y.0);
    assert_eq!(0, outer.size.width().0);
    assert_eq!(49, outer.size.height().0);
    assert_eq!(0, outer.content_size.as_ref().unwrap().width().0);
    assert_eq!(49, outer.content_size.as_ref().unwrap().height().0);

    assert_eq!(10, outer.children[0].offset_ref().y.0);
    assert_eq!(15, outer.children[0].size_ref().height().0);
    assert_eq!(25, outer.children[1].offset_ref().y.0);
    assert_eq!(18, outer.children[1].size_ref().height().0);
    assert_eq!(43, outer.children[2].offset_ref().y.0);
    assert_eq!(16, outer.children[2].size_ref().height().0);
}

#[test]
fn vbox_in_vbox_triple_fixed_boxes_g() {
    let box1 = vbox().size(Dim::Fixed(u(15)));
    let box2 = vbox().size(Dim::Fixed(u(18)));
    let box3 = vbox().size(Dim::Fixed(u(16)));

    let outer = vbox()
        .style(
            StyleBuilder::new()
                .with_align_items(AlignItems::Start)
                .with_horizontal_gap(u(2))
                .with_vertical_gap(u(2))
                .build(),
        )
        .child(Node::Box(box1))
        .child(Node::Box(box2))
        .child(Node::Box(box3));

    let outer = outer.lay_out(Offset::new(u(10), u(10)), Size::fixed(u(190), u(277)));

    assert_eq!(10, outer.offset.x.0);
    assert_eq!(10, outer.offset.y.0);
    assert_eq!(0, outer.size.width().0);
    assert_eq!(53, outer.size.height().0);
    assert_eq!(0, outer.content_size.as_ref().unwrap().width().0);
    assert_eq!(53, outer.content_size.as_ref().unwrap().height().0);

    assert_eq!(10, outer.children[0].offset_ref().y.0);
    assert_eq!(15, outer.children[0].size_ref().height().0);
    assert_eq!(27, outer.children[1].offset_ref().y.0);
    assert_eq!(18, outer.children[1].size_ref().height().0);
    assert_eq!(47, outer.children[2].offset_ref().y.0);
    assert_eq!(16, outer.children[2].size_ref().height().0);
}

#[test]
fn vbox_in_vbox_triple_grow_boxes_c() {
    let box1 = vbox().size(Dim::Fixed(u(15))).grow(Fill::new(1));
    let box2 = vbox().size(Dim::Fixed(u(18))).grow(Fill::new(3));
    let box3 = vbox().size(Dim::Fixed(u(16))).grow(Fill::new(1));

    let outer = vbox()
        .style(StyleBuilder::new().with_align_items(AlignItems::Start).build())
        .child(Node::Box(box1))
        .child(Node::Box(box2))
        .child(Node::Box(box3));

    let outer = outer.lay_out(Offset::new(u(10), u(10)), Size::fixed(u(190), u(277)));

    assert_eq!(10, outer.offset.x.0);
    assert_eq!(10, outer.offset.y.0);
    assert_eq!(0, outer.size.width().0);
    assert_eq!(278, outer.size.height().0);
    assert_eq!(0, outer.content_size.as_ref().unwrap().width().0);
    assert_eq!(278, outer.content_size.as_ref().unwrap().height().0);

    assert_eq!(10, outer.children[0].offset_ref().y.0);
    assert_eq!(61, outer.children[0].size_ref().height().0);
    assert_eq!(71, outer.children[1].offset_ref().y.0);
    assert_eq!(155, outer.children[1].size_ref().height().0);
    assert_eq!(226, outer.children[2].offset_ref().y.0);
    assert_eq!(62, outer.children[2].size_ref().height().0);
}

#[test]
fn hbox_in_vbox_single_fixed_box_c_0_0() {
    let box1 = hbox().size(Dim::Fixed(u(15)));

    let outer = vbox()
        .style(StyleBuilder::new().with_align_items(AlignItems::Start).build())
        .child(Node::Box(box1));

    let outer = outer.lay_out(Offset::new(u(10), u(10)), Size::fixed(u(190), u(277)));

    assert_eq!(10, outer.offset.x.0);
    assert_eq!(10, outer.offset.y.0);
    assert_eq!(15, outer.size.width().0);
    assert_eq!(0, outer.size.height().0);
    assert_eq!(15, outer.content_size.as_ref().unwrap().width().0);
    assert_eq!(0, outer.content_size.as_ref().unwrap().height().0);

    assert_eq!(10, outer.children[0].offset_ref().x.0);
    assert_eq!(10, outer.children[0].offset_ref().y.0);
    assert_eq!(15, outer.children[0].size_ref().width().0);
    assert_eq!(0, outer.children[0].size_ref().height().0);
}

#[test]
fn self_not_baseline_on_baseline() {
    let box1 = vbox().size(Dim::Fixed(u(100)));

    let box1 = box1.lay_out(
        Offset::new(u(10), u(10)),
        Size::fixed_depth(u(190), u(277), u(247)),
    );

    assert_eq!(10, box1.offset.x.0);
    assert_eq!(10, box1.offset.y.0);
    assert_eq!(0, box1.size.width().0);
    assert_eq!(100, box1.size.height().0);
    assert!(box1.size.depth().is_none());
    assert_eq!(0, box1.content_size.as_ref().unwrap().width().0);
    assert_eq!(0, box1.content_size.as_ref().unwrap().height().0);
}

#[test]
fn self_baseline_on_not_baseline() {
    let box1 = vbox().size(Dim::Fixed(u(100))).depth(u(85));

    let box1 = box1.lay_out(Offset::new(u(10), u(10)), Size::fixed(u(190), u(277)));

    assert_eq!(10, box1.offset.x.0);
    assert_eq!(10, box1.offset.y.0);
    assert_eq!(0, box1.size.width().0);
    assert_eq!(100, box1.size.height().0);
    assert_eq!(85, box1.size.depth().unwrap().0);
    assert_eq!(0, box1.content_size.as_ref().unwrap().width().0);
    assert_eq!(0, box1.content_size.as_ref().unwrap().height().0);
}

#[test]
fn self_baseline_on_baseline() {
    let box1 = vbox()
        .size(Dim::Fixed(u(100)))
        .depth(u(85))
        .style(StyleBuilder::new().with_align_items(AlignItems::Baseline).build());

    let box1 = box1.lay_out(
        Offset::new(u(10), u(10)),
        Size::fixed_depth(u(190), u(277), u(247)),
    );

    assert_eq!(10, box1.offset.x.0);
    assert_eq!(25, box1.offset.y.0);
    assert_eq!(0, box1.size.width().0);
    assert_eq!(100, box1.size.height().0);
    assert_eq!(85, box1.size.depth().unwrap().0);
    assert_eq!(0, box1.content_size.as_ref().unwrap().width().0);
    assert_eq!(0, box1.content_size.as_ref().unwrap().height().0);
}
