use flexpage::children::lay_out_native;
use flexpage::dimension::Dim;
use flexpage::element::Node;
use flexpage::implementation::{hbox, hfill, vbox};
use flexpage::position::{Offset, Quad, Size};
use flexpage::style::{AlignItems, StyleBuilder};
use flexpage::unit::{Fill, Unit};

fn u(v: i64) -> Unit {
    Unit::from_i64(v)
}

#[test]
fn hbox_in_hbox_triple_fixed_boxes_g() {
    let box1 = hbox().size(Dim::Fixed(u(15)));
    let box2 = hbox().size(Dim::Fixed(u(18)));
    let box3 = hbox().size(Dim::Fixed(u(16)));

    let outer = hbox()
        .style(
            StyleBuilder::new()
                .with_align_items(AlignItems::Start)
                .with_horizontal_gap(u(2))
                .build(),
        )
        .child(Node::Box(box1))
        .child(Node::Box(box2))
        .child(Node::Box(box3));

    let outer = outer.lay_out(Offset::new(u(10), u(10)), Size::fixed(u(190), u(277)));

    assert_eq!(10, outer.offset.x.0);
    assert_eq!(10, outer.offset.y.0);
    assert_eq!(53, outer.size.width().0);
    assert_eq!(0, outer.size.height().0);
    assert_eq!(53, outer.content_size.as_ref().unwrap().width().0);
    assert_eq!(0, outer.content_size.as_ref().unwrap().height().0);

    assert_eq!(10, outer.children[0].offset_ref().x.0);
    assert_eq!(10, outer.children[0].offset_ref().y.0);
    assert_eq!(15, outer.children[0].size_ref().width().0);

    assert_eq!(27, outer.children[1].offset_ref().x.0);
    assert_eq!(10, outer.children[1].offset_ref().y.0);
    assert_eq!(18, outer.children[1].size_ref().width().0);

    assert_eq!(47, outer.children[2].offset_ref().x.0);
    assert_eq!(10, outer.children[2].offset_ref().y.0);
    assert_eq!(16, outer.children[2].size_ref().width().0);
}

#[test]
fn hbox_in_hbox_triple_grow_boxes_c() {
    let box1 = hbox().size(Dim::Fixed(u(15))).grow(Fill::new(1));
    let box2 = hbox().size(Dim::Fixed(u(18))).grow(Fill::new(3));
    let box3 = hbox().size(Dim::Fixed(u(16))).grow(Fill::new(1));

    let outer = hbox()
        .style(StyleBuilder::new().with_align_items(AlignItems::Start).build())
        .child(Node::Box(box1))
        .child(Node::Box(box2))
        .child(Node::Box(box3));

    let outer = outer.lay_out(Offset::new(u(10), u(10)), Size::fixed(u(190), u(277)));

    assert_eq!(190, outer.size.width().0);
    assert_eq!(190, outer.content_size.as_ref().unwrap().width().0);

    assert_eq!(10, outer.children[0].offset_ref().x.0);
    assert_eq!(43, outer.children[0].size_ref().width().0);

    assert_eq!(53, outer.children[1].offset_ref().x.0);
    assert_eq!(103, outer.children[1].size_ref().width().0);

    assert_eq!(156, outer.children[2].offset_ref().x.0);
    assert_eq!(44, outer.children[2].size_ref().width().0);
}

#[test]
fn hbox_in_hbox_triple_fixed_boxes_c_wrap1() {
    let box1 = hbox().size(Dim::Fixed(u(80)));
    let box2 = hbox().size(Dim::Fixed(u(80)));
    let box3 = hbox().size(Dim::Fixed(u(80)));

    let outer = hbox()
        .style(StyleBuilder::new().with_align_items(AlignItems::Start).build())
        .child(Node::Box(box1))
        .child(Node::Box(box2))
        .child(Node::Box(box3));

    let outer = outer.lay_out(Offset::new(u(10), u(10)), Size::fixed(u(190), u(277)));

    assert_eq!(10, outer.offset.x.0);
    assert_eq!(10, outer.offset.y.0);
    assert_eq!(160, outer.size.width().0);
    assert_eq!(0, outer.size.height().0);
    assert_eq!(160, outer.content_size.as_ref().unwrap().width().0);
    assert_eq!(0, outer.content_size.as_ref().unwrap().height().0);

    assert_eq!(10, outer.children[0].offset_ref().x.0);
    assert_eq!(10, outer.children[0].offset_ref().y.0);
    assert_eq!(80, outer.children[0].size_ref().width().0);
    assert_eq!(0, outer.children[0].size_ref().height().0);

    assert_eq!(90, outer.children[1].offset_ref().x.0);
    assert_eq!(10, outer.children[1].offset_ref().y.0);
    assert_eq!(80, outer.children[1].size_ref().width().0);
    assert_eq!(0, outer.children[1].size_ref().height().0);

    assert_eq!(10, outer.children[2].offset_ref().x.0);
    assert_eq!(10, outer.children[2].offset_ref().y.0);
    assert_eq!(80, outer.children[2].size_ref().width().0);
    assert_eq!(0, outer.children[2].size_ref().height().0);
}

#[test]
fn hbox_in_hbox_triple_fixed_boxes_c_wrap2() {
    let box1 = hbox().size(Dim::Fixed(u(80))).cross_size(Dim::Fixed(u(10)));
    let box2 = hbox().size(Dim::Fixed(u(80))).cross_size(Dim::Fixed(u(15)));
    let box3 = hbox().size(Dim::Fixed(u(80))).cross_size(Dim::Fixed(u(20)));

    let outer = hbox()
        .style(StyleBuilder::new().with_align_items(AlignItems::Start).build())
        .child(Node::Box(box1))
        .child(Node::Box(box2))
        .child(Node::Box(box3));

    let outer = outer.lay_out(Offset::new(u(10), u(10)), Size::fixed(u(190), u(277)));

    assert_eq!(10, outer.offset.x.0);
    assert_eq!(10, outer.offset.y.0);
    assert_eq!(160, outer.size.width().0);
    assert_eq!(35, outer.size.height().0);
    assert_eq!(160, outer.content_size.as_ref().unwrap().width().0);
    assert_eq!(35, outer.content_size.as_ref().unwrap().height().0);

    assert_eq!(10, outer.children[0].offset_ref().x.0);
    assert_eq!(10, outer.children[0].offset_ref().y.0);
    assert_eq!(80, outer.children[0].size_ref().width().0);
    assert_eq!(10, outer.children[0].size_ref().height().0);

    assert_eq!(90, outer.children[1].offset_ref().x.0);
    assert_eq!(10, outer.children[1].offset_ref().y.0);
    assert_eq!(80, outer.children[1].size_ref().width().0);
    assert_eq!(15, outer.children[1].size_ref().height().0);

    assert_eq!(10, outer.children[2].offset_ref().x.0);
    assert_eq!(25, outer.children[2].offset_ref().y.0);
    assert_eq!(80, outer.children[2].size_ref().width().0);
    assert_eq!(20, outer.children[2].size_ref().height().0);
}

#[test]
fn hbox_in_hbox_triple_fixed_boxes_g_wrap() {
    let box1 = hbox().size(Dim::Fixed(u(80))).cross_size(Dim::Fixed(u(10)));
    let box2 = hbox().size(Dim::Fixed(u(80))).cross_size(Dim::Fixed(u(15)));
    let box3 = hbox().size(Dim::Fixed(u(80))).cross_size(Dim::Fixed(u(20)));

    let outer = hbox()
        .style(
            StyleBuilder::new()
                .with_align_items(AlignItems::Start)
                .with_horizontal_gap(u(2))
                .with_vertical_gap(u(2))
                .build(),
        )
        .child(Node::Box(box1))
        .child(Node::Box(box2))
        .child(Node::Box(box3));

    let outer = outer.lay_out(Offset::new(u(10), u(10)), Size::fixed(u(190), u(277)));

    assert_eq!(10, outer.offset.x.0);
    assert_eq!(10, outer.offset.y.0);
    assert_eq!(162, outer.size.width().0);
    assert_eq!(37, outer.size.height().0);
    assert_eq!(162, outer.content_size.as_ref().unwrap().width().0);
    assert_eq!(37, outer.content_size.as_ref().unwrap().height().0);

    assert_eq!(10, outer.children[0].offset_ref().x.0);
    assert_eq!(10, outer.children[0].offset_ref().y.0);
    assert_eq!(80, outer.children[0].size_ref().width().0);
    assert_eq!(10, outer.children[0].size_ref().height().0);

    assert_eq!(92, outer.children[1].offset_ref().x.0);
    assert_eq!(10, outer.children[1].offset_ref().y.0);
    assert_eq!(80, outer.children[1].size_ref().width().0);
    assert_eq!(15, outer.children[1].size_ref().height().0);

    assert_eq!(10, outer.children[2].offset_ref().x.0);
    assert_eq!(27, outer.children[2].offset_ref().y.0);
    assert_eq!(80, outer.children[2].size_ref().width().0);
    assert_eq!(20, outer.children[2].size_ref().height().0);
}

#[test]
fn hbox_in_hbox_single_fixed_box_c_0_1() {
    let box1 = hbox().size(Dim::Fixed(u(15))).cross_size(Dim::Fixed(u(12)));

    let outer = hbox()
        .style(StyleBuilder::new().with_align_items(AlignItems::Start).build())
        .child(Node::Box(box1));

    let outer = outer.lay_out(Offset::new(u(10), u(10)), Size::fixed(u(190), u(277)));

    assert_eq!(10, outer.offset.x.0);
    assert_eq!(10, outer.offset.y.0);
    assert_eq!(15, outer.size.width().0);
    assert_eq!(12, outer.size.height().0);
    assert_eq!(15, outer.content_size.as_ref().unwrap().width().0);
    assert_eq!(12, outer.content_size.as_ref().unwrap().height().0);

    assert_eq!(10, outer.children[0].offset_ref().x.0);
    assert_eq!(10, outer.children[0].offset_ref().y.0);
    assert_eq!(15, outer.children[0].size_ref().width().0);
    assert_eq!(12, outer.children[0].size_ref().height().0);
}

#[test]
fn hbox_in_hbox_single_cross_align_end_box() {
    let position = Offset::new(u(10), u(10));
    let size = Size::fixed_depth(u(190), u(277), u(3));

    let box1 = hbox().size(Dim::Fixed(u(15))).cross_size(Dim::Fixed(u(7)));

    let outer = hbox()
        .child(Node::Box(box1))
        .cross_grow(Fill::new(1))
        .style(StyleBuilder::new().with_align_items(AlignItems::End).build());

    let outer = outer.lay_out(position, size);

    assert_eq!(10, outer.offset.x.0);
    assert_eq!(10, outer.offset.y.0);
    assert_eq!(15, outer.size.width().0);
    assert_eq!(277, outer.size.height().0);
    assert_eq!(15, outer.content_size.as_ref().unwrap().width().0);
    assert_eq!(277, outer.content_size.as_ref().unwrap().height().0);

    assert_eq!(10, outer.children[0].offset_ref().x.0);
    assert_eq!(280, outer.children[0].offset_ref().y.0);
    assert_eq!(15, outer.children[0].size_ref().width().0);
    assert_eq!(7, outer.children[0].size_ref().height().0);
}

#[test]
fn single_cross_align_center_box_underflow() {
    let position = Offset::new(u(10), u(10));
    let size = Size::fixed_depth(u(190), u(277), u(3));

    let box1 = hbox().size(Dim::Fixed(u(15))).cross_size(Dim::Fixed(u(477)));

    let outer = hbox()
        .child(Node::Box(box1))
        .cross_grow(Fill::new(1))
        .style(StyleBuilder::new().with_align_items(AlignItems::Center).build());

    let outer = outer.lay_out(position, size);

    assert_eq!(10, outer.offset.x.0);
    assert_eq!(10, outer.offset.y.0);
    assert_eq!(15, outer.size.width().0);
    assert_eq!(277, outer.size.height().0);
    assert_eq!(15, outer.content_size.as_ref().unwrap().width().0);
    assert_eq!(377, outer.content_size.as_ref().unwrap().height().0);

    assert_eq!(10, outer.children[0].offset_ref().x.0);
    assert_eq!(-90, outer.children[0].offset_ref().y.0);
    assert_eq!(15, outer.children[0].size_ref().width().0);
    assert_eq!(477, outer.children[0].size_ref().height().0);
}

#[test]
fn hbox_in_hbox_double_fixed_boxes_c_0_0() {
    let box1 = hbox().size(Dim::Fixed(u(15)));
    let box2 = hbox().size(Dim::Fixed(u(18)));

    let outer = hbox()
        .style(StyleBuilder::new().with_align_items(AlignItems::Start).build())
        .child(Node::Box(box1))
        .child(Node::Box(box2));

    let outer = outer.lay_out(Offset::new(u(10), u(10)), Size::fixed(u(190), u(277)));

    assert_eq!(33, outer.size.width().0);
    assert_eq!(33, outer.content_size.as_ref().unwrap().width().0);
    assert_eq!(10, outer.children[0].offset_ref().x.0);
    assert_eq!(15, outer.children[0].size_ref().width().0);
    assert_eq!(25, outer.children[1].offset_ref().x.0);
    assert_eq!(18, outer.children[1].size_ref().width().0);
}

#[test]
fn hbox_in_hbox_single_cross_align_center_box() {
    let position = Offset::new(u(10), u(10));
    let size = Size::fixed_depth(u(190), u(277), u(3));

    let box1 = hbox().size(Dim::Fixed(u(15))).cross_size(Dim::Fixed(u(7)));

    let outer = hbox()
        .child(Node::Box(box1))
        .cross_grow(Fill::new(1))
        .style(StyleBuilder::new().with_align_items(AlignItems::Center).build());

    let outer = outer.lay_out(position, size);

    assert_eq!(10, outer.offset.x.0);
    assert_eq!(10, outer.offset.y.0);
    assert_eq!(15, outer.size.width().0);
    assert_eq!(277, outer.size.height().0);
    assert_eq!(15, outer.content_size.as_ref().unwrap().width().0);
    assert_eq!(142, outer.content_size.as_ref().unwrap().height().0);

    assert_eq!(10, outer.children[0].offset_ref().x.0);
    assert_eq!(145, outer.children[0].offset_ref().y.0);
    assert_eq!(15, outer.children[0].size_ref().width().0);
    assert_eq!(7, outer.children[0].size_ref().height().0);
}

#[test]
fn hbox_in_hbox_triple_fixed_boxes_cross_fixed_baseline() {
    let box1 = hbox().size(Dim::Fixed(u(40))).cross_size(Dim::Fixed(u(20))).depth(u(5));
    let box2 = hbox().size(Dim::Fixed(u(40))).cross_size(Dim::Fixed(u(30))).depth(u(7));
    let box3 = hbox().size(Dim::Fixed(u(40))).cross_size(Dim::Fixed(u(15))).depth(u(2));

    let outer = hbox()
        .style(StyleBuilder::new().with_align_items(AlignItems::Baseline).build())
        .child(Node::Box(box1))
        .child(Node::Box(box2))
        .child(Node::Box(box3));

    let position = Offset::new(u(10), u(10));
    let size = Size::fixed_depth(u(190), u(277), u(247));
    let outer = outer.lay_out(position, size);

    assert_eq!(10, outer.offset.x.0);
    assert_eq!(10, outer.offset.y.0);
    assert_eq!(120, outer.size.width().0);
    assert_eq!(30, outer.size.height().0);
    assert_eq!(120, outer.content_size.as_ref().unwrap().width().0);
    assert_eq!(30, outer.content_size.as_ref().unwrap().height().0);

    assert_eq!(10, outer.children[0].offset_ref().x.0);
    assert_eq!(18, outer.children[0].offset_ref().y.0);
    assert_eq!(40, outer.children[0].size_ref().width().0);
    assert_eq!(20, outer.children[0].size_ref().height().0);

    assert_eq!(50, outer.children[1].offset_ref().x.0);
    assert_eq!(10, outer.children[1].offset_ref().y.0);
    assert_eq!(30, outer.children[1].size_ref().height().0);

    assert_eq!(90, outer.children[2].offset_ref().x.0);
    assert_eq!(20, outer.children[2].offset_ref().y.0);
    assert_eq!(15, outer.children[2].size_ref().height().0);
}

#[test]
fn cell_in_rows_decorated_line() {
    let cell = hbox().size(Dim::Fixed(u(28)));
    let line = hbox()
        .child(Node::Box(cell))
        .size(Dim::Parent(Fill::full(), None))
        .style(StyleBuilder::new().with_padding(Quad::square(u(4))).build());

    let outer = vbox().child(Node::Box(line));

    let outer = outer.measure(&Size::fixed(u(190), u(277)));
    let outer = outer.lay_out(Offset::new(u(10), u(10)), Size::fixed(u(190), u(277)));

    let line = &outer.children[0];
    assert_eq!(10, line.offset_ref().x.0);
    assert_eq!(10, line.offset_ref().y.0);
    assert_eq!(190, line.size_ref().width().0);
    assert_eq!(8, line.size_ref().height().0);

    match line {
        Node::Box(b) => {
            assert_eq!(14, b.children[0].offset_ref().x.0);
            assert_eq!(14, b.children[0].offset_ref().y.0);
            assert_eq!(28, b.children[0].size_ref().width().0);
            assert_eq!(0, b.children[0].size_ref().height().0);
        }
        _ => panic!("expected a box"),
    }
}

#[test]
fn h_center() {
    let outer = hbox()
        .size(Dim::Fixed(u(100)))
        .child(Node::Filling(hfill(Fill::new(2))))
        .child(Node::Box(hbox().size(Dim::Fixed(u(25)))))
        .child(Node::Filling(hfill(Fill::new(1))));

    let outer = outer.lay_out(
        Offset::new(u(10), u(10)),
        Size::fixed_depth(u(190), u(277), u(267)),
    );

    let fill = &outer.children[0];
    assert_eq!(10, fill.offset_ref().x.0);
    assert_eq!(10, fill.offset_ref().y.0);
    match fill {
        Node::Filling(f) => {
            assert_eq!(50, f.content_size.as_ref().unwrap().width().0);
        }
        _ => panic!("expected a filler"),
    }

    let mid = &outer.children[1];
    assert_eq!(60, mid.offset_ref().x.0);
    assert_eq!(10, mid.offset_ref().y.0);
    assert_eq!(25, mid.size_ref().width().0);

    let fill = &outer.children[2];
    assert_eq!(85, fill.offset_ref().x.0);
    match fill {
        Node::Filling(f) => {
            assert_eq!(25, f.content_size.as_ref().unwrap().width().0);
        }
        _ => panic!("expected a filler"),
    }
}

#[test]
fn children_two_boxes_wrap_gap() {
    let children: Vec<Node> = vec![
        Node::Box(hbox().size(Dim::Fixed(u(10))).cross_size(Dim::Fixed(u(4)))),
        Node::Box(hbox().size(Dim::Fixed(u(15))).cross_size(Dim::Fixed(u(6)))),
    ];

    let lines = lay_out_native(
        flexpage::axis::Axis::Horizontal,
        &children,
        u(15),
        u(4),
        u(4),
        true,
        true,
    );

    assert_eq!(2, lines.len());
    assert_eq!(1, lines[0].count);
    assert_eq!(0, lines[0].offset.0);
    assert_eq!(10, lines[0].size.width().0);
    assert_eq!(4, lines[0].size.height().0);

    assert_eq!(1, lines[1].count);
    assert_eq!(8, lines[1].offset.0);
    assert_eq!(15, lines[1].size.width().0);
    assert_eq!(6, lines[1].size.height().0);
}

#[test]
fn measure_resolves_content_from_children() {
    let outer = vbox()
        .child(Node::Box(hbox().size(Dim::Fixed(u(30))).cross_size(Dim::Fixed(u(7)))))
        .child(Node::Box(hbox().size(Dim::Fixed(u(40))).cross_size(Dim::Fixed(u(9)))));

    let outer = outer.measure(&Size::fixed(u(190), u(277)));

    assert_eq!(16, outer.size.height().0);
    assert_eq!(40, outer.size.width().0);
}

#[test]
fn hbox_in_hbox_single_fixed_box_c_0_0() {
    let box1 = hbox().size(Dim::Fixed(u(15)));

    let outer = hbox()
        .style(StyleBuilder::new().with_align_items(AlignItems::Start).build())
        .child(Node::Box(box1));

    let outer = outer.lay_out(Offset::new(u(10), u(10)), Size::fixed(u(190), u(277)));

    assert_eq!(10, outer.offset.x.0);
    assert_eq!(10, outer.offset.y.0);
    assert_eq!(15, outer.size.width().0);
    assert_eq!(0, outer.size.height().0);
    assert_eq!(15, outer.content_size.as_ref().unwrap().width().0);
    assert_eq!(0, outer.content_size.as_ref().unwrap().height().0);

    assert_eq!(10, outer.children[0].offset_ref().x.0);
    assert_eq!(10, outer.children[0].offset_ref().y.0);
    assert_eq!(15, outer.children[0].size_ref().width().0);
    assert_eq!(0, outer.children[0].size_ref().height().0);
}

#[test]
fn hbox_in_hbox_single_grow_main_0_1_box() {
    let box1 = hbox().size(Dim::Fixed(u(15))).grow(Fill::new(1));

    let outer = hbox()
        .style(StyleBuilder::new().with_align_items(AlignItems::Start).build())
        .child(Node::Box(box1));

    let outer = outer.lay_out(Offset::new(u(10), u(10)), Size::fixed(u(190), u(277)));

    assert_eq!(190, outer.size.width().0);
    assert_eq!(190, outer.content_size.as_ref().unwrap().width().0);
    assert_eq!(10, outer.children[0].offset_ref().x.0);
    assert_eq!(190, outer.children[0].size_ref().width().0);
}

#[test]
fn hbox_in_hbox_triple_fixed_boxes_c() {
    let box1 = hbox().size(Dim::Fixed(u(15)));
    let box2 = hbox().size(Dim::Fixed(u(18)));
    let box3 = hbox().size(Dim::Fixed(u(16)));

    let outer = hbox()
        .style(StyleBuilder::new().with_align_items(AlignItems::Start).build())
        .child(Node::Box(box1))
        .child(Node::Box(box2))
        .child(Node::Box(box3));

    let outer = outer.lay_out(Offset::new(u(10), u(10)), Size::fixed(u(190), u(277)));

    assert_eq!(49, outer.size.width().0);
    assert_eq!(49, outer.content_size.as_ref().unwrap().width().0);
    assert_eq!(10, outer.children[0].offset_ref().x.0);
    assert_eq!(25, outer.children[1].offset_ref().x.0);
    assert_eq!(43, outer.children[2].offset_ref().x.0);
    assert_eq!(10, outer.children[2].offset_ref().y.0);
    assert_eq!(16, outer.children[2].size_ref().width().0);
}
