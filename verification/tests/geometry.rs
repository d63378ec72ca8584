use flexpage::dimension::Dim;
use flexpage::position::{Offset, Quad, Size};
use flexpage::unit::Unit;

#[test]
fn offset_constructs() {
    let ofs = Offset::zero();
    assert_eq!(0, ofs.x.0);
    assert_eq!(0, ofs.y.0);
}

#[test]
fn offset_advances() {
    let mut ofs = Offset::zero();
    ofs.x_advance(Unit::from_i64(10));

    assert_eq!(10, ofs.x.0);
    assert_eq!(0, ofs.y.0);

    let mut ofs = Offset::zero();
    ofs.y_advance(Unit::from_i64(10));

    assert_eq!(0, ofs.x.0);
    assert_eq!(10, ofs.y.0);
}

#[test]
fn size_constructs() {
    let size = Size::zero();
    assert_eq!(0, size.width().0);
    assert_eq!(0, size.height().0);

    let mut size = Size::zero();
    size.set_width(Dim::Fixed(Unit::from_i64(10)));
    assert_eq!(10, size.width().0);
    assert_eq!(0, size.height().0);

    let mut size = Size::zero();
    size.set_height(Dim::Fixed(Unit::from_i64(10)));
    assert_eq!(0, size.width().0);
    assert_eq!(10, size.height().0);

    let mut size = Size::content();
    assert!(size.width.is_content());
    assert!(size.height.is_content());

    size.set_depth(Some(Unit::from_i64(2)));
    assert_eq!(0, size.width().0);
    assert_eq!(0, size.height().0);
    assert_eq!(-2, size.ascent_size().0);
}

#[test]
fn size_mut_works() {
    let mut size = Size::zero();
    size.x_dim_mut().set_base(Dim::Fixed(Unit::from_i64(10)));
    assert_eq!(10, size.width().0);
    assert_eq!(0, size.height().0);

    let mut size = Size::zero();
    size.y_dim_mut().set_base(Dim::Fixed(Unit::from_i64(10)));
    assert_eq!(0, size.width().0);
    assert_eq!(10, size.height().0);
}

#[test]
fn depth_and_ascent() {
    let mut size = Size::content();
    size.set_height(Dim::Fixed(Unit::from_i64(10)));
    size.set_depth(Some(Unit::from_i64(2)));

    assert_eq!(10, size.height().0);
    assert_eq!(8, size.ascent_size().0);
}

#[test]
fn it_extends() {
    let size1 = Size::fixed_depth(Unit::from_i64(10), Unit::from_i64(12), Unit::from_i64(2));
    let size2 = Size::fixed_depth(Unit::from_i64(20), Unit::from_i64(12), Unit::from_i64(3));

    let mut size = size1;
    size.x_extend(&size2, true);
    assert_eq!(30, size.width().0);
    assert_eq!(13, size.height().0);
    assert_eq!(10, size.ascent_size().0);

    let mut size = size2;
    size.x_extend(&size1, true);
    assert_eq!(30, size.width().0);
    assert_eq!(13, size.height().0);
    assert_eq!(10, size.ascent_size().0);

    let mut size = size1;
    size.y_extend(&size2, true);
    assert_eq!(20, size.width().0);
    assert_eq!(24, size.height().0);
    assert_eq!(22, size.ascent_size().0);

    let mut size = size2;
    size.y_extend(&size1, true);
    assert_eq!(20, size.width().0);
    assert_eq!(24, size.height().0);
    assert_eq!(21, size.ascent_size().0);
}

#[test]
fn padding_narrows_and_widens() {
    let quad = Quad::square(Unit::from_i64(4));
    let mut offset = Offset::new(Unit::from_i64(10), Unit::from_i64(10));
    let mut size = Size::fixed_depth(Unit::from_i64(100), Unit::from_i64(50), Unit::from_i64(6));

    quad.narrow(&mut offset, &mut size);
    assert_eq!(14, offset.x.0);
    assert_eq!(14, offset.y.0);
    assert_eq!(92, size.width().0);
    assert_eq!(42, size.height().0);
    assert_eq!(2, size.depth.unwrap().0);

    quad.widen(&mut offset, &mut size);
    assert_eq!(10, offset.x.0);
    assert_eq!(10, offset.y.0);
    assert_eq!(100, size.width().0);
    assert_eq!(50, size.height().0);
    assert_eq!(6, size.depth.unwrap().0);
}

#[test]
fn quads_merge_with_child_sides_winning() {
    let child = Quad::empty().with_top(Unit::from_i64(1));
    let parent = Quad::square(Unit::from_i64(9));
    let merged = child.merge(&parent);
    assert_eq!(1, merged.top_size().0);
    assert_eq!(9, merged.left_size().0);
    assert_eq!(9, merged.bottom_size().0);
    assert_eq!(9, merged.right_size().0);
}
