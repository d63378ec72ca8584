use flexpage::axis::Axis;
use flexpage::color::Rgba;
use flexpage::dimension::{Dim, MaybeDim};
use flexpage::font::Features;
use flexpage::position::Size;
use flexpage::style::{AlignItems, StyleBuilder};
use flexpage::unit::{Fill, Unit};

#[test]
fn apply_style_fills_only_unset_slots() {
    let style = StyleBuilder::new()
        .with_width(Unit::from_i64(100))
        .with_min_width(Unit::from_i64(10))
        .with_grow(Fill::new(3))
        .build();

    let mut size = Size::content();
    size.set_width(Dim::Fixed(Unit::from_i64(42)));

    size.apply_style(Axis::Horizontal, &style);

    assert_eq!(Some(Unit::from_i64(42)), size.width.base.size());
    assert_eq!(Some(Unit::from_i64(10)), size.width.min.size());
    assert_eq!(MaybeDim::Unset, size.width.max);
    assert_eq!(Some(Fill::new(3)), size.width.grow);

    let mut fresh = Size::content();
    fresh.apply_style(Axis::Horizontal, &style);
    assert_eq!(Some(Unit::from_i64(100)), fresh.width.base.size());
}

#[test]
fn grow_applies_along_the_main_axis_only() {
    let style = StyleBuilder::new().with_grow(Fill::new(2)).build();

    let mut size = Size::content();
    size.apply_style(Axis::Vertical, &style);
    assert_eq!(None, size.width.grow);
    assert_eq!(Some(Fill::new(2)), size.height.grow);
}

#[test]
fn inherit_cascades_font_and_color_only() {
    let parent = StyleBuilder::new()
        .with_font_name(String::from("serif"))
        .with_font_size(12000)
        .with_color(Rgba::gray_50())
        .with_width(Unit::from_i64(55))
        .with_wrap(false)
        .build();
    let child = StyleBuilder::new().build();

    let inherited = child.inherit(&parent);
    assert_eq!(Some(String::from("serif")), inherited.font.name);
    assert_eq!(Some(12000), inherited.font.size_millipoints);
    assert_eq!(Some(Rgba::gray_50()), inherited.color);
    assert_eq!(Dim::Content(None), inherited.width);
    assert_eq!(None, inherited.wrap);
}

#[test]
fn inherit_adopts_parent_alignment() {
    let parent = StyleBuilder::new().with_align_items(AlignItems::Baseline).build();
    let child = StyleBuilder::new().build();
    assert_eq!(Some(AlignItems::Baseline), child.inherit(&parent).align_items);

    let centered_parent = StyleBuilder::new().with_align_items(AlignItems::Center).build();
    let child = StyleBuilder::new().build();
    assert_eq!(Some(AlignItems::Center), child.inherit(&centered_parent).align_items);

    let explicit_child = StyleBuilder::new().with_align_items(AlignItems::End).build();
    assert_eq!(Some(AlignItems::End), explicit_child.inherit(&centered_parent).align_items);
}

#[test]
fn merge_prefers_present_fields() {
    let over = StyleBuilder::new().with_width(Unit::from_i64(5)).build();
    let under = StyleBuilder::new()
        .with_width(Unit::from_i64(9))
        .with_height(Unit::from_i64(7))
        .build();

    let merged = over.merge(&under);
    assert_eq!(Dim::Fixed(Unit::from_i64(5)), merged.width);
    assert_eq!(Dim::Fixed(Unit::from_i64(7)), merged.height);
}

#[test]
fn feature_builders_set_their_choices() {
    let f = Features::empty().tnum().onum().smcp();
    assert_eq!(Some(false), f.pnum);
    assert_eq!(Some(false), f.lnum);
    assert_eq!(Some(true), f.smcp);

    let d = Features::standard();
    assert_eq!(Some(true), d.pnum);
    assert_eq!(Some(true), d.lnum);
    assert_eq!(None, d.smcp);
}

#[test]
fn color_constants_and_alpha() {
    assert_eq!(0, Rgba::black().r);
    assert_eq!(255, Rgba::white().g);
    assert_eq!(192, Rgba::gray_25().b);
    assert_eq!(1000, Rgba::black().alpha_mille);
    assert_eq!(250, Rgba::black().alpha(250).alpha_mille);
    assert_eq!(1000, Rgba::black().alpha(2000).alpha_mille);
}
