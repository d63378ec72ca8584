use flexpage::dimension::{Dim, FlexDim, MaybeDim};
use flexpage::unit::{Fill, Unit};

#[test]
fn it_constructs() {
    let dim: FlexDim = FlexDim::fixed(Unit::from_i64(15));

    assert!(matches!(dim.base, Dim::Fixed(Unit(15))));
    assert_eq!(Some(Unit::from_i64(15)), dim.base.size());
    assert_eq!(None, dim.min.size());
    assert_eq!(None, dim.max.size());
    assert!(dim.grow.is_none());
    assert!(dim.shrink.is_none());

    let dim: FlexDim = FlexDim::grown(Fill::new(5));

    assert_eq!(Some(Unit::zero()), dim.base.size());
    assert_eq!(None, dim.min.size());
    assert_eq!(None, dim.max.size());
    assert_eq!(Fill::new(5), dim.grow.unwrap());
    assert!(dim.shrink.is_none());

    let dim = FlexDim::content();

    assert!(matches!(dim.base, Dim::Content(None)));
    assert!(dim.base.size().is_none());
    assert_eq!(None, dim.min.size());
    assert_eq!(None, dim.max.size());
    assert!(dim.grow.is_none());
    assert!(dim.shrink.is_none());

    let dim = FlexDim::parented(Fill::new(3));

    assert!(matches!(dim.base, Dim::Parent(Fill(3), None)));
    assert!(dim.base.size().is_none());
    assert_eq!(None, dim.min.size());
    assert_eq!(None, dim.max.size());
    assert!(dim.grow.is_none());
    assert!(dim.shrink.is_none());
}

#[test]
fn it_builds() {
    let mut dim = FlexDim::fixed(Unit::from_i64(100)).with_min(MaybeDim::Fixed(Unit::from_i64(25)));

    assert_eq!(Some(Unit::from_i64(100)), dim.base.size());
    assert_eq!(Some(Unit::from_i64(25)), dim.min.size());
    assert_eq!(None, dim.max.size());
    assert!(dim.grow.is_none());
    assert!(dim.shrink.is_none());

    dim = dim.with_max(MaybeDim::Fixed(Unit::from_i64(400)));

    assert_eq!(Some(Unit::from_i64(100)), dim.base.size());
    assert_eq!(Some(Unit::from_i64(25)), dim.min.size());
    assert_eq!(Some(Unit::from_i64(400)), dim.max.size());
    assert!(dim.grow.is_none());
    assert!(dim.shrink.is_none());

    dim = dim.with_grow(Fill::new(2));

    assert_eq!(Some(Unit::from_i64(100)), dim.base.size());
    assert_eq!(Some(Unit::from_i64(25)), dim.min.size());
    assert_eq!(Some(Unit::from_i64(400)), dim.max.size());
    assert_eq!(Some(Fill::new(2)), dim.grow);
    assert!(dim.shrink.is_none());

    dim = dim.with_shrink(Fill::new(3));

    assert_eq!(Some(Unit::from_i64(100)), dim.base.size());
    assert_eq!(Some(Unit::from_i64(25)), dim.min.size());
    assert_eq!(Some(Unit::from_i64(400)), dim.max.size());
    assert_eq!(Some(Fill::new(2)), dim.grow);
    assert_eq!(Some(Fill::new(3)), dim.shrink);
}

#[test]
fn size_is_zero() {
    let dim = FlexDim::content();
    assert_eq!(None, dim.base.size());
    assert!(dim.is_content());
    assert_eq!(Unit::zero(), dim.base_size());
}

#[test]
fn it_clamps() {
    let dim = FlexDim::fixed(Unit::from_i64(10)).with_min(MaybeDim::Fixed(Unit::from_i64(15)));
    assert_eq!(Unit::from_i64(15), dim.base_size());
    assert_eq!(Unit::from_i64(15), dim.min.size().unwrap());

    let dim = FlexDim::fixed(Unit::from_i64(15)).with_max(MaybeDim::Fixed(Unit::from_i64(10)));
    assert_eq!(Unit::from_i64(10), dim.base_size());
    assert_eq!(Unit::from_i64(10), dim.max.size().unwrap());

    let dim = FlexDim::fixed(Unit::from_i64(10))
        .with_min(MaybeDim::Fixed(Unit::from_i64(15)))
        .with_max(MaybeDim::Fixed(Unit::from_i64(5)));
    assert_eq!(Unit::from_i64(5), dim.base_size());
    assert_eq!(Unit::from_i64(5), dim.min.size().unwrap());
    assert_eq!(Unit::from_i64(5), dim.max.size().unwrap());

    let dim = FlexDim::fixed(Unit::from_i64(10))
        .with_max(MaybeDim::Fixed(Unit::from_i64(5)))
        .with_min(MaybeDim::Fixed(Unit::from_i64(15)));
    assert_eq!(Unit::from_i64(15), dim.base_size());
    assert_eq!(Unit::from_i64(15), dim.min.size().unwrap());
    assert_eq!(Unit::from_i64(15), dim.max.size().unwrap());
}

#[test]
fn min_max() {
    let dim = FlexDim::fixed(Unit::from_i64(15)).min_of(&FlexDim::fixed(Unit::from_i64(10)));
    assert_eq!(Unit::from_i64(10), dim.base_size());

    let dim = FlexDim::fixed(Unit::from_i64(5)).max_of(&FlexDim::fixed(Unit::from_i64(10)));
    assert_eq!(Unit::from_i64(10), dim.base_size());
}

#[test]
fn binary_ops() {
    let dim1 = FlexDim::fixed(Unit::from_i64(10))
        .with_min(MaybeDim::Fixed(Unit::from_i64(5)))
        .with_max(MaybeDim::Fixed(Unit::from_i64(15)))
        .with_shrink(Fill::new(1))
        .with_grow(Fill::new(2));
    let dim2 = FlexDim::fixed(Unit::from_i64(11))
        .with_min(MaybeDim::Fixed(Unit::from_i64(4)))
        .with_max(MaybeDim::Fixed(Unit::from_i64(16)))
        .with_shrink(Fill::new(1))
        .with_grow(Fill::new(1));

    let dim = dim1.add(&dim2);
    assert_eq!(Unit::from_i64(21), dim.base_size());
    assert_eq!(9, dim.min.size().unwrap().0);
    assert_eq!(31, dim.max.size().unwrap().0);
    assert_eq!(2, dim.shrink.unwrap().0);
    assert_eq!(3, dim.grow.unwrap().0);

    let dim = dim1.sub(&dim2);
    assert_eq!(Unit::from_i64(-1), dim.base_size());
    assert_eq!(-1, dim.min.size().unwrap().0);
    assert_eq!(-1, dim.max.size().unwrap().0);
    assert_eq!(0, dim.shrink.unwrap().0);
    assert_eq!(1, dim.grow.unwrap().0);

    let dim = dim2.sub(&dim1);
    assert_eq!(Unit::from_i64(1), dim.base_size());
    assert_eq!(-1, dim.min.size().unwrap().0);
    assert_eq!(1, dim.max.size().unwrap().0);
    assert_eq!(0, dim.shrink.unwrap().0);
    assert_eq!(0, dim.grow.unwrap().0);

    let unit = Unit(2);
    let dim = dim1.add_len(unit);
    assert_eq!(Unit::from_i64(12), dim.base_size());
    assert_eq!(5, dim.min.size().unwrap().0);
    assert_eq!(15, dim.max.size().unwrap().0);
    assert_eq!(1, dim.shrink.unwrap().0);
    assert_eq!(2, dim.grow.unwrap().0);

    let dim = dim1.sub_len(unit);
    assert_eq!(Unit::from_i64(8), dim.base_size());
    assert_eq!(5, dim.min.size().unwrap().0);
    assert_eq!(15, dim.max.size().unwrap().0);
    assert_eq!(1, dim.shrink.unwrap().0);
    assert_eq!(2, dim.grow.unwrap().0);
}

#[test]
fn it_fills_size() {
    let dim = FlexDim::fixed(Unit::from_i64(10));
    let size = dim.size_filled(Unit(20));
    assert_eq!(Unit::from_i64(10), size);

    let dim = FlexDim::fixed(Unit::from_i64(10)).with_grow(Fill::new(1));
    let size = dim.size_filled(Unit(20));
    assert_eq!(Unit::from_i64(20), size);

    let dim = FlexDim::fixed(Unit::from_i64(10))
        .with_grow(Fill::new(1))
        .with_max(MaybeDim::Fixed(Unit::from_i64(15)));
    let size = dim.size_filled(Unit(20));
    assert_eq!(Unit::from_i64(15), size);

    let dim = FlexDim::fixed(Unit::from_i64(10));
    let size = dim.size_filled(Unit(5));
    assert_eq!(Unit::from_i64(10), size);

    let dim = FlexDim::fixed(Unit::from_i64(10)).with_shrink(Fill::new(1));
    let size = dim.size_filled(Unit(5));
    assert_eq!(Unit::from_i64(5), size);

    let dim = FlexDim::fixed(Unit::from_i64(100))
        .with_shrink(Fill::new(1))
        .with_min(MaybeDim::Fixed(Unit::from_i64(75)));
    let size = dim.size_filled(Unit(50));
    assert_eq!(Unit::from_i64(75), size);
}

#[test]
fn it_distributes_size() {
    let dim = FlexDim::fixed(Unit::from_i64(10));
    let size = dim.size_distributed(Unit::from_i64(10), None, None);
    assert_eq!(Unit::from_i64(10), size);

    let dim = FlexDim::fixed(Unit::from_i64(10));
    let size = dim.size_distributed(Unit::from_i64(10), Some(Fill::new(10)), Some(Fill::new(10)));
    assert_eq!(Unit::from_i64(10), size);

    let dim = FlexDim::fixed(Unit::from_i64(10)).with_grow(Fill::new(5));
    let size = dim.size_distributed(Unit::from_i64(10), None, None);
    assert_eq!(Unit::from_i64(10), size);

    let dim = FlexDim::fixed(Unit::from_i64(10)).with_grow(Fill::new(5));
    let size = dim.size_distributed(Unit::from_i64(10), Some(Fill::new(5)), None);
    assert_eq!(Unit::from_i64(20), size);

    let dim = FlexDim::fixed(Unit::from_i64(10)).with_grow(Fill::new(5));
    let size = dim.size_distributed(Unit::from_i64(10), Some(Fill::new(10)), None);
    assert_eq!(Unit::from_i64(15), size);

    let dim = FlexDim::fixed(Unit::from_i64(10)).with_grow(Fill::new(5)).with_shrink(Fill::new(5));
    let size = dim.size_distributed(Unit::from_i64(10), Some(Fill::new(10)), Some(Fill::new(10)));
    assert_eq!(Unit::from_i64(15), size);

    let dim = FlexDim::fixed(Unit::from_i64(10)).with_shrink(Fill::new(5));
    let size = dim.size_distributed(Unit::from_i64(-10), None, None);
    assert_eq!(Unit::from_i64(10), size);

    let dim = FlexDim::fixed(Unit::from_i64(10)).with_shrink(Fill::new(5));
    let size = dim.size_distributed(Unit::from_i64(-10), None, Some(Fill::new(5)));
    assert_eq!(Unit::from_i64(0), size);

    let dim = FlexDim::fixed(Unit::from_i64(10)).with_shrink(Fill::new(5));
    let size = dim.size_distributed(Unit::from_i64(-10), None, Some(Fill::new(10)));
    assert_eq!(Unit::from_i64(5), size);

    let dim = FlexDim::fixed(Unit::from_i64(10)).with_grow(Fill::new(5)).with_shrink(Fill::new(5));
    let size = dim.size_distributed(Unit::from_i64(-10), Some(Fill::new(10)), Some(Fill::new(10)));
    assert_eq!(Unit::from_i64(5), size);
}

#[test]
fn resolve_content_overwrites_a_resolved_content_basis() {
    let mut dim = FlexDim::content();
    dim.resolve_content(Unit::from_i64(5));
    assert_eq!(Dim::Content(Some(Unit(5))), dim.base);

    dim.resolve_content(Unit::from_i64(9));
    assert_eq!(Dim::Content(Some(Unit(9))), dim.base);

    let mut fixed = FlexDim::fixed(Unit::from_i64(7));
    fixed.resolve_content(Unit::from_i64(9));
    assert_eq!(Dim::Fixed(Unit(7)), fixed.base);
}
