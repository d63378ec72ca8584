use flexpage::unit::{add_fill, sub_fill, Fill, Unit};

#[test]
fn they_constructs() {
    let unit: Unit = Unit::from_i64(297);
    assert_eq!(297, unit.0);

    let fill: Fill = Fill::new(15);
    assert_eq!(15, fill.0);
}

#[test]
fn unit_bin_ops() {
    let unit1: Unit = Unit::from_i64(12);
    let unit2: Unit = Unit::from_i64(-6);

    assert_eq!(Unit::from_i64(6), unit1.add(unit2));
    assert_eq!(Unit::from_i64(18), unit1.sub(unit2));
}

#[test]
fn unit_assign_ops() {
    let unit1: Unit = Unit::from_i64(12);
    let unit2: Unit = Unit::from_i64(-6);

    let mut unit3 = unit1;
    unit3 = unit3.add(unit2);
    assert_eq!(Unit::from_i64(6), unit3);

    let mut unit3 = unit1;
    unit3 = unit3.sub(unit2);
    assert_eq!(Unit::from_i64(18), unit3);
}

#[test]
fn fill_bin_ops() {
    let fill1: Fill = Fill::new(12);
    let fill2: Fill = Fill::new(6);

    assert_eq!(18, (fill1.add(fill2)).0);
    assert_eq!(6, (fill1.sub(fill2)).0);
}

#[test]
fn fill_assign_ops() {
    let fill1: Fill = Fill::new(12);
    let fill2: Fill = Fill::new(6);

    let mut fill3 = fill1;
    fill3 = fill3.add(fill2);
    assert_eq!(18, fill3.0);

    let mut fill3 = fill1;
    fill3 = fill3.sub(fill2);
    assert_eq!(6, fill3.0);
}

#[test]
fn unit_fill_bin_ops() {
    let unit: Unit = Unit::from_i64(12);
    let fill: Fill = Fill::new(2);

    assert_eq!(Unit::from_i64(24), unit.mul_ratio(fill, Fill::equal()));
    assert_eq!(Unit::from_i64(6), unit.mul_ratio(Fill::equal(), fill));
}

#[test]
fn unit_fill_assign_ops() {
    let unit: Unit = Unit::from_i64(12);
    let fill: Fill = Fill::new(2);

    let mut unit1 = unit;
    unit1 = unit1.mul_ratio(fill, Fill::equal());
    assert_eq!(Unit::from_i64(24), unit1);

    let mut unit1 = unit;
    unit1 = unit1.mul_ratio(Fill::equal(), fill);
    assert_eq!(Unit::from_i64(6), unit1);
}

#[test]
fn fill_ops_with_option() {
    let fill1 = Some(Fill::new(5));
    let fill2 = Some(Fill::new(15));

    assert!(add_fill(None, None).is_none());
    assert_eq!(add_fill(fill1, None).unwrap().0, 5);
    assert_eq!(add_fill(None, fill2).unwrap().0, 15);
    assert_eq!(add_fill(fill1, fill2).unwrap().0, 20);

    assert!(sub_fill(None, None).is_none());
    assert_eq!(sub_fill(fill1, None).unwrap().0, 5);
    assert_eq!(sub_fill(None, fill2).unwrap().0, 0);
    assert_eq!(sub_fill(fill1, fill2).unwrap().0, 0);
}

#[test]
fn ratio_rounds_half_away_from_zero() {
    assert_eq!(2, Unit::from_i64(3).mul_ratio(Fill::new(1), Fill::new(2)).0);
    assert_eq!(-2, Unit::from_i64(-3).mul_ratio(Fill::new(1), Fill::new(2)).0);
    assert_eq!(0, Unit::from_i64(7).mul_ratio(Fill::new(1), Fill::new(0)).0);
}

#[test]
fn saturation_at_the_bounds() {
    assert_eq!(i64::MAX, Unit::infinity().add(Unit::from_i64(1)).0);
    assert_eq!(i64::MIN, Unit::from_i64(i64::MIN).sub(Unit::from_i64(1)).0);
    assert_eq!(0, Fill::new(3).sub(Fill::new(5)).0);
}
