//! One-axis sizing policy: the basis of a dimension and its flexible
//! resolution rules.
//!
//! A `Dim` is the primary requested size of one dimension: determined by
//! content, an explicit length, or a percentage of a parent-provided
//! length.  A `MaybeDim` is an optional bound of the same shape.  A
//! `FlexDim` combines a basis with optional min/max bounds and grow/shrink
//! weights, and knows how to resolve itself against a parent length, a
//! content length, or a granted room.

use vstd::prelude::*;

use crate::unit::{Fill, FillPerMille, Unit, abs_of, clip, clip_usize, ratio_round, sat_add,
    sat_sub, sign_of};

verus! {

/// An optional dimension bound: absent, an explicit length, or a
/// parent-relative per-mille share (with its resolved length, once known).
#[derive(Debug, Clone, Copy, PartialEq, Eq, Structural)]
pub enum MaybeDim {
    Unset,
    Fixed(Unit),
    Parent(FillPerMille, Option<Unit>),
}

/// The concrete length a bound yields, if known yet.
pub open spec fn spec_maybe_size(m: MaybeDim) -> Option<Unit> {
    match m {
        MaybeDim::Unset => Option::None,
        MaybeDim::Fixed(u) => Option::Some(u),
        MaybeDim::Parent(_, s) => s,
    }
}

/// Filling the pending slot of an unresolved parent-relative bound.
pub open spec fn spec_maybe_resolve(m: MaybeDim, v: Unit) -> MaybeDim {
    match m {
        MaybeDim::Parent(f, Option::None) => MaybeDim::Parent(f, Option::Some(v)),
        _ => m,
    }
}

/// Reading a bound as a basis.
pub open spec fn spec_maybe_to_dim(m: MaybeDim) -> Dim {
    match m {
        MaybeDim::Unset => Dim::Content(Option::None),
        MaybeDim::Fixed(u) => Dim::Fixed(u),
        MaybeDim::Parent(f, s) => Dim::Parent(f, s),
    }
}

impl MaybeDim {
    pub fn is_parented(&self) -> (r: bool)
        ensures
            r == (self matches MaybeDim::Parent(..)),
    {
        matches!(self, MaybeDim::Parent(..))
    }

    pub fn parent_fill(&self) -> (r: FillPerMille)
        ensures
            r == (match self {
                MaybeDim::Parent(f, _) => *f,
                _ => Fill(0),
            }),
    {
        match self {
            MaybeDim::Parent(fill, _) => *fill,
            _ => FillPerMille::none(),
        }
    }

    pub fn size(&self) -> (r: Option<Unit>)
        ensures
            r == spec_maybe_size(*self),
    {
        match self {
            MaybeDim::Unset => None,
            MaybeDim::Fixed(size) => Some(*size),
            MaybeDim::Parent(_, size) => *size,
        }
    }

    pub fn set_size(&mut self, unit: Unit)
        ensures
            *final(self) == MaybeDim::Fixed(unit),
    {
        *self = MaybeDim::Fixed(unit);
    }

    pub fn resolve(&mut self, size: Unit)
        ensures
            *final(self) == spec_maybe_resolve(*old(self), size),
    {
        if let MaybeDim::Parent(fill, None) = self {
            *self = MaybeDim::Parent(*fill, Some(size));
        }
    }

    pub fn to_dim(self) -> (r: Dim)
        ensures
            r == spec_maybe_to_dim(self),
    {
        match self {
            MaybeDim::Unset => Dim::Content(None),
            MaybeDim::Fixed(unit) => Dim::Fixed(unit),
            MaybeDim::Parent(fill, unit) => Dim::Parent(fill, unit),
        }
    }

    /// Present-side-wins choice: `self` unless it is unset.
    pub fn or(self, other: Self) -> (r: Self)
        ensures
            r == (if (self matches MaybeDim::Unset) {
                other
            } else {
                self
            }),
    {
        match self {
            MaybeDim::Unset => other,
            _ => self,
        }
    }
}

/// The primary requested size of one dimension.
#[derive(Debug, Clone, Copy, PartialEq, Eq, Structural)]
pub enum Dim {
    Content(Option<Unit>),
    Fixed(Unit),
    Parent(FillPerMille, Option<Unit>),
}

/// The concrete length a basis yields, if known yet.
pub open spec fn spec_dim_size(d: Dim) -> Option<Unit> {
    match d {
        Dim::Content(s) => s,
        Dim::Fixed(u) => Option::Some(u),
        Dim::Parent(_, s) => s,
    }
}

/// Overwriting the length of a basis while keeping its kind.
pub open spec fn spec_dim_set_size(d: Dim, v: Unit) -> Dim {
    match d {
        Dim::Content(_) => Dim::Content(Option::Some(v)),
        Dim::Fixed(_) => Dim::Fixed(v),
        Dim::Parent(f, _) => Dim::Parent(f, Option::Some(v)),
    }
}

/// Filling the pending slot of an unresolved basis.
pub open spec fn spec_dim_resolve(d: Dim, v: Unit) -> Dim {
    match d {
        Dim::Parent(f, Option::None) => Dim::Parent(f, Option::Some(v)),
        Dim::Content(Option::None) => Dim::Content(Option::Some(v)),
        _ => d,
    }
}

/// Combination of two bases: where both lengths are known the combined
/// length is fixed, and an unknown side leaves the other unchanged.
pub open spec fn spec_dim_combine(l: Dim, r: Dim, both: Unit, only_r: Dim) -> Dim {
    match (spec_dim_size(l), spec_dim_size(r)) {
        (Option::None, Option::None) => Dim::Content(Option::None),
        (Option::None, Option::Some(_)) => only_r,
        (Option::Some(_), Option::None) => l,
        (Option::Some(_), Option::Some(_)) => Dim::Fixed(both),
    }
}

/// The concrete length of a basis, read as a mathematical integer; an
/// unknown length reads as zero.
pub open spec fn dim_len(d: Dim) -> int {
    match spec_dim_size(d) {
        Option::Some(u) => u.0 as int,
        Option::None => 0,
    }
}

pub open spec fn spec_dim_add(l: Dim, r: Dim) -> Dim {
    spec_dim_combine(l, r, Unit(sat_add(dim_len(l), dim_len(r)) as i64), r)
}

pub open spec fn spec_dim_sub(l: Dim, r: Dim) -> Dim {
    spec_dim_combine(
        l,
        r,
        Unit(sat_sub(dim_len(l), dim_len(r)) as i64),
        Dim::Fixed(Unit(clip(-dim_len(r)) as i64)),
    )
}

pub open spec fn spec_dim_min_of(l: Dim, r: Dim) -> Dim {
    spec_dim_combine(
        l,
        r,
        if dim_len(l) <= dim_len(r) {
            Unit(dim_len(l) as i64)
        } else {
            Unit(dim_len(r) as i64)
        },
        r,
    )
}

pub open spec fn spec_dim_max_of(l: Dim, r: Dim) -> Dim {
    spec_dim_combine(
        l,
        r,
        if dim_len(l) >= dim_len(r) {
            Unit(dim_len(l) as i64)
        } else {
            Unit(dim_len(r) as i64)
        },
        r,
    )
}

impl Dim {
    pub fn content() -> (r: Self)
        ensures
            r == Dim::Content(Option::<Unit>::None),
    {
        Dim::Content(None)
    }

    pub fn is_fixed(&self) -> (r: bool)
        ensures
            r == (self matches Dim::Fixed(_)),
    {
        matches!(self, Dim::Fixed(_))
    }

    pub fn is_content(&self) -> (r: bool)
        ensures
            r == (self matches Dim::Content(_)),
    {
        matches!(self, Dim::Content(_))
    }

    pub fn is_parented(&self) -> (r: bool)
        ensures
            r == (self matches Dim::Parent(..)),
    {
        matches!(self, Dim::Parent(..))
    }

    /// Whether the basis already yields a concrete length.
    pub fn is_resolved(&self) -> (r: bool)
        ensures
            r == (spec_dim_size(*self) matches Option::Some(_)),
    {
        matches!(
            self,
            Dim::Content(Some(_)) | Dim::Fixed(_) | Dim::Parent(_, Some(_))
        )
    }

    pub fn parent_fill(&self) -> (r: FillPerMille)
        ensures
            r == (match self {
                Dim::Parent(f, _) => *f,
                _ => Fill(0),
            }),
    {
        match self {
            Dim::Parent(fill, _) => *fill,
            _ => FillPerMille::none(),
        }
    }

    pub fn size(&self) -> (r: Option<Unit>)
        ensures
            r == spec_dim_size(*self),
    {
        match self {
            Dim::Content(size) => *size,
            Dim::Fixed(size) => Some(*size),
            Dim::Parent(_, size) => *size,
        }
    }

    pub fn set_size(&mut self, size: Unit)
        ensures
            *final(self) == spec_dim_set_size(*old(self), size),
    {
        match self {
            Dim::Parent(fill, _) => *self = Dim::Parent(*fill, Some(size)),
            Dim::Content(_) => *self = Dim::Content(Some(size)),
            Dim::Fixed(_) => *self = Dim::Fixed(size),
        }
    }

    pub fn resolve(&mut self, size: Unit)
        ensures
            *final(self) == spec_dim_resolve(*old(self), size),
    {
        match self {
            Dim::Parent(fill, None) => *self = Dim::Parent(*fill, Some(size)),
            Dim::Content(None) => *self = Dim::Content(Some(size)),
            _ => (),
        }
    }

    pub fn min_of(&self, r: &Self) -> (result: Self)
        ensures
            result == spec_dim_min_of(*self, *r),
    {
        match (self.size(), r.size()) {
            (None, None) => Dim::Content(None),
            (None, Some(_)) => *r,
            (Some(_), None) => *self,
            (Some(l), Some(rv)) => Dim::Fixed(l.min_with(rv)),
        }
    }

    pub fn max_of(&self, r: &Self) -> (result: Self)
        ensures
            result == spec_dim_max_of(*self, *r),
    {
        match (self.size(), r.size()) {
            (None, None) => Dim::Content(None),
            (None, Some(_)) => *r,
            (Some(_), None) => *self,
            (Some(l), Some(rv)) => Dim::Fixed(l.max_with(rv)),
        }
    }

    /// Sum of two bases; both lengths known gives their fixed sum.
    pub fn add(&self, r: &Self) -> (result: Self)
        ensures
            result == spec_dim_add(*self, *r),
    {
        match (self.size(), r.size()) {
            (None, None) => Dim::Content(None),
            (None, Some(_)) => *r,
            (Some(_), None) => *self,
            (Some(l), Some(rv)) => Dim::Fixed(l.add(rv)),
        }
    }

    /// Difference of two bases; an unknown left side negates the right.
    pub fn sub(&self, r: &Self) -> (result: Self)
        ensures
            result == spec_dim_sub(*self, *r),
    {
        match (self.size(), r.size()) {
            (None, None) => Dim::Content(None),
            (None, Some(rv)) => Dim::Fixed(Unit::zero().sub(rv)),
            (Some(_), None) => *self,
            (Some(l), Some(rv)) => Dim::Fixed(l.sub(rv)),
        }
    }

    /// Present-side-wins choice: `self` unless it is pending content.
    pub fn or(self, other: Self) -> (r: Self)
        ensures
            r == (if (self matches Dim::Content(Option::None)) {
                other
            } else {
                self
            }),
    {
        match self {
            Dim::Content(None) => other,
            _ => self,
        }
    }
}

/// The one-axis sizing record: a basis with optional bounds and weights.
#[derive(Debug, Clone, Copy, PartialEq, Eq, Structural)]
pub struct FlexDim {
    pub base: Dim,
    pub min: MaybeDim,
    pub max: MaybeDim,
    pub grow: Option<Fill>,
    pub shrink: Option<Fill>,
}

/// The concrete length of the basis, or zero while it is unresolved.
pub open spec fn spec_base_size(f: FlexDim) -> Unit {
    match spec_dim_size(f.base) {
        Option::Some(u) => u,
        Option::None => Unit(0),
    }
}

/// The clamp invariant: wherever two of base, min and max yield concrete
/// lengths, they are ordered as `min <= base <= max`.
pub open spec fn spec_clamped(f: FlexDim) -> bool {
    &&& match (spec_dim_size(f.base), spec_maybe_size(f.min)) {
        (Option::Some(b), Option::Some(m)) => m.0 <= b.0,
        _ => true,
    }
    &&& match (spec_dim_size(f.base), spec_maybe_size(f.max)) {
        (Option::Some(b), Option::Some(x)) => b.0 <= x.0,
        _ => true,
    }
    &&& match (spec_maybe_size(f.min), spec_maybe_size(f.max)) {
        (Option::Some(m), Option::Some(x)) => m.0 <= x.0,
        _ => true,
    }
}

/// What `set_base` stores: the incoming basis raised to `min` and lowered
/// to `max` wherever those lengths are known.
pub open spec fn spec_clamp_base(base: Dim, min: MaybeDim, max: MaybeDim) -> Dim {
    let raised = if spec_dim_size(base) matches Option::Some(b)
        && spec_maybe_size(min) matches Option::Some(m) && b.0 < m.0 {
        spec_maybe_to_dim(min)
    } else {
        base
    };
    if spec_dim_size(raised) matches Option::Some(b)
        && spec_maybe_size(max) matches Option::Some(x) && b.0 > x.0 {
        spec_maybe_to_dim(max)
    } else {
        raised
    }
}

/// What `set_min` leaves behind: base and max are raised to the new
/// minimum wherever their lengths are known to lie below it.
pub open spec fn spec_with_min(f: FlexDim, min: MaybeDim) -> FlexDim {
    let base = if spec_dim_size(f.base) matches Option::Some(b)
        && spec_maybe_size(min) matches Option::Some(m) && b.0 < m.0 {
        spec_maybe_to_dim(min)
    } else {
        f.base
    };
    let max = if spec_maybe_size(f.max) matches Option::Some(x)
        && spec_maybe_size(min) matches Option::Some(m) && x.0 < m.0 {
        min
    } else {
        f.max
    };
    FlexDim { base, min, max, grow: f.grow, shrink: f.shrink }
}

/// What `set_max` leaves behind: base and min are lowered to the new
/// maximum wherever their lengths are known to lie above it.
pub open spec fn spec_with_max(f: FlexDim, max: MaybeDim) -> FlexDim {
    let base = if spec_dim_size(f.base) matches Option::Some(b)
        && spec_maybe_size(max) matches Option::Some(x) && b.0 > x.0 {
        spec_maybe_to_dim(max)
    } else {
        f.base
    };
    let min = if spec_maybe_size(f.min) matches Option::Some(m)
        && spec_maybe_size(max) matches Option::Some(x) && m.0 > x.0 {
        max
    } else {
        f.min
    };
    FlexDim { base: base, min, max, grow: f.grow, shrink: f.shrink }
}

/// What resolving against a parent length yields: each parent-relative
/// side takes its per-mille share of `parent`; a parent-relative basis is
/// additionally clamped into the known bounds.
pub open spec fn spec_resolve_parented(f: FlexDim, parent: Unit) -> FlexDim {
    let min = if (f.min matches MaybeDim::Parent(..)) {
        spec_maybe_resolve(
            f.min,
            Unit(ratio_round(parent.0 as int, f.min->Parent_0.0 as int, 1000) as i64),
        )
    } else {
        f.min
    };
    let max = if (f.max matches MaybeDim::Parent(..)) {
        spec_maybe_resolve(
            f.max,
            Unit(ratio_round(parent.0 as int, f.max->Parent_0.0 as int, 1000) as i64),
        )
    } else {
        f.max
    };
    let base = if (f.base matches Dim::Parent(..)) {
        let bv = Unit(ratio_round(parent.0 as int, f.base->Parent_0.0 as int, 1000) as i64);
        let clamped = match spec_maybe_size(min) {
            Option::Some(m) if m.0 > bv.0 => m,
            _ => match spec_maybe_size(max) {
                Option::Some(x) if x.0 < bv.0 => x,
                _ => bv,
            },
        };
        spec_dim_resolve(f.base, clamped)
    } else {
        f.base
    };
    FlexDim { base, min, max, grow: f.grow, shrink: f.shrink }
}

/// What a dimension takes when offered `room`: the basis, expanded toward
/// `room` under a grow weight or shrunk toward it under a shrink weight,
/// clamped by the known bounds.
pub open spec fn spec_size_filled(f: FlexDim, room: Unit) -> Unit {
    let size = spec_base_size(f);
    if size.0 < room.0 {
        match (spec_maybe_size(f.max), f.grow) {
            (_, Option::None) => size,
            (Option::None, Option::Some(_)) => room,
            (Option::Some(x), Option::Some(_)) => if room.0 <= x.0 {
                room
            } else {
                x
            },
        }
    } else if size.0 == room.0 {
        size
    } else {
        match (spec_maybe_size(f.min), f.shrink) {
            (_, Option::None) => size,
            (Option::None, Option::Some(_)) => room,
            (Option::Some(m), Option::Some(_)) => if room.0 >= m.0 {
                room
            } else {
                m
            },
        }
    }
}

/// What a content-typed dimension may use of `room`: the room itself,
/// clamped by the known bounds; any other dimension takes `size_filled`.
pub open spec fn spec_size_available(f: FlexDim, room: Unit) -> Unit {
    if (f.base matches Dim::Content(_)) {
        let capped = match spec_maybe_size(f.max) {
            Option::Some(x) => if room.0 <= x.0 {
                room
            } else {
                x
            },
            Option::None => room,
        };
        match spec_maybe_size(f.min) {
            Option::Some(m) => if capped.0 >= m.0 {
                capped
            } else {
                m
            },
            Option::None => capped,
        }
    } else {
        spec_size_filled(f, room)
    }
}

/// What a dimension takes of a distributed slack: its proportional share
/// of `slack` by its grow weight (positive slack) or shrink weight
/// (negative slack) over the line's summed weights, then filled.
pub open spec fn spec_size_distributed(
    f: FlexDim,
    slack: Unit,
    sum_grow: Option<Fill>,
    sum_shrink: Option<Fill>,
) -> Unit {
    let size = spec_base_size(f);
    if slack.0 < 0 {
        match (f.shrink, sum_shrink) {
            (Option::Some(shrink), Option::Some(total)) => spec_size_filled(
                f,
                Unit(
                    sat_add(
                        size.0 as int,
                        ratio_round(slack.0 as int, shrink.0 as int, total.0 as int),
                    ) as i64,
                ),
            ),
            _ => size,
        }
    } else if slack.0 == 0 {
        size
    } else {
        match (f.grow, sum_grow) {
            (Option::Some(grow), Option::Some(total)) => spec_size_filled(
                f,
                Unit(
                    sat_add(
                        size.0 as int,
                        ratio_round(slack.0 as int, grow.0 as int, total.0 as int),
                    ) as i64,
                ),
            ),
            _ => size,
        }
    }
}

/// Componentwise sum of two records, with bounds and weights combined by
/// their own addition rules.
pub open spec fn spec_flex_add(l: FlexDim, r: FlexDim) -> FlexDim {
    FlexDim {
        base: spec_dim_add(l.base, r.base),
        min: spec_maybe_add(l.min, r.min),
        max: spec_maybe_add(l.max, r.max),
        grow: crate::unit::spec_add_fill(l.grow, r.grow),
        shrink: crate::unit::spec_add_fill(l.shrink, r.shrink),
    }
}

pub open spec fn spec_maybe_add(l: MaybeDim, r: MaybeDim) -> MaybeDim {
    match (spec_maybe_size(l), spec_maybe_size(r)) {
        (Option::None, Option::None) => MaybeDim::Unset,
        (Option::None, Option::Some(_)) => r,
        (Option::Some(_), Option::None) => l,
        (Option::Some(lv), Option::Some(rv)) => MaybeDim::Fixed(
            Unit(sat_add(lv.0 as int, rv.0 as int) as i64),
        ),
    }
}

pub open spec fn spec_maybe_sub(l: MaybeDim, r: MaybeDim) -> MaybeDim {
    match (spec_maybe_size(l), spec_maybe_size(r)) {
        (Option::None, Option::None) => MaybeDim::Unset,
        (Option::None, Option::Some(rv)) => MaybeDim::Fixed(Unit(clip(-(rv.0 as int)) as i64)),
        (Option::Some(_), Option::None) => l,
        (Option::Some(lv), Option::Some(rv)) => MaybeDim::Fixed(
            Unit(sat_sub(lv.0 as int, rv.0 as int) as i64),
        ),
    }
}

/// Componentwise difference of two records, with the bounds afterwards
/// pulled back to the new basis where they cross it.
pub open spec fn spec_flex_sub(l: FlexDim, r: FlexDim) -> FlexDim {
    let d = FlexDim {
        base: spec_dim_sub(l.base, r.base),
        min: spec_maybe_sub(l.min, r.min),
        max: spec_maybe_sub(l.max, r.max),
        grow: crate::unit::spec_sub_fill(l.grow, r.grow),
        shrink: crate::unit::spec_sub_fill(l.shrink, r.shrink),
    };
    let min = match (spec_dim_size(d.base), spec_maybe_size(d.min)) {
        (Option::Some(b), Option::Some(m)) if m.0 > b.0 => MaybeDim::Fixed(b),
        _ => d.min,
    };
    let max = match (spec_dim_size(d.base), spec_maybe_size(d.max)) {
        (Option::Some(b), Option::Some(x)) if x.0 < b.0 => MaybeDim::Fixed(b),
        _ => d.max,
    };
    FlexDim { base: d.base, min, max, grow: d.grow, shrink: d.shrink }
}

impl FlexDim {
    pub fn none() -> (r: Self)
        ensures
            r == (FlexDim {
                base: Dim::Content(Option::<Unit>::None),
                min: MaybeDim::Unset,
                max: MaybeDim::Unset,
                grow: Option::<Fill>::None,
                shrink: Option::<Fill>::None,
            }),
    {
        FlexDim {
            base: Dim::Content(None),
            min: MaybeDim::Unset,
            max: MaybeDim::Unset,
            grow: None,
            shrink: None,
        }
    }

    pub fn content() -> (r: Self)
        ensures
            r == (FlexDim {
                base: Dim::Content(Option::<Unit>::None),
                min: MaybeDim::Unset,
                max: MaybeDim::Unset,
                grow: Option::<Fill>::None,
                shrink: Option::<Fill>::None,
            }),
    {
        FlexDim::none()
    }

    pub fn parented(fill: FillPerMille) -> (r: Self)
        ensures
            r == (FlexDim {
                base: Dim::Parent(fill, Option::<Unit>::None),
                min: MaybeDim::Unset,
                max: MaybeDim::Unset,
                grow: Option::<Fill>::None,
                shrink: Option::<Fill>::None,
            }),
    {
        FlexDim {
            base: Dim::Parent(fill, None),
            min: MaybeDim::Unset,
            max: MaybeDim::Unset,
            grow: None,
            shrink: None,
        }
    }

    pub fn fixed(size: Unit) -> (r: Self)
        ensures
            r == (FlexDim {
                base: Dim::Fixed(size),
                min: MaybeDim::Unset,
                max: MaybeDim::Unset,
                grow: Option::<Fill>::None,
                shrink: Option::<Fill>::None,
            }),
    {
        FlexDim {
            base: Dim::Fixed(size),
            min: MaybeDim::Unset,
            max: MaybeDim::Unset,
            grow: None,
            shrink: None,
        }
    }

    /// A dimension of basis zero that grows with the given weight.
    pub fn grown(fill: Fill) -> (r: Self)
        ensures
            r == (FlexDim {
                base: Dim::Fixed(Unit(0)),
                min: MaybeDim::Unset,
                max: MaybeDim::Unset,
                grow: Option::Some(fill),
                shrink: Option::<Fill>::None,
            }),
    {
        FlexDim {
            base: Dim::Fixed(Unit(0)),
            min: MaybeDim::Unset,
            max: MaybeDim::Unset,
            grow: Some(fill),
            shrink: None,
        }
    }

    pub fn with_min(self, min: MaybeDim) -> (r: Self)
        ensures
            r == spec_with_min(self, min),
    {
        let mut d = self;
        d.set_min(min);
        d
    }

    pub fn with_max(self, max: MaybeDim) -> (r: Self)
        ensures
            r == spec_with_max(self, max),
    {
        let mut d = self;
        d.set_max(max);
        d
    }

    pub fn with_grow(self, fill: Fill) -> (r: Self)
        ensures
            r == (FlexDim { grow: Option::Some(fill), ..self }),
    {
        let mut d = self;
        d.set_grow(fill);
        d
    }

    pub fn with_shrink(self, fill: Fill) -> (r: Self)
        ensures
            r == (FlexDim { shrink: Option::Some(fill), ..self }),
    {
        let mut d = self;
        d.set_shrink(fill);
        d
    }

    /// Fills every still-unset slot from the style; explicit settings win.
    pub fn complete_with_style(
        &mut self,
        size: Dim,
        min: MaybeDim,
        max: MaybeDim,
        grow: Option<Fill>,
        shrink: Option<Fill>,
    )
        ensures
            final(self).base == (if (old(self).base matches Dim::Content(Option::None)) {
                size
            } else {
                old(self).base
            }),
            final(self).min == (if (old(self).min matches MaybeDim::Unset) {
                min
            } else {
                old(self).min
            }),
            final(self).max == (if (old(self).max matches MaybeDim::Unset) {
                max
            } else {
                old(self).max
            }),
            final(self).grow == (if (old(self).grow matches Option::None) {
                grow
            } else {
                old(self).grow
            }),
            final(self).shrink == (if (old(self).shrink matches Option::None) {
                shrink
            } else {
                old(self).shrink
            }),
    {
        self.base = self.base.or(size);
        self.min = self.min.or(min);
        self.max = self.max.or(max);
        self.grow = if self.grow.is_none() {
            grow
        } else {
            self.grow
        };
        self.shrink = if self.shrink.is_none() {
            shrink
        } else {
            self.shrink
        };
    }

    pub fn is_fixed(&self) -> (r: bool)
        ensures
            r == (self.base matches Dim::Fixed(_)),
    {
        self.base.is_fixed()
    }

    pub fn is_parented(&self) -> (r: bool)
        ensures
            r == (self.base matches Dim::Parent(..)),
    {
        self.base.is_parented()
    }

    pub fn is_content(&self) -> (r: bool)
        ensures
            r == (self.base matches Dim::Content(_)),
    {
        self.base.is_content()
    }

    /// Content-determined with no flexibility at all.
    pub fn is_content_fixed(&self) -> (r: bool)
        ensures
            r == (self.base matches Dim::Content(_) && self.grow matches Option::None
                && self.shrink matches Option::None),
    {
        self.base.is_content() && self.grow.is_none() && self.shrink.is_none()
    }

    /// Carries a grow or shrink weight.
    pub fn is_dyn(&self) -> (r: bool)
        ensures
            r == (self.grow matches Option::Some(_) || self.shrink matches Option::Some(_)),
    {
        self.grow.is_some() || self.shrink.is_some()
    }

    pub fn is_content_or_dyn(&self) -> (r: bool)
        ensures
            r == (self.base matches Dim::Content(_) || self.grow matches Option::Some(_)
                || self.shrink matches Option::Some(_)),
    {
        self.is_content() || self.is_dyn()
    }

    pub fn is_resolved(&self) -> (r: bool)
        ensures
            r == (spec_dim_size(self.base) matches Option::Some(_)),
    {
        self.base.is_resolved()
    }

    /// Stores a new basis, clamped into the known bounds.
    pub fn set_base(&mut self, base: Dim)
        ensures
            *final(self) == (FlexDim { base: spec_clamp_base(base, old(self).min, old(self).max), ..*old(self) }),
    {
        let mut base = base;
        if let (Some(base_size), Some(min)) = (base.size(), self.min.size()) {
            if base_size.0 < min.0 {
                base = self.min.to_dim();
            }
        }
        if let (Some(base_size), Some(max)) = (base.size(), self.max.size()) {
            if base_size.0 > max.0 {
                base = self.max.to_dim();
            }
        }
        self.base = base;
    }

    /// Stores a new minimum, raising base and max up to it where needed.
    pub fn set_min(&mut self, min: MaybeDim)
        ensures
            *final(self) == spec_with_min(*old(self), min),
    {
        if let (Some(base), Some(min_size)) = (self.base.size(), min.size()) {
            if base.0 < min_size.0 {
                self.base = min.to_dim();
            }
        }
        if let (Some(max_size), Some(min_size)) = (self.max.size(), min.size()) {
            if max_size.0 < min_size.0 {
                self.max = min;
            }
        }
        self.min = min;
    }

    /// Stores a new maximum, lowering base and min down to it where needed.
    pub fn set_max(&mut self, max: MaybeDim)
        ensures
            *final(self) == spec_with_max(*old(self), max),
    {
        if let (Some(base_size), Some(max_size)) = (self.base.size(), max.size()) {
            if base_size.0 > max_size.0 {
                self.base = max.to_dim();
            }
        }
        if let (Some(min_size), Some(max_size)) = (self.min.size(), max.size()) {
            if min_size.0 > max_size.0 {
                self.min = max;
            }
        }
        self.max = max;
    }

    /// Adopts a measured content length: a content-typed basis,
    /// resolved or not, takes the new length; fixed and parent-relative
    /// bases are untouched.
    pub fn resolve_content(&mut self, content_size: Unit)
        ensures
            *final(self) == spec_resolve_content(*old(self), content_size),
    {
        if self.base.is_content() {
            self.base.set_size(content_size);
        }
    }

    /// Resolves parent-relative sides against the parent-provided length.
    pub fn resolve_parented(&mut self, parent_size: Unit)
        ensures
            *final(self) == spec_resolve_parented(*old(self), parent_size),
    {
        if self.min.is_parented() {
            let min = parent_size.mul_ratio(self.min.parent_fill(), FillPerMille::mille());
            self.min.resolve(min);
        }

        if self.max.is_parented() {
            let max = parent_size.mul_ratio(self.max.parent_fill(), FillPerMille::mille());
            self.max.resolve(max);
        }

        if self.base.is_parented() {
            let base = parent_size.mul_ratio(self.base.parent_fill(), FillPerMille::mille());
            let clamped = match self.min.size() {
                Some(min) if min.0 > base.0 => min,
                _ => match self.max.size() {
                    Some(max) if max.0 < base.0 => max,
                    _ => base,
                },
            };
            self.base.resolve(clamped);
        }
    }

    pub fn set_grow(&mut self, fill: Fill)
        ensures
            *final(self) == (FlexDim { grow: Option::Some(fill), ..*old(self) }),
    {
        self.grow = Some(fill);
    }

    pub fn set_shrink(&mut self, fill: Fill)
        ensures
            *final(self) == (FlexDim { shrink: Option::Some(fill), ..*old(self) }),
    {
        self.shrink = Some(fill);
    }

    pub fn base_size(&self) -> (r: Unit)
        ensures
            r == spec_base_size(*self),
    {
        match self.base.size() {
            Some(u) => u,
            None => Unit::zero(),
        }
    }

    pub fn size_available(&self, room: Unit) -> (r: Unit)
        ensures
            r == spec_size_available(*self, room),
    {
        if self.is_content() {
            let capped = match self.max.size() {
                Some(x) => room.min_with(x),
                None => room,
            };
            match self.min.size() {
                Some(m) => capped.max_with(m),
                None => capped,
            }
        } else {
            self.size_filled(room)
        }
    }

    pub fn size_filled(&self, room: Unit) -> (r: Unit)
        ensures
            r == spec_size_filled(*self, room),
    {
        let size = self.base_size();
        if size.0 < room.0 {
            match (self.max.size(), self.grow) {
                (_, None) => size,
                (None, Some(_)) => room,
                (Some(max), Some(_)) => room.min_with(max),
            }
        } else if size.0 == room.0 {
            size
        } else {
            match (self.min.size(), self.shrink) {
                (_, None) => size,
                (None, Some(_)) => room,
                (Some(min), Some(_)) => room.max_with(min),
            }
        }
    }

    pub fn size_distributed(
        &self,
        room_to_distribute: Unit,
        sum_grow: Option<Fill>,
        sum_shrink: Option<Fill>,
    ) -> (r: Unit)
        ensures
            r == spec_size_distributed(*self, room_to_distribute, sum_grow, sum_shrink),
    {
        let size = self.base_size();
        if room_to_distribute.0 < 0 {
            match (self.shrink, sum_shrink) {
                (Some(shrink), Some(total)) => self.size_filled(
                    size.add(room_to_distribute.mul_ratio(shrink, total)),
                ),
                _ => size,
            }
        } else if room_to_distribute.0 == 0 {
            size
        } else {
            match (self.grow, sum_grow) {
                (Some(grow), Some(total)) => self.size_filled(
                    size.add(room_to_distribute.mul_ratio(grow, total)),
                ),
                _ => size,
            }
        }
    }

    /// The record with the smaller of the two bases.
    pub fn min_of(&self, rhs: &FlexDim) -> (r: Self)
        ensures
            r == (FlexDim { base: spec_dim_min_of(self.base, rhs.base), ..*self }),
    {
        let mut min = *self;
        min.base = min.base.min_of(&rhs.base);
        min
    }

    /// The record with the larger of the two bases.
    pub fn max_of(&self, rhs: &FlexDim) -> (r: Self)
        ensures
            r == (FlexDim { base: spec_dim_max_of(self.base, rhs.base), ..*self }),
    {
        let mut max = *self;
        max.base = max.base.max_of(&rhs.base);
        max
    }

    /// Componentwise sum of two records.
    pub fn add(self, rhs: &FlexDim) -> (r: Self)
        ensures
            r == spec_flex_add(self, *rhs),
    {
        FlexDim {
            base: self.base.add(&rhs.base),
            min: maybe_add(self.min, rhs.min),
            max: maybe_add(self.max, rhs.max),
            grow: crate::unit::add_fill(self.grow, rhs.grow),
            shrink: crate::unit::add_fill(self.shrink, rhs.shrink),
        }
    }

    /// Componentwise difference, with bounds pulled back to the basis.
    pub fn sub(self, rhs: &FlexDim) -> (r: Self)
        ensures
            r == spec_flex_sub(self, *rhs),
    {
        let mut d = FlexDim {
            base: self.base.sub(&rhs.base),
            min: maybe_sub(self.min, rhs.min),
            max: maybe_sub(self.max, rhs.max),
            grow: crate::unit::sub_fill(self.grow, rhs.grow),
            shrink: crate::unit::sub_fill(self.shrink, rhs.shrink),
        };
        if let (Some(base), Some(min)) = (d.base.size(), d.min.size()) {
            if min.0 > base.0 {
                d.min.set_size(base);
            }
        }
        if let (Some(base), Some(max)) = (d.base.size(), d.max.size()) {
            if max.0 < base.0 {
                d.max.set_size(base);
            }
        }
        d
    }

    /// Adds a length to the basis, keeping its kind.
    pub fn add_len(self, rhs: Unit) -> (r: Self)
        ensures
            r == (FlexDim {
                base: spec_dim_set_size(
                    self.base,
                    Unit(sat_add(spec_base_size(self).0 as int, rhs.0 as int) as i64),
                ),
                ..self
            }),
    {
        let mut d = self;
        let v = d.base_size().add(rhs);
        d.base.set_size(v);
        d
    }

    /// Subtracts a length from the basis, keeping its kind.
    pub fn sub_len(self, rhs: Unit) -> (r: Self)
        ensures
            r == (FlexDim {
                base: spec_dim_set_size(
                    self.base,
                    Unit(sat_sub(spec_base_size(self).0 as int, rhs.0 as int) as i64),
                ),
                ..self
            }),
    {
        let mut d = self;
        let v = d.base_size().sub(rhs);
        d.base.set_size(v);
        d
    }
}

/// Sum of two bounds; both lengths known gives their fixed sum.
pub fn maybe_add(l: MaybeDim, r: MaybeDim) -> (result: MaybeDim)
    ensures
        result == spec_maybe_add(l, r),
{
    match (l.size(), r.size()) {
        (None, None) => MaybeDim::Unset,
        (None, Some(_)) => r,
        (Some(_), None) => l,
        (Some(lv), Some(rv)) => MaybeDim::Fixed(lv.add(rv)),
    }
}

/// Difference of two bounds; an unknown left side negates the right.
pub fn maybe_sub(l: MaybeDim, r: MaybeDim) -> (result: MaybeDim)
    ensures
        result == spec_maybe_sub(l, r),
{
    match (l.size(), r.size()) {
        (None, None) => MaybeDim::Unset,
        (None, Some(rv)) => MaybeDim::Fixed(Unit::zero().sub(rv)),
        (Some(_), None) => l,
        (Some(lv), Some(rv)) => MaybeDim::Fixed(lv.sub(rv)),
    }
}

/// Every setter establishes the clamp invariant on the sides it touches:
/// after `set_min` the stored minimum lies below the known base and
/// maximum, and after `set_max` the stored maximum lies above them.
pub proof fn lemma_setters_clamp(f: FlexDim, m: MaybeDim)
    ensures
        spec_clamped(f) ==> spec_clamped(spec_with_min(f, m)),
        spec_clamped(f) ==> spec_clamped(spec_with_max(f, m)),
        spec_clamped(f) ==> spec_clamped(
            (FlexDim { base: spec_clamp_base(spec_maybe_to_dim(m), f.min, f.max), ..f }),
        ),
{
}

/// Dim algebra: adding a length to a resolved basis and subtracting it
/// again restores the record, as long as neither step saturates.
pub proof fn lemma_add_sub_len_cancels(f: FlexDim, u: Unit)
    requires
        spec_dim_size(f.base) matches Option::Some(_),
        i64::MIN <= spec_base_size(f).0 + u.0 <= i64::MAX,
    ensures
        spec_flex_sub_len(spec_flex_add_len(f, u), u) == f,
{
}

/// The basis after `add_len`.
pub open spec fn spec_flex_add_len(f: FlexDim, u: Unit) -> FlexDim {
    FlexDim {
        base: spec_dim_set_size(f.base, Unit(sat_add(spec_base_size(f).0 as int, u.0 as int) as i64)),
        ..f
    }
}

/// The basis after `sub_len`.
pub open spec fn spec_flex_sub_len(f: FlexDim, u: Unit) -> FlexDim {
    FlexDim {
        base: spec_dim_set_size(f.base, Unit(sat_sub(spec_base_size(f).0 as int, u.0 as int) as i64)),
        ..f
    }
}


/// A record that is exactly the given fixed length.
pub open spec fn spec_flex_fixed(u: Unit) -> FlexDim {
    FlexDim {
        base: Dim::Fixed(u),
        min: MaybeDim::Unset,
        max: MaybeDim::Unset,
        grow: Option::None,
        shrink: Option::None,
    }
}


/// A record whose basis is pending content, with nothing else set.
pub open spec fn spec_flex_content() -> FlexDim {
    FlexDim {
        base: Dim::Content(Option::None),
        min: MaybeDim::Unset,
        max: MaybeDim::Unset,
        grow: Option::None,
        shrink: Option::None,
    }
}


/// What `complete_with_style` leaves behind: each still-unset slot takes
/// the style's value; explicit settings win.
pub open spec fn spec_complete(
    f: FlexDim,
    size: Dim,
    min: MaybeDim,
    max: MaybeDim,
    grow: Option<Fill>,
    shrink: Option<Fill>,
) -> FlexDim {
    FlexDim {
        base: if (f.base matches Dim::Content(Option::None)) {
            size
        } else {
            f.base
        },
        min: if (f.min matches MaybeDim::Unset) {
            min
        } else {
            f.min
        },
        max: if (f.max matches MaybeDim::Unset) {
            max
        } else {
            f.max
        },
        grow: if (f.grow matches Option::None) {
            grow
        } else {
            f.grow
        },
        shrink: if (f.shrink matches Option::None) {
            shrink
        } else {
            f.shrink
        },
    }
}


/// What adopting a content length leaves behind: a content-typed basis,
/// resolved or not, takes the new length; anything else is untouched.
pub open spec fn spec_resolve_content(f: FlexDim, v: Unit) -> FlexDim {
    if (f.base matches Dim::Content(_)) {
        FlexDim { base: Dim::Content(Option::Some(v)), ..f }
    } else {
        f
    }
}


/// The summed weight of a line's flexible children.
pub open spec fn weights_sum(ws: Seq<Fill>) -> int
    decreases ws.len(),
{
    if ws.len() == 0 {
        0
    } else {
        ws[0].0 + weights_sum(ws.drop_first())
    }
}

/// The summed rounded shares that a slack distributes over weights.
pub open spec fn shares_sum(ws: Seq<Fill>, slack: int, total: int) -> int
    decreases ws.len(),
{
    if ws.len() == 0 {
        0
    } else {
        ratio_round(slack, ws[0].0 as int, total) + shares_sum(ws.drop_first(), slack, total)
    }
}

/// One rounded share stays within half a unit of the exact share:
/// `2*(total*share - slack*weight)` lies in `[-total, total]`, and the
/// share itself lies in `[0, slack]`.
proof fn lemma_share_bounds(slack: int, w: int, total: int)
    requires
        0 <= slack < i64::MAX,
        0 <= w <= total,
        0 < total,
    ensures
        0 <= ratio_round(slack, w, total) <= slack,
        -total <= 2 * (total * ratio_round(slack, w, total) - slack * w) <= total,
{
    let h = total / 2;
    let x = slack * w + h;
    assert(0 <= slack * w <= slack * total) by (nonlinear_arith)
        requires
            0 <= slack,
            0 <= w <= total,
    ;
    let q = x / total;
    vstd::arithmetic::div_mod::lemma_fundamental_div_mod(x, total);
    assert(total * q <= x < total * q + total) by {
        assert(x == total * (x / total) + x % total);
        assert(0 <= x % total < total);
    }
    assert(0 <= q) by (nonlinear_arith)
        requires
            0 <= x,
            0 < total,
            total * q <= x < total * q + total,
    ;
    assert(q <= slack) by (nonlinear_arith)
        requires
            total * q <= x,
            x <= slack * total + h,
            0 <= h < total,
            0 < total,
    ;
    assert(total - 1 <= 2 * h <= total) by {
        vstd::arithmetic::div_mod::lemma_fundamental_div_mod(total, 2);
    }
    assert(-total <= 2 * (total * q - slack * w) <= total) by (nonlinear_arith)
        requires
            total * q <= x < total * q + total,
            x == slack * w + h,
            total - 1 <= 2 * h <= total,
            0 < total,
    ;
    if slack == 0 {
        assert(x == h);
        vstd::arithmetic::div_mod::lemma_basic_div(h, total);
        assert(ratio_round(slack, w, total) == 0);
    } else {
        assert(sign_of(slack) == 1);
        assert(abs_of(slack) == slack);
        assert(ratio_round(slack, w, total) == clip(q));
        assert(clip(q) == q);
    }
}

/// Rounded ratio distribution conserves total slack up to rounding:
/// for a non-negative slack distributed over weights that sum to the
/// line's total, twice the summed shares differs from twice the slack
/// by at most the number of children.
pub proof fn lemma_distribution_conserves_slack(ws: Seq<Fill>, slack: Unit, total: Fill)
    requires
        0 <= slack.0 < i64::MAX,
        0 < total.0,
        weights_sum(ws) == total.0,
    ensures
        2 * slack.0 - ws.len() <= 2 * shares_sum(ws, slack.0 as int, total.0 as int),
        2 * shares_sum(ws, slack.0 as int, total.0 as int) <= 2 * slack.0 + ws.len(),
{
    lemma_weights_bounded(ws, total.0 as int);
    lemma_shares_sum_scaled(ws, slack.0 as int, total.0 as int);
    let ssum = shares_sum(ws, slack.0 as int, total.0 as int);
    let t = total.0 as int;
    let s = slack.0 as int;
    assert(2 * s - ws.len() <= 2 * ssum && 2 * ssum <= 2 * s + ws.len()) by (nonlinear_arith)
        requires
            2 * s * t - ws.len() * t <= 2 * t * ssum <= 2 * s * t + ws.len() * t,
            0 < t,
    ;
}

/// Each weight of a non-negative sequence is bounded by the sequence's
/// sum.
proof fn lemma_weights_bounded(ws: Seq<Fill>, bound: int)
    requires
        weights_sum(ws) <= bound,
    ensures
        forall|i: int| 0 <= i < ws.len() ==> #[trigger] ws[i].0 <= bound,
    decreases ws.len(),
{
    if ws.len() > 0 {
        lemma_weights_nonneg(ws.drop_first());
        assert(weights_sum(ws) == ws[0].0 + weights_sum(ws.drop_first()));
        lemma_weights_bounded(ws.drop_first(), bound);
        assert(ws[0].0 <= bound);
        assert forall|i: int| 1 <= i < ws.len() implies #[trigger] ws[i].0 <= bound by {
            assert(ws[i] == ws.drop_first()[i - 1]);
        }
    }
}

/// A sum of weights is non-negative.
proof fn lemma_weights_nonneg(ws: Seq<Fill>)
    ensures
        0 <= weights_sum(ws),
    decreases ws.len(),
{
    if ws.len() > 0 {
        lemma_weights_nonneg(ws.drop_first());
    }
}

/// The scaled form of the conservation bound, proved per share.
proof fn lemma_shares_sum_scaled(ws: Seq<Fill>, slack: int, total: int)
    requires
        0 <= slack < i64::MAX,
        0 < total,
        forall|i: int| 0 <= i < ws.len() ==> #[trigger] ws[i].0 <= total,
    ensures
        2 * slack * weights_sum(ws) - ws.len() * total <= 2 * total * shares_sum(ws, slack, total),
        2 * total * shares_sum(ws, slack, total) <= 2 * slack * weights_sum(ws) + ws.len() * total,
    decreases ws.len(),
{
    if ws.len() > 0 {
        lemma_share_bounds(slack, ws[0].0 as int, total);
        assert(forall|i: int| 0 <= i < ws.drop_first().len()
            ==> ws.drop_first()[i] == ws[i + 1]);
        lemma_shares_sum_scaled(ws.drop_first(), slack, total);
        let w0 = ws[0].0 as int;
        let q0 = ratio_round(slack, w0, total);
        let rest_w = weights_sum(ws.drop_first());
        let rest_q = shares_sum(ws.drop_first(), slack, total);
        let n = ws.len() as int;
        assert(weights_sum(ws) == w0 + rest_w);
        assert(shares_sum(ws, slack, total) == q0 + rest_q);
        assert(2 * slack * weights_sum(ws) - n * total <= 2 * total * shares_sum(ws, slack, total)
            && 2 * total * shares_sum(ws, slack, total) <= 2 * slack * weights_sum(ws) + n
            * total) by (nonlinear_arith)
            requires
                weights_sum(ws) == w0 + rest_w,
                shares_sum(ws, slack, total) == q0 + rest_q,
                -total <= 2 * (total * q0 - slack * w0) <= total,
                2 * slack * rest_w - (n - 1) * total <= 2 * total * rest_q,
                2 * total * rest_q <= 2 * slack * rest_w + (n - 1) * total,
                n >= 1,
        ;
    }
}

} // verus!
