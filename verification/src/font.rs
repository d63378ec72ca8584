//! Font feature selection and shaped-text extents.
//!
//! The kernel does not shape text itself: the typesetting collaborator
//! turns a string and a resolved style into a `TextExtent`, already
//! scaled into page units, and the kernel lays that extent out like any
//! other leaf size.

use vstd::prelude::*;

use crate::unit::Unit;

verus! {

/// OpenType feature choices: proportional/tabular numerals,
/// lining/old-style numerals, and small capitals.
#[derive(Debug, Clone, Copy, PartialEq, Eq, Structural)]
pub struct Features {
    pub pnum: Option<bool>,
    pub lnum: Option<bool>,
    pub smcp: Option<bool>,
}

impl Features {
    pub fn empty() -> (r: Self)
        ensures
            r == (Features {
                pnum: Option::<bool>::None,
                lnum: Option::<bool>::None,
                smcp: Option::<bool>::None,
            }),
    {
        Features { pnum: None, lnum: None, smcp: None }
    }

    /// Proportional numerals.
    pub fn pnum(self) -> (r: Self)
        ensures
            r == (Features { pnum: Option::Some(true), ..self }),
    {
        Features { pnum: Some(true), ..self }
    }

    /// Tabular numerals.
    pub fn tnum(self) -> (r: Self)
        ensures
            r == (Features { pnum: Option::Some(false), ..self }),
    {
        Features { pnum: Some(false), ..self }
    }

    /// Lining numerals.
    pub fn lnum(self) -> (r: Self)
        ensures
            r == (Features { lnum: Option::Some(true), ..self }),
    {
        Features { lnum: Some(true), ..self }
    }

    /// Old-style numerals.
    pub fn onum(self) -> (r: Self)
        ensures
            r == (Features { lnum: Option::Some(false), ..self }),
    {
        Features { lnum: Some(false), ..self }
    }

    /// Small capitals.
    pub fn smcp(self) -> (r: Self)
        ensures
            r == (Features { smcp: Option::Some(true), ..self }),
    {
        Features { smcp: Some(true), ..self }
    }

    /// The defaults: proportional lining numerals.
    pub fn standard() -> (r: Self)
        ensures
            r == (Features {
                pnum: Option::Some(true),
                lnum: Option::Some(true),
                smcp: Option::<bool>::None,
            }),
    {
        Features { pnum: Some(true), lnum: Some(true), smcp: None }
    }
}

/// The extent of a shaped string in page units: total advance width,
/// line height, and the depth below the baseline.  The width already
/// includes any font scaling factor.
#[derive(Debug, Clone, Copy, PartialEq, Eq, Structural)]
pub struct TextExtent {
    pub width: Unit,
    pub height: Unit,
    pub depth: Unit,
}

impl TextExtent {
    pub fn new(width: Unit, height: Unit, depth: Unit) -> (r: Self)
        ensures
            r == (TextExtent { width, height, depth }),
    {
        TextExtent { width, height, depth }
    }

    /// The height above the baseline.
    pub fn ascent(&self) -> (r: Unit)
        ensures
            r.0 == crate::unit::sat_sub(self.height.0 as int, self.depth.0 as int),
    {
        self.height.sub(self.depth)
    }
}

} // verus!
