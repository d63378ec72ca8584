//! Inheritable, mergeable presentation attributes.
//!
//! A `Style` carries the font, colors, per-axis size policy, wrapping
//! flag, alignment, gaps, border and padding of a node.  Two composition
//! operations exist: `merge` is present-field-wins (used when stacking
//! styles on one node), and `inherit` cascades only the font, colors and
//! baseline alignment from a parent — size, flex, padding, border and
//! wrap are per-node and never cascade.

use vstd::prelude::*;

use crate::axis::Axis;
use crate::color::Rgba;
use crate::dimension::{Dim, FlexDim, MaybeDim, spec_complete};
use crate::font::Features;
use crate::position::{Quad, Size};
use crate::unit::{Fill, FillPerMille, Unit};

verus! {

/// Cross-axis alignment of the children of a box.
#[derive(Debug, Clone, Copy, PartialEq, Eq, Structural)]
pub enum AlignItems {
    Start,
    Baseline,
    Center,
    End,
}

/// The font selection: a face name, a size in millipoints (thousandths
/// of a typographic point), feature choices, and a horizontal scaling
/// factor in per-mille.
#[derive(Debug)]
pub struct Font {
    pub name: Option<String>,
    pub size_millipoints: Option<i64>,
    pub features: Option<Features>,
    pub scaling: Option<FillPerMille>,
}

/// Present-field-wins combination of two fonts.
pub open spec fn spec_font_merge(s: Font, p: Font) -> Font {
    Font {
        name: if (s.name matches Option::Some(_)) {
            s.name
        } else {
            p.name
        },
        size_millipoints: if (s.size_millipoints matches Option::Some(_)) {
            s.size_millipoints
        } else {
            p.size_millipoints
        },
        features: if (s.features matches Option::Some(_)) {
            s.features
        } else {
            p.features
        },
        scaling: if (s.scaling matches Option::Some(_)) {
            s.scaling
        } else {
            p.scaling
        },
    }
}

/// A copy of an optional owned string.
pub fn clone_name(n: &Option<String>) -> (r: Option<String>)
    ensures
        r == *n,
{
    match n {
        None => None,
        Some(s) => Some(s.clone()),
    }
}

impl Font {
    pub fn new(name: String, size_millipoints: i64, features: Option<Features>) -> (r: Self)
        ensures
            r == (Font {
                name: Option::Some(name),
                size_millipoints: Option::Some(size_millipoints),
                features,
                scaling: Option::<FillPerMille>::None,
            }),
    {
        Font { name: Some(name), size_millipoints: Some(size_millipoints), features, scaling: None }
    }

    pub fn unset() -> (r: Self)
        ensures
            r == (Font {
                name: Option::<String>::None,
                size_millipoints: Option::<i64>::None,
                features: Option::<Features>::None,
                scaling: Option::<FillPerMille>::None,
            }),
    {
        Font { name: None, size_millipoints: None, features: None, scaling: None }
    }

    pub fn duplicate(&self) -> (r: Self)
        ensures
            r == *self,
    {
        Font {
            name: clone_name(&self.name),
            size_millipoints: self.size_millipoints,
            features: self.features,
            scaling: self.scaling,
        }
    }

    /// Present-field-wins combination with a parent font.
    pub fn merge(&self, parent: &Self) -> (r: Self)
        ensures
            r == spec_font_merge(*self, *parent),
    {
        Font {
            name: if self.name.is_some() {
                clone_name(&self.name)
            } else {
                clone_name(&parent.name)
            },
            size_millipoints: if self.size_millipoints.is_some() {
                self.size_millipoints
            } else {
                parent.size_millipoints
            },
            features: if self.features.is_some() {
                self.features
            } else {
                parent.features
            },
            scaling: if self.scaling.is_some() {
                self.scaling
            } else {
                parent.scaling
            },
        }
    }

    pub fn set_name(&mut self, name: String)
        ensures
            *final(self) == (Font { name: Option::Some(name), ..*old(self) }),
    {
        self.name = Some(name);
    }

    pub fn set_size(&mut self, size_millipoints: i64)
        ensures
            *final(self) == (Font { size_millipoints: Option::Some(size_millipoints), ..*old(self) }),
    {
        self.size_millipoints = Some(size_millipoints);
    }

    pub fn set_features(&mut self, features: Features)
        ensures
            *final(self) == (Font { features: Option::Some(features), ..*old(self) }),
    {
        self.features = Some(features);
    }

    pub fn set_scaling(&mut self, scaling: FillPerMille)
        ensures
            *final(self) == (Font { scaling: Option::Some(scaling), ..*old(self) }),
    {
        self.scaling = Some(scaling);
    }

    pub fn name(&self) -> (r: &Option<String>)
        ensures
            r == self.name,
    {
        &self.name
    }

    pub fn size(&self) -> (r: Option<i64>)
        ensures
            r == self.size_millipoints,
    {
        self.size_millipoints
    }

    pub fn features(&self) -> (r: Option<Features>)
        ensures
            r == self.features,
    {
        self.features
    }

    pub fn scaling(&self) -> (r: Option<FillPerMille>)
        ensures
            r == self.scaling,
    {
        self.scaling
    }
}

/// A border stroke: color plus thickness in millipoints.
#[derive(Debug, Clone, Copy, PartialEq, Eq, Structural)]
pub struct Stroke {
    pub color: Rgba,
    pub thickness_millipoints: i64,
}

impl Stroke {
    pub fn new(color: Rgba, thickness_millipoints: i64) -> (r: Self)
        ensures
            r == (Stroke { color, thickness_millipoints }),
    {
        Stroke { color, thickness_millipoints }
    }

    pub fn with_color(self, color: Rgba) -> (r: Self)
        ensures
            r == (Stroke { color, ..self }),
    {
        Stroke { color, ..self }
    }

    pub fn with_thickness(self, thickness_millipoints: i64) -> (r: Self)
        ensures
            r == (Stroke { thickness_millipoints, ..self }),
    {
        Stroke { thickness_millipoints, ..self }
    }

    pub fn color(&self) -> (r: Rgba)
        ensures
            r == self.color,
    {
        self.color
    }

    pub fn thickness(&self) -> (r: i64)
        ensures
            r == self.thickness_millipoints,
    {
        self.thickness_millipoints
    }
}

/// Four optional border strokes.
#[derive(Debug, Clone, Copy, PartialEq, Eq, Structural)]
pub struct Border {
    pub top: Option<Stroke>,
    pub left: Option<Stroke>,
    pub bottom: Option<Stroke>,
    pub right: Option<Stroke>,
}

/// Present-side-wins combination of two borders.
pub open spec fn spec_border_merge(s: Border, p: Border) -> Border {
    Border {
        top: if (s.top matches Option::Some(_)) {
            s.top
        } else {
            p.top
        },
        left: if (s.left matches Option::Some(_)) {
            s.left
        } else {
            p.left
        },
        bottom: if (s.bottom matches Option::Some(_)) {
            s.bottom
        } else {
            p.bottom
        },
        right: if (s.right matches Option::Some(_)) {
            s.right
        } else {
            p.right
        },
    }
}

impl Border {
    pub fn none() -> (r: Self)
        ensures
            r == (Border {
                top: Option::<Stroke>::None,
                left: Option::<Stroke>::None,
                bottom: Option::<Stroke>::None,
                right: Option::<Stroke>::None,
            }),
    {
        Border { top: None, left: None, bottom: None, right: None }
    }

    pub fn merge(&self, parent: &Self) -> (r: Self)
        ensures
            r == spec_border_merge(*self, *parent),
    {
        Border {
            top: if self.top.is_some() {
                self.top
            } else {
                parent.top
            },
            left: if self.left.is_some() {
                self.left
            } else {
                parent.left
            },
            bottom: if self.bottom.is_some() {
                self.bottom
            } else {
                parent.bottom
            },
            right: if self.right.is_some() {
                self.right
            } else {
                parent.right
            },
        }
    }

    pub fn square(stroke: Stroke) -> (r: Self)
        ensures
            r == (Border {
                top: Option::Some(stroke),
                left: Option::Some(stroke),
                bottom: Option::Some(stroke),
                right: Option::Some(stroke),
            }),
    {
        Border { top: Some(stroke), left: Some(stroke), bottom: Some(stroke), right: Some(stroke) }
    }

    pub fn h_v(horizontal: Stroke, vertical: Stroke) -> (r: Self)
        ensures
            r == (Border {
                top: Option::Some(horizontal),
                left: Option::Some(vertical),
                bottom: Option::Some(horizontal),
                right: Option::Some(vertical),
            }),
    {
        Border {
            top: Some(horizontal),
            left: Some(vertical),
            bottom: Some(horizontal),
            right: Some(vertical),
        }
    }

    pub fn h(horizontal: Stroke) -> (r: Self)
        ensures
            r == (Border {
                top: Option::Some(horizontal),
                left: Option::<Stroke>::None,
                bottom: Option::Some(horizontal),
                right: Option::<Stroke>::None,
            }),
    {
        Border { top: Some(horizontal), left: None, bottom: Some(horizontal), right: None }
    }

    pub fn v(vertical: Stroke) -> (r: Self)
        ensures
            r == (Border {
                top: Option::<Stroke>::None,
                left: Option::Some(vertical),
                bottom: Option::<Stroke>::None,
                right: Option::Some(vertical),
            }),
    {
        Border { top: None, left: Some(vertical), bottom: None, right: Some(vertical) }
    }

    pub fn with_top(self, top: Stroke) -> (r: Self)
        ensures
            r == (Border { top: Option::Some(top), ..self }),
    {
        Border { top: Some(top), ..self }
    }

    pub fn with_left(self, left: Stroke) -> (r: Self)
        ensures
            r == (Border { left: Option::Some(left), ..self }),
    {
        Border { left: Some(left), ..self }
    }

    pub fn with_bottom(self, bottom: Stroke) -> (r: Self)
        ensures
            r == (Border { bottom: Option::Some(bottom), ..self }),
    {
        Border { bottom: Some(bottom), ..self }
    }

    pub fn with_right(self, right: Stroke) -> (r: Self)
        ensures
            r == (Border { right: Option::Some(right), ..self }),
    {
        Border { right: Some(right), ..self }
    }

    pub fn top(&self) -> (r: Option<Stroke>)
        ensures
            r == self.top,
    {
        self.top
    }

    pub fn left(&self) -> (r: Option<Stroke>)
        ensures
            r == self.left,
    {
        self.left
    }

    pub fn bottom(&self) -> (r: Option<Stroke>)
        ensures
            r == self.bottom,
    {
        self.bottom
    }

    pub fn right(&self) -> (r: Option<Stroke>)
        ensures
            r == self.right,
    {
        self.right
    }
}

/// The full presentation record of a node.
#[derive(Debug)]
pub struct Style {
    pub font: Font,
    pub color: Option<Rgba>,
    pub background_color: Option<Rgba>,
    pub width: Dim,
    pub min_width: MaybeDim,
    pub max_width: MaybeDim,
    pub height: Dim,
    pub min_height: MaybeDim,
    pub max_height: MaybeDim,
    pub grow: Option<Fill>,
    pub shrink: Option<Fill>,
    pub wrap: Option<bool>,
    pub align_items: Option<AlignItems>,
    pub horizontal_gap: Option<Unit>,
    pub vertical_gap: Option<Unit>,
    pub border: Border,
    pub padding: Quad,
}

/// The inheritance cascade: font, colors and alignment flow from the
/// parent where the child leaves them unset; size, flex, wrap, gaps,
/// border and padding stay per-node.
pub open spec fn spec_style_inherit(s: Style, p: Style) -> Style {
    Style {
        font: spec_font_merge(s.font, p.font),
        color: if (s.color matches Option::Some(_)) {
            s.color
        } else {
            p.color
        },
        background_color: if (s.background_color matches Option::Some(_)) {
            s.background_color
        } else {
            p.background_color
        },
        align_items: if (s.align_items matches Option::Some(_)) {
            s.align_items
        } else {
            p.align_items
        },
        ..s
    }
}

/// Present-field-wins combination of two styles.
pub open spec fn spec_style_merge(s: Style, p: Style) -> Style {
    Style {
        font: spec_font_merge(s.font, p.font),
        color: if (s.color matches Option::Some(_)) {
            s.color
        } else {
            p.color
        },
        background_color: if (s.background_color matches Option::Some(_)) {
            s.background_color
        } else {
            p.background_color
        },
        width: if (s.width matches Dim::Content(Option::None)) {
            p.width
        } else {
            s.width
        },
        min_width: if (s.min_width matches MaybeDim::Unset) {
            p.min_width
        } else {
            s.min_width
        },
        max_width: if (s.max_width matches MaybeDim::Unset) {
            p.max_width
        } else {
            s.max_width
        },
        height: if (s.height matches Dim::Content(Option::None)) {
            p.height
        } else {
            s.height
        },
        min_height: if (s.min_height matches MaybeDim::Unset) {
            p.min_height
        } else {
            s.min_height
        },
        max_height: if (s.max_height matches MaybeDim::Unset) {
            p.max_height
        } else {
            s.max_height
        },
        grow: if (s.grow matches Option::Some(_)) {
            s.grow
        } else {
            p.grow
        },
        shrink: if (s.shrink matches Option::Some(_)) {
            s.shrink
        } else {
            p.shrink
        },
        wrap: if (s.wrap matches Option::Some(_)) {
            s.wrap
        } else {
            p.wrap
        },
        align_items: if (s.align_items matches Option::Some(_)) {
            s.align_items
        } else {
            p.align_items
        },
        horizontal_gap: if (s.horizontal_gap matches Option::Some(_)) {
            s.horizontal_gap
        } else {
            p.horizontal_gap
        },
        vertical_gap: if (s.vertical_gap matches Option::Some(_)) {
            s.vertical_gap
        } else {
            p.vertical_gap
        },
        border: spec_border_merge(s.border, p.border),
        padding: Quad {
            top: if (s.padding.top matches Option::Some(_)) {
                s.padding.top
            } else {
                p.padding.top
            },
            left: if (s.padding.left matches Option::Some(_)) {
                s.padding.left
            } else {
                p.padding.left
            },
            bottom: if (s.padding.bottom matches Option::Some(_)) {
                s.padding.bottom
            } else {
                p.padding.bottom
            },
            right: if (s.padding.right matches Option::Some(_)) {
                s.padding.right
            } else {
                p.padding.right
            },
        },
    }
}

/// A style with nothing set.
pub open spec fn spec_style_unset() -> Style {
    Style {
        font: Font {
            name: Option::None,
            size_millipoints: Option::None,
            features: Option::None,
            scaling: Option::None,
        },
        color: Option::None,
        background_color: Option::None,
        width: Dim::Content(Option::None),
        min_width: MaybeDim::Unset,
        max_width: MaybeDim::Unset,
        height: Dim::Content(Option::None),
        min_height: MaybeDim::Unset,
        max_height: MaybeDim::Unset,
        grow: Option::None,
        shrink: Option::None,
        wrap: Option::None,
        align_items: Option::None,
        horizontal_gap: Option::None,
        vertical_gap: Option::None,
        border: Border {
            top: Option::None,
            left: Option::None,
            bottom: Option::None,
            right: Option::None,
        },
        padding: Quad {
            top: Option::None,
            left: Option::None,
            bottom: Option::None,
            right: Option::None,
        },
    }
}

impl Style {
    pub fn new() -> (r: Self)
        ensures
            r == spec_style_unset(),
    {
        Style {
            font: Font::unset(),
            color: None,
            background_color: None,
            width: Dim::content(),
            min_width: MaybeDim::Unset,
            max_width: MaybeDim::Unset,
            height: Dim::content(),
            min_height: MaybeDim::Unset,
            max_height: MaybeDim::Unset,
            grow: None,
            shrink: None,
            wrap: None,
            align_items: None,
            horizontal_gap: None,
            vertical_gap: None,
            border: Border::none(),
            padding: Quad::empty(),
        }
    }

    /// The ambient root style: a default font of ten points and black
    /// foreground.
    pub fn new_default() -> (r: Self)
        ensures
            r == (Style {
                font: r.font,
                color: Option::Some(Rgba { r: 0, g: 0, b: 0, alpha_mille: 1000u16 }),
                ..spec_style_unset()
            }),
            r.font.name matches Option::Some(n) && n@ == "default"@,
            r.font.size_millipoints == Option::Some(10000i64),
            r.font.features == Option::<Features>::None,
            r.font.scaling == Option::<FillPerMille>::None,
    {
        let mut style = Style::new();
        let name = default_font_name();
        style.font = Font::new(name, 10000, None);
        style.color = Some(Rgba::black());
        style
    }

    pub fn duplicate(&self) -> (r: Self)
        ensures
            r == *self,
    {
        Style {
            font: self.font.duplicate(),
            color: self.color,
            background_color: self.background_color,
            width: self.width,
            min_width: self.min_width,
            max_width: self.max_width,
            height: self.height,
            min_height: self.min_height,
            max_height: self.max_height,
            grow: self.grow,
            shrink: self.shrink,
            wrap: self.wrap,
            align_items: self.align_items,
            horizontal_gap: self.horizontal_gap,
            vertical_gap: self.vertical_gap,
            border: self.border,
            padding: self.padding,
        }
    }

    /// The inheritance cascade from a parent style.
    pub fn inherit(&self, parent: &Style) -> (r: Self)
        ensures
            r == spec_style_inherit(*self, *parent),
    {
        let align_items = if self.align_items.is_some() {
            self.align_items
        } else {
            parent.align_items
        };
        Style {
            font: self.font.merge(&parent.font),
            color: if self.color.is_some() {
                self.color
            } else {
                parent.color
            },
            background_color: if self.background_color.is_some() {
                self.background_color
            } else {
                parent.background_color
            },
            align_items,
            ..self.duplicate()
        }
    }

    /// Present-field-wins combination with a parent style.
    pub fn merge(&self, parent: &Style) -> (r: Self)
        ensures
            r == spec_style_merge(*self, *parent),
    {
        Style {
            font: self.font.merge(&parent.font),
            color: if self.color.is_some() {
                self.color
            } else {
                parent.color
            },
            background_color: if self.background_color.is_some() {
                self.background_color
            } else {
                parent.background_color
            },
            width: self.width.or(parent.width),
            min_width: self.min_width.or(parent.min_width),
            max_width: self.max_width.or(parent.max_width),
            height: self.height.or(parent.height),
            min_height: self.min_height.or(parent.min_height),
            max_height: self.max_height.or(parent.max_height),
            grow: if self.grow.is_some() {
                self.grow
            } else {
                parent.grow
            },
            shrink: if self.shrink.is_some() {
                self.shrink
            } else {
                parent.shrink
            },
            wrap: if self.wrap.is_some() {
                self.wrap
            } else {
                parent.wrap
            },
            align_items: if self.align_items.is_some() {
                self.align_items
            } else {
                parent.align_items
            },
            horizontal_gap: if self.horizontal_gap.is_some() {
                self.horizontal_gap
            } else {
                parent.horizontal_gap
            },
            vertical_gap: if self.vertical_gap.is_some() {
                self.vertical_gap
            } else {
                parent.vertical_gap
            },
            border: self.border.merge(&parent.border),
            padding: self.padding.merge(&parent.padding),
        }
    }

    pub fn font(&self) -> (r: &Font)
        ensures
            r == self.font,
    {
        &self.font
    }

    pub fn color(&self) -> (r: Option<Rgba>)
        ensures
            r == self.color,
    {
        self.color
    }

    pub fn background_color(&self) -> (r: Option<Rgba>)
        ensures
            r == self.background_color,
    {
        self.background_color
    }

    pub fn width(&self) -> (r: Dim)
        ensures
            r == self.width,
    {
        self.width
    }

    pub fn min_width(&self) -> (r: MaybeDim)
        ensures
            r == self.min_width,
    {
        self.min_width
    }

    pub fn max_width(&self) -> (r: MaybeDim)
        ensures
            r == self.max_width,
    {
        self.max_width
    }

    pub fn height(&self) -> (r: Dim)
        ensures
            r == self.height,
    {
        self.height
    }

    pub fn min_height(&self) -> (r: MaybeDim)
        ensures
            r == self.min_height,
    {
        self.min_height
    }

    pub fn max_height(&self) -> (r: MaybeDim)
        ensures
            r == self.max_height,
    {
        self.max_height
    }

    pub fn grow(&self) -> (r: Option<Fill>)
        ensures
            r == self.grow,
    {
        self.grow
    }

    pub fn shrink(&self) -> (r: Option<Fill>)
        ensures
            r == self.shrink,
    {
        self.shrink
    }

    pub fn wrap(&self) -> (r: Option<bool>)
        ensures
            r == self.wrap,
    {
        self.wrap
    }

    pub fn border_top(&self) -> (r: Option<Stroke>)
        ensures
            r == self.border.top,
    {
        self.border.top
    }

    pub fn border_left(&self) -> (r: Option<Stroke>)
        ensures
            r == self.border.left,
    {
        self.border.left
    }

    pub fn border_bottom(&self) -> (r: Option<Stroke>)
        ensures
            r == self.border.bottom,
    {
        self.border.bottom
    }

    pub fn border_right(&self) -> (r: Option<Stroke>)
        ensures
            r == self.border.right,
    {
        self.border.right
    }

    pub fn padding(&self) -> (r: Quad)
        ensures
            r == self.padding,
    {
        self.padding
    }

    pub fn padding_top(&self) -> (r: Option<Unit>)
        ensures
            r == self.padding.top,
    {
        self.padding.top
    }

    pub fn padding_top_size(&self) -> (r: Unit)
        ensures
            r.0 == crate::position::opt_len(self.padding.top),
    {
        self.padding.top_size()
    }

    pub fn padding_left(&self) -> (r: Option<Unit>)
        ensures
            r == self.padding.left,
    {
        self.padding.left
    }

    pub fn padding_left_size(&self) -> (r: Unit)
        ensures
            r.0 == crate::position::opt_len(self.padding.left),
    {
        self.padding.left_size()
    }

    pub fn padding_bottom(&self) -> (r: Option<Unit>)
        ensures
            r == self.padding.bottom,
    {
        self.padding.bottom
    }

    pub fn padding_bottom_size(&self) -> (r: Unit)
        ensures
            r.0 == crate::position::opt_len(self.padding.bottom),
    {
        self.padding.bottom_size()
    }

    pub fn padding_right(&self) -> (r: Option<Unit>)
        ensures
            r == self.padding.right,
    {
        self.padding.right
    }

    pub fn padding_right_size(&self) -> (r: Unit)
        ensures
            r.0 == crate::position::opt_len(self.padding.right),
    {
        self.padding.right_size()
    }

    /// The effective alignment: `Start` where none is set.
    pub fn align_items(&self) -> (r: AlignItems)
        ensures
            r == spec_align_items(*self),
    {
        match self.align_items {
            Some(a) => a,
            None => AlignItems::Start,
        }
    }

    pub fn horizontal_gap(&self) -> (r: Option<Unit>)
        ensures
            r == self.horizontal_gap,
    {
        self.horizontal_gap
    }

    pub fn horizontal_gap_size(&self) -> (r: Unit)
        ensures
            r == spec_gap(self.horizontal_gap),
    {
        match self.horizontal_gap {
            Some(u) => u,
            None => Unit::zero(),
        }
    }

    pub fn vertical_gap(&self) -> (r: Option<Unit>)
        ensures
            r == self.vertical_gap,
    {
        self.vertical_gap
    }

    pub fn vertical_gap_size(&self) -> (r: Unit)
        ensures
            r == spec_gap(self.vertical_gap),
    {
        match self.vertical_gap {
            Some(u) => u,
            None => Unit::zero(),
        }
    }
}

/// The effective alignment of a style: `Start` where none is set.
pub open spec fn spec_align_items(s: Style) -> AlignItems {
    match s.align_items {
        Option::Some(a) => a,
        Option::None => AlignItems::Start,
    }
}

/// A gap read as a plain length.
pub open spec fn spec_gap(g: Option<Unit>) -> Unit {
    match g {
        Option::Some(u) => u,
        Option::None => Unit(0),
    }
}

/// The stamped size policy: each axis record of the size takes the
/// style's values into its unset slots, with the grow and shrink weights
/// applied along the box's main axis only.
pub open spec fn spec_apply_style(s: Size, axis: Axis, st: Style) -> Size {
    Size {
        width: spec_complete(
            s.width,
            st.width,
            st.min_width,
            st.max_width,
            if (axis matches Axis::Horizontal) {
                st.grow
            } else {
                Option::None
            },
            if (axis matches Axis::Horizontal) {
                st.shrink
            } else {
                Option::None
            },
        ),
        height: spec_complete(
            s.height,
            st.height,
            st.min_height,
            st.max_height,
            if (axis matches Axis::Vertical) {
                st.grow
            } else {
                Option::None
            },
            if (axis matches Axis::Vertical) {
                st.shrink
            } else {
                Option::None
            },
        ),
        depth: s.depth,
    }
}

impl Size {
    /// Stamps the style's size policy onto this size: only unset slots
    /// are filled, so explicit builder settings win.
    pub fn apply_style(&mut self, axis: Axis, style: &Style)
        ensures
            *final(self) == spec_apply_style(*old(self), axis, *style),
    {
        self.width.complete_with_style(
            style.width,
            style.min_width,
            style.max_width,
            if matches!(axis, Axis::Horizontal) {
                style.grow
            } else {
                None
            },
            if matches!(axis, Axis::Horizontal) {
                style.shrink
            } else {
                None
            },
        );
        self.height.complete_with_style(
            style.height,
            style.min_height,
            style.max_height,
            if matches!(axis, Axis::Vertical) {
                style.grow
            } else {
                None
            },
            if matches!(axis, Axis::Vertical) {
                style.shrink
            } else {
                None
            },
        );
    }
}

/// The name of the fallback font face.
pub fn default_font_name() -> (r: String)
    ensures
        r@ == "default"@,
{
    proof {
        broadcast use vstd::string::to_string_from_display_ensures_for_str;
    }
    "default".to_string()
}

/// A fluent constructor of styles.
#[derive(Debug)]
pub struct StyleBuilder {
    pub style: Style,
}

impl StyleBuilder {
    pub fn new() -> (r: Self)
        ensures
            r.style == spec_style_unset(),
    {
        StyleBuilder { style: Style::new() }
    }

    pub fn build(self) -> (r: Style)
        ensures
            r == self.style,
    {
        self.style
    }

    pub fn style(&self) -> (r: &Style)
        ensures
            r == self.style,
    {
        &self.style
    }

    pub fn with_font(self, font: Font) -> (r: Self)
        ensures
            r.style == (Style { font, ..self.style }),
    {
        let mut b = self;
        b.style.font = font;
        b
    }

    pub fn with_font_name(self, name: String) -> (r: Self)
        ensures
            r.style == (Style {
                font: (Font { name: Option::Some(name), ..self.style.font }),
                ..self.style
            }),
    {
        let mut b = self;
        b.style.font.set_name(name);
        b
    }

    pub fn with_font_size(self, size_millipoints: i64) -> (r: Self)
        ensures
            r.style == (Style {
                font: (Font {
                    size_millipoints: Option::Some(size_millipoints),
                    ..self.style.font
                }),
                ..self.style
            }),
    {
        let mut b = self;
        b.style.font.set_size(size_millipoints);
        b
    }

    pub fn with_font_features(self, features: Features) -> (r: Self)
        ensures
            r.style == (Style {
                font: (Font { features: Option::Some(features), ..self.style.font }),
                ..self.style
            }),
    {
        let mut b = self;
        b.style.font.set_features(features);
        b
    }

    pub fn with_font_scaling(self, scaling: FillPerMille) -> (r: Self)
        ensures
            r.style == (Style {
                font: (Font { scaling: Option::Some(scaling), ..self.style.font }),
                ..self.style
            }),
    {
        let mut b = self;
        b.style.font.set_scaling(scaling);
        b
    }

    pub fn with_color(self, color: Rgba) -> (r: Self)
        ensures
            r.style == (Style { color: Option::Some(color), ..self.style }),
    {
        let mut b = self;
        b.style.color = Some(color);
        b
    }

    pub fn with_background_color(self, background_color: Rgba) -> (r: Self)
        ensures
            r.style == (Style { background_color: Option::Some(background_color), ..self.style }),
    {
        let mut b = self;
        b.style.background_color = Some(background_color);
        b
    }

    pub fn with_width(self, width: Unit) -> (r: Self)
        ensures
            r.style == (Style { width: Dim::Fixed(width), ..self.style }),
    {
        let mut b = self;
        b.style.width = Dim::Fixed(width);
        b
    }

    pub fn with_width_parent(self, fill: FillPerMille) -> (r: Self)
        ensures
            r.style == (Style { width: Dim::Parent(fill, Option::None), ..self.style }),
    {
        let mut b = self;
        b.style.width = Dim::Parent(fill, None);
        b
    }

    pub fn with_max_width(self, max: Unit) -> (r: Self)
        ensures
            r.style == (Style { max_width: MaybeDim::Fixed(max), ..self.style }),
    {
        let mut b = self;
        b.style.max_width = MaybeDim::Fixed(max);
        b
    }

    pub fn with_max_width_parent(self, max: FillPerMille) -> (r: Self)
        ensures
            r.style == (Style { max_width: MaybeDim::Parent(max, Option::None), ..self.style }),
    {
        let mut b = self;
        b.style.max_width = MaybeDim::Parent(max, None);
        b
    }

    pub fn with_min_width(self, min: Unit) -> (r: Self)
        ensures
            r.style == (Style { min_width: MaybeDim::Fixed(min), ..self.style }),
    {
        let mut b = self;
        b.style.min_width = MaybeDim::Fixed(min);
        b
    }

    pub fn with_min_width_parent(self, min: FillPerMille) -> (r: Self)
        ensures
            r.style == (Style { min_width: MaybeDim::Parent(min, Option::None), ..self.style }),
    {
        let mut b = self;
        b.style.min_width = MaybeDim::Parent(min, None);
        b
    }

    pub fn with_height(self, height: Unit) -> (r: Self)
        ensures
            r.style == (Style { height: Dim::Fixed(height), ..self.style }),
    {
        let mut b = self;
        b.style.height = Dim::Fixed(height);
        b
    }

    pub fn with_height_parent(self, fill: FillPerMille) -> (r: Self)
        ensures
            r.style == (Style { height: Dim::Parent(fill, Option::None), ..self.style }),
    {
        let mut b = self;
        b.style.height = Dim::Parent(fill, None);
        b
    }

    pub fn with_max_height(self, max: Unit) -> (r: Self)
        ensures
            r.style == (Style { max_height: MaybeDim::Fixed(max), ..self.style }),
    {
        let mut b = self;
        b.style.max_height = MaybeDim::Fixed(max);
        b
    }

    pub fn with_max_height_parent(self, max: FillPerMille) -> (r: Self)
        ensures
            r.style == (Style { max_height: MaybeDim::Parent(max, Option::None), ..self.style }),
    {
        let mut b = self;
        b.style.max_height = MaybeDim::Parent(max, None);
        b
    }

    pub fn with_min_height(self, min: Unit) -> (r: Self)
        ensures
            r.style == (Style { min_height: MaybeDim::Fixed(min), ..self.style }),
    {
        let mut b = self;
        b.style.min_height = MaybeDim::Fixed(min);
        b
    }

    pub fn with_min_height_parent(self, min: FillPerMille) -> (r: Self)
        ensures
            r.style == (Style { min_height: MaybeDim::Parent(min, Option::None), ..self.style }),
    {
        let mut b = self;
        b.style.min_height = MaybeDim::Parent(min, None);
        b
    }

    pub fn with_grow(self, grow: Fill) -> (r: Self)
        ensures
            r.style == (Style { grow: Option::Some(grow), ..self.style }),
    {
        let mut b = self;
        b.style.grow = Some(grow);
        b
    }

    pub fn with_shrink(self, shrink: Fill) -> (r: Self)
        ensures
            r.style == (Style { shrink: Option::Some(shrink), ..self.style }),
    {
        let mut b = self;
        b.style.shrink = Some(shrink);
        b
    }

    pub fn with_wrap(self, wrap: bool) -> (r: Self)
        ensures
            r.style == (Style { wrap: Option::Some(wrap), ..self.style }),
    {
        let mut b = self;
        b.style.wrap = Some(wrap);
        b
    }

    pub fn with_border(self, border: Border) -> (r: Self)
        ensures
            r.style == (Style { border, ..self.style }),
    {
        let mut b = self;
        b.style.border = border;
        b
    }

    pub fn with_padding(self, padding: Quad) -> (r: Self)
        ensures
            r.style == (Style { padding, ..self.style }),
    {
        let mut b = self;
        b.style.padding = padding;
        b
    }

    pub fn with_align_items(self, align_items: AlignItems) -> (r: Self)
        ensures
            r.style == (Style { align_items: Option::Some(align_items), ..self.style }),
    {
        let mut b = self;
        b.style.align_items = Some(align_items);
        b
    }

    pub fn with_horizontal_gap(self, gap: Unit) -> (r: Self)
        ensures
            r.style == (Style { horizontal_gap: Option::Some(gap), ..self.style }),
    {
        let mut b = self;
        b.style.horizontal_gap = Some(gap);
        b
    }

    pub fn with_vertical_gap(self, gap: Unit) -> (r: Self)
        ensures
            r.style == (Style { vertical_gap: Option::Some(gap), ..self.style }),
    {
        let mut b = self;
        b.style.vertical_gap = Some(gap);
        b
    }
}

} // verus!
