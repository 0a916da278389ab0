//! Leaf value types of the shape grammar: length-or-percentage values,
//! their non-negative wrapper, rectangles of offsets, border radii and
//! positions, plus their resolved (computed) counterparts.
//!
//! Lengths are modelled in whole pixels and percentages in whole percent
//! units, both as bounded integers; a computed length-percentage is the
//! linear form `px + pct%`, which keeps mixed expressions such as
//! `calc(100% - 10px)` symbolic until a reference box is known.

use vstd::prelude::*;

verus! {

/// Bound on the magnitude of any stored length or percentage unit.
pub const MAX_MAGNITUDE: i64 = 1_000_000_000;

/// A specified `<length-percentage>`: a pixel length, a percentage, or a
/// linear `calc()` combination of both.
#[derive(Clone, Copy, Debug, PartialEq, Eq, Structural)]
pub enum LengthPercentage {
    /// An absolute length, in whole pixels.
    Length(i64),
    /// A percentage, in whole percent units (`50` means `50%`).
    Percentage(i64),
    /// A linear `calc()` expression `px + pct%`.
    Calc { px: i64, pct: i64 },
}

impl LengthPercentage {
    /// The pixel component of the linear form of this value.
    pub open spec fn px_part(self) -> int {
        match self {
            LengthPercentage::Length(v) => v as int,
            LengthPercentage::Percentage(_) => 0,
            LengthPercentage::Calc { px, .. } => px as int,
        }
    }

    /// The percentage component of the linear form of this value.
    pub open spec fn pct_part(self) -> int {
        match self {
            LengthPercentage::Length(_) => 0,
            LengthPercentage::Percentage(p) => p as int,
            LengthPercentage::Calc { pct, .. } => pct as int,
        }
    }

    /// All stored units are within the magnitude bound.
    pub open spec fn wf(self) -> bool {
        -MAX_MAGNITUDE <= self.px_part() <= MAX_MAGNITUDE
            && -MAX_MAGNITUDE <= self.pct_part() <= MAX_MAGNITUDE
    }

    /// A value that denotes zero in every reference box.
    pub open spec fn is_zero_spec(self) -> bool {
        self.px_part() == 0 && self.pct_part() == 0
    }

    /// Whether this value denotes zero in every reference box.
    pub fn is_zero(&self) -> (r: bool)
        ensures
            r == self.is_zero_spec(),
    {
        match self {
            LengthPercentage::Length(v) => *v == 0,
            LengthPercentage::Percentage(p) => *p == 0,
            LengthPercentage::Calc { px, pct } => *px == 0 && *pct == 0,
        }
    }

    /// The zero length.
    pub fn zero() -> (r: LengthPercentage)
        ensures
            r == LengthPercentage::Length(0),
    {
        LengthPercentage::Length(0)
    }
}

/// A `<length-percentage>` restricted to non-negative components.
#[derive(Clone, Copy, Debug, PartialEq, Eq, Structural)]
pub struct NonNegativeLengthPercentage(pub LengthPercentage);

impl NonNegativeLengthPercentage {
    /// Well-formed and with non-negative components.
    pub open spec fn wf(self) -> bool {
        self.0.wf() && self.0.px_part() >= 0 && self.0.pct_part() >= 0
    }

    /// The zero length.
    pub fn zero() -> (r: NonNegativeLengthPercentage)
        ensures
            r == NonNegativeLengthPercentage(LengthPercentage::Length(0)),
    {
        NonNegativeLengthPercentage(LengthPercentage::Length(0))
    }
}

/// Four values in CSS edge order: top, right, bottom, left.
#[derive(Clone, Copy, Debug, PartialEq, Eq, Structural)]
pub struct Rect<T> {
    pub top: T,
    pub right: T,
    pub bottom: T,
    pub left: T,
}

/// Corner rounding: one radius per corner, in declaration order
/// `top-left top-right bottom-right bottom-left`.
///
/// Corners are modelled as circular (a single radius each); the
/// elliptical `/` form of the `border-radius` shorthand is not part of
/// this model.
#[derive(Clone, Copy, Debug, PartialEq, Eq, Structural)]
pub struct BorderRadius {
    pub top_left: NonNegativeLengthPercentage,
    pub top_right: NonNegativeLengthPercentage,
    pub bottom_right: NonNegativeLengthPercentage,
    pub bottom_left: NonNegativeLengthPercentage,
}

impl BorderRadius {
    /// All four corners are well-formed.
    pub open spec fn wf(self) -> bool {
        self.top_left.wf() && self.top_right.wf() && self.bottom_right.wf()
            && self.bottom_left.wf()
    }

    /// All four corners denote zero.
    pub open spec fn is_zero_spec(self) -> bool {
        self.top_left.0.is_zero_spec() && self.top_right.0.is_zero_spec()
            && self.bottom_right.0.is_zero_spec() && self.bottom_left.0.is_zero_spec()
    }

    /// The all-zero rounding, used when `round` is omitted.
    pub fn zero() -> (r: BorderRadius)
        ensures
            r == BorderRadius::zero_spec(),
    {
        BorderRadius {
            top_left: NonNegativeLengthPercentage::zero(),
            top_right: NonNegativeLengthPercentage::zero(),
            bottom_right: NonNegativeLengthPercentage::zero(),
            bottom_left: NonNegativeLengthPercentage::zero(),
        }
    }

    /// The all-zero rounding.
    pub open spec fn zero_spec() -> BorderRadius {
        BorderRadius {
            top_left: NonNegativeLengthPercentage(LengthPercentage::Length(0)),
            top_right: NonNegativeLengthPercentage(LengthPercentage::Length(0)),
            bottom_right: NonNegativeLengthPercentage(LengthPercentage::Length(0)),
            bottom_left: NonNegativeLengthPercentage(LengthPercentage::Length(0)),
        }
    }

    /// Whether every corner denotes zero (the omitted-`round` form).
    pub fn is_zero(&self) -> (r: bool)
        ensures
            r == self.is_zero_spec(),
    {
        self.top_left.0.is_zero() && self.top_right.0.is_zero() && self.bottom_right.0.is_zero()
            && self.bottom_left.0.is_zero()
    }
}

/// A `<position>`: a horizontal and a vertical component.
#[derive(Clone, Copy, Debug, PartialEq, Eq, Structural)]
pub struct Position {
    pub horizontal: LengthPercentage,
    pub vertical: LengthPercentage,
}

impl Position {
    /// Both components are well-formed.
    pub open spec fn wf(self) -> bool {
        self.horizontal.wf() && self.vertical.wf()
    }

    /// The `center` position, `50% 50%`.
    pub fn center() -> (r: Position)
        ensures
            r == Position::center_spec(),
    {
        Position {
            horizontal: LengthPercentage::Percentage(50),
            vertical: LengthPercentage::Percentage(50),
        }
    }

    /// The `center` position.
    pub open spec fn center_spec() -> Position {
        Position {
            horizontal: LengthPercentage::Percentage(50),
            vertical: LengthPercentage::Percentage(50),
        }
    }
}

/// A position that may be left contextual (`auto`): used when the
/// `at <position>` clause is omitted and the property supplies its own
/// default elsewhere.
#[derive(Clone, Copy, Debug, PartialEq, Eq, Structural)]
pub enum PositionOrAuto {
    Position(Position),
    Auto,
}

impl PositionOrAuto {
    /// Well-formed when any carried position is.
    pub open spec fn wf(self) -> bool {
        match self {
            PositionOrAuto::Position(p) => p.wf(),
            PositionOrAuto::Auto => true,
        }
    }
}

/// A resolved `<length-percentage>`: the linear form `px + pct%`,
/// evaluable once a reference box size is known.
#[derive(Clone, Copy, Debug, PartialEq, Eq, Structural)]
pub struct ComputedLengthPercentage {
    /// Pixel component.
    pub px: i64,
    /// Percentage component, in whole percent units.
    pub pct: i64,
}

/// Bound on the magnitude of a computed component: wide enough for the
/// `100% - a - b` synthesis over well-formed operands.
pub const COMPUTED_MAX_MAGNITUDE: i64 = 3_000_000_000;

impl ComputedLengthPercentage {
    /// Components are within the computed magnitude bound.
    pub open spec fn wf(self) -> bool {
        -COMPUTED_MAX_MAGNITUDE <= self.px <= COMPUTED_MAX_MAGNITUDE
            && -COMPUTED_MAX_MAGNITUDE <= self.pct <= COMPUTED_MAX_MAGNITUDE
    }
}

/// Resolved corner rounding.
#[derive(Clone, Copy, Debug, PartialEq, Eq, Structural)]
pub struct ComputedBorderRadius {
    pub top_left: ComputedLengthPercentage,
    pub top_right: ComputedLengthPercentage,
    pub bottom_right: ComputedLengthPercentage,
    pub bottom_left: ComputedLengthPercentage,
}

/// The canonical computed rectangle both `inset()` and `xywh()` resolve
/// to: four offsets in edge order plus resolved corner rounding.
#[derive(Clone, Copy, Debug, PartialEq, Eq, Structural)]
pub struct ComputedInsetRect {
    pub rect: Rect<ComputedLengthPercentage>,
    pub round: ComputedBorderRadius,
}

impl LengthPercentage {
    /// Resolve a specified value to its linear computed form.
    pub fn to_computed_value(&self) -> (r: ComputedLengthPercentage)
        requires
            self.wf(),
        ensures
            r.px == self.px_part(),
            r.pct == self.pct_part(),
            r.wf(),
    {
        match self {
            LengthPercentage::Length(v) => ComputedLengthPercentage { px: *v, pct: 0 },
            LengthPercentage::Percentage(p) => ComputedLengthPercentage { px: 0, pct: *p },
            LengthPercentage::Calc { px, pct } => ComputedLengthPercentage { px: *px, pct: *pct },
        }
    }

    /// The specified form a computed value maps back to: a plain length
    /// or percentage where one component vanishes, a `calc()` otherwise.
    pub open spec fn from_computed_spec(c: ComputedLengthPercentage) -> LengthPercentage {
        if c.pct == 0 {
            LengthPercentage::Length(c.px)
        } else if c.px == 0 {
            LengthPercentage::Percentage(c.pct)
        } else {
            LengthPercentage::Calc { px: c.px, pct: c.pct }
        }
    }

    /// Reconstruct a specified value from a computed one.
    pub fn from_computed_value(c: &ComputedLengthPercentage) -> (r: LengthPercentage)
        ensures
            r == LengthPercentage::from_computed_spec(*c),
            r.px_part() == c.px,
            r.pct_part() == c.pct,
            (-MAX_MAGNITUDE <= c.px <= MAX_MAGNITUDE && -MAX_MAGNITUDE <= c.pct <= MAX_MAGNITUDE)
                ==> r.wf(),
    {
        if c.pct == 0 {
            LengthPercentage::Length(c.px)
        } else if c.px == 0 {
            LengthPercentage::Percentage(c.pct)
        } else {
            LengthPercentage::Calc { px: c.px, pct: c.pct }
        }
    }

    /// The symbolic expression `100% - a - b`, kept in linear form so a
    /// later stage can still evaluate it against a reference box.
    pub fn hundred_percent_minus_pair(a: &ComputedLengthPercentage, b: &ComputedLengthPercentage)
        -> (r: ComputedLengthPercentage)
        requires
            -MAX_MAGNITUDE <= a.px <= MAX_MAGNITUDE,
            -MAX_MAGNITUDE <= a.pct <= MAX_MAGNITUDE,
            -MAX_MAGNITUDE <= b.px <= MAX_MAGNITUDE,
            -MAX_MAGNITUDE <= b.pct <= MAX_MAGNITUDE,
        ensures
            r.px == -(a.px + b.px),
            r.pct == 100 - (a.pct + b.pct),
            r.wf(),
    {
        ComputedLengthPercentage { px: -(a.px + b.px), pct: 100 - (a.pct + b.pct) }
    }
}

} // verus!
