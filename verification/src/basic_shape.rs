//! The `<basic-shape>` pipeline: the specified-value abstract syntax,
//! the capability-gated recursive-descent grammar over [`Token`]
//! streams, and the property-level unions for `clip-path` and
//! `shape-outside`.
//!
//! The grammar is stated once as spec functions over `Seq<Token>`; each
//! executable parser is proved to return exactly what the spec grammar
//! denotes, and to restore the cursor position exactly on failure.

use vstd::prelude::*;
use crate::bytes::{bytes_eq, eq_ignore_case, name_matches};
use crate::tokens::{Token, TokenCursor, lp_of_tok, nn_lp_of_tok, is_ident_tok};
use crate::values::{
    BorderRadius, LengthPercentage, NonNegativeLengthPercentage, Position, PositionOrAuto, Rect,
};
use vstd::string::StringSliceAdditionalSpecFns;

verus! {

// ---------------------------------------------------------------------
// Specified-value abstract syntax
// ---------------------------------------------------------------------

/// The `nonzero` / `evenodd` winding rule of `polygon()` and `path()`.
#[derive(Clone, Copy, Debug, PartialEq, Eq, Structural)]
pub enum FillRule {
    Nonzero,
    Evenodd,
}

/// Whether the property using a shape fills it (fill-rule is
/// grammatical) or strokes an outline (fill-rule is never parsed).
#[derive(Clone, Copy, Debug, PartialEq, Eq, Structural)]
pub enum ShapeType {
    /// The CSS property uses filled shapes. The default behavior.
    Filled,
    /// The CSS property uses outline shapes, as motion paths do.
    Outline,
}

/// What an omitted `at <position>` clause stands for.
#[derive(Clone, Copy, Debug, PartialEq, Eq, Structural)]
pub enum DefaultPosition {
    /// Substitute the standard default, `center`.
    Center,
    /// Leave the position contextual: the property resolves it
    /// elsewhere, and serialization omits it.
    Context,
}

/// The set of shape-function names a property admits, one flag per
/// function.
#[derive(Clone, Copy, Debug, PartialEq, Eq, Structural)]
pub struct AllowedBasicShapes {
    pub inset: bool,
    pub xywh: bool,
    pub circle: bool,
    pub ellipse: bool,
    pub polygon: bool,
    pub path: bool,
}

impl AllowedBasicShapes {
    /// Every shape function, as `clip-path` admits.
    pub open spec fn all_spec() -> AllowedBasicShapes {
        AllowedBasicShapes {
            inset: true,
            xywh: true,
            circle: true,
            ellipse: true,
            polygon: true,
            path: true,
        }
    }

    /// Every shape function.
    pub fn all() -> (r: AllowedBasicShapes)
        ensures
            r == AllowedBasicShapes::all_spec(),
    {
        AllowedBasicShapes {
            inset: true,
            xywh: true,
            circle: true,
            ellipse: true,
            polygon: true,
            path: true,
        }
    }

    /// The subset `shape-outside` admits: `inset()`, `circle()`,
    /// `ellipse()`, `polygon()`.
    pub open spec fn shape_outside_spec() -> AllowedBasicShapes {
        AllowedBasicShapes {
            inset: true,
            xywh: false,
            circle: true,
            ellipse: true,
            polygon: true,
            path: false,
        }
    }

    /// The subset `shape-outside` admits.
    pub fn shape_outside() -> (r: AllowedBasicShapes)
        ensures
            r == AllowedBasicShapes::shape_outside_spec(),
    {
        AllowedBasicShapes {
            inset: true,
            xywh: false,
            circle: true,
            ellipse: true,
            polygon: true,
            path: false,
        }
    }
}

/// Caller-supplied configuration the grammar depends on besides the
/// capability set: the runtime enablement of `xywh()`.
#[derive(Clone, Copy, Debug, PartialEq, Eq, Structural)]
pub struct ParserContext {
    /// Whether the `xywh()` function is enabled at all; when false the
    /// name is treated as unrecognized even where its capability bit is
    /// set.
    pub xywh_enabled: bool,
}

/// The specified value of `inset()`: four edge offsets and corner
/// rounding.
#[derive(Clone, Copy, Debug, PartialEq, Eq, Structural)]
pub struct InsetRect {
    /// Offsets from each edge of the reference box, in order
    /// top, right, bottom, left.
    pub rect: Rect<LengthPercentage>,
    /// Corner rounding; all-zero when `round` was omitted.
    pub round: BorderRadius,
}

/// The specified value of `xywh()`: a rectangle given by the offsets of
/// its left and top edge and its non-negative size, plus corner
/// rounding.
#[derive(Clone, Copy, Debug, PartialEq, Eq, Structural)]
pub struct Xywh {
    /// The inset of the rectangle from the left edge of the reference
    /// box.
    pub x: LengthPercentage,
    /// The inset of the rectangle from the top edge of the reference
    /// box.
    pub y: LengthPercentage,
    /// The specified width.
    pub width: NonNegativeLengthPercentage,
    /// The specified height.
    pub height: NonNegativeLengthPercentage,
    /// Corner rounding; all-zero when `round` was omitted.
    pub round: BorderRadius,
}

/// The rectangle-like shapes: `<basic-shape-rect> = inset() | xywh()`.
#[derive(Clone, Copy, Debug, PartialEq, Eq, Structural)]
pub enum BasicShapeRect {
    /// An inset rectangle, via offsets from each edge.
    Inset(InsetRect),
    /// An `xywh()` rectangle.
    Xywh(Xywh),
}

/// A `<shape-radius>` for `circle()` and `ellipse()`.
#[derive(Clone, Copy, Debug, PartialEq, Eq, Structural)]
pub enum ShapeRadius {
    Length(NonNegativeLengthPercentage),
    ClosestSide,
    FarthestSide,
}

/// The specified value of `circle()`.
#[derive(Clone, Copy, Debug, PartialEq, Eq, Structural)]
pub struct Circle {
    pub radius: ShapeRadius,
    pub position: PositionOrAuto,
}

/// The specified value of `ellipse()`.
#[derive(Clone, Copy, Debug, PartialEq, Eq, Structural)]
pub struct Ellipse {
    pub semiaxis_x: ShapeRadius,
    pub semiaxis_y: ShapeRadius,
    pub position: PositionOrAuto,
}

/// One `x y` vertex of a `polygon()`.
#[derive(Clone, Copy, Debug, PartialEq, Eq, Structural)]
pub struct PolygonCoord(pub LengthPercentage, pub LengthPercentage);

/// The specified value of `polygon()`.
#[derive(Clone, Debug)]
pub struct Polygon {
    pub fill: FillRule,
    pub coordinates: Vec<PolygonCoord>,
}

/// SVG path data, carried opaquely as its (non-empty) byte text.
#[derive(Clone, Debug)]
pub struct SVGPathData(pub Vec<u8>);

/// The specified value of `path()`.
#[derive(Clone, Debug)]
pub struct Path {
    pub fill: FillRule,
    pub path: SVGPathData,
}

/// A specified `<basic-shape>`.
#[derive(Clone, Debug)]
pub enum BasicShape {
    Rect(BasicShapeRect),
    Circle(Circle),
    Ellipse(Ellipse),
    Polygon(Polygon),
    Path(Path),
}

/// The mathematical model of a shape: as the syntax tree, with owned
/// sequences in place of vectors.
pub ghost enum ShapeModel {
    Rect(BasicShapeRect),
    Circle(Circle),
    Ellipse(Ellipse),
    Polygon(FillRule, Seq<PolygonCoord>),
    Path(FillRule, Seq<u8>),
}

impl View for BasicShape {
    type V = ShapeModel;

    open spec fn view(&self) -> ShapeModel {
        match self {
            BasicShape::Rect(r) => ShapeModel::Rect(*r),
            BasicShape::Circle(c) => ShapeModel::Circle(*c),
            BasicShape::Ellipse(e) => ShapeModel::Ellipse(*e),
            BasicShape::Polygon(p) => ShapeModel::Polygon(p.fill, p.coordinates@),
            BasicShape::Path(p) => ShapeModel::Path(p.fill, p.path.0@),
        }
    }
}

/// A `<geometry-box>` keyword, the reference-box alternative of
/// `clip-path`.
#[derive(Clone, Copy, Debug, PartialEq, Eq, Structural)]
pub enum GeometryBox {
    BorderBox,
    PaddingBox,
    ContentBox,
    MarginBox,
    FillBox,
    StrokeBox,
    ViewBox,
}

/// A `<shape-box>` keyword, the reference-box alternative of
/// `shape-outside`.
#[derive(Clone, Copy, Debug, PartialEq, Eq, Structural)]
pub enum ShapeBox {
    MarginBox,
    BorderBox,
    PaddingBox,
    ContentBox,
}

/// A specified URL, carried opaquely as its address bytes.
#[derive(Clone, Debug)]
pub struct SpecifiedUrl(pub Vec<u8>);

/// A specified image, modelled by the URL that names it.
#[derive(Clone, Debug)]
pub struct Image(pub Vec<u8>);

/// A specified `clip-path` value.
#[derive(Clone, Debug)]
pub enum ClipPath {
    /// The `none` keyword.
    NoneKeyword,
    /// A clip source referenced by URL.
    Url(SpecifiedUrl),
    /// A basic shape, measured against a reference box (defaulted when
    /// the input named none).
    Shape(Box<BasicShape>, GeometryBox),
    /// A bare reference-box keyword.
    ReferenceBox(GeometryBox),
}

/// A specified `shape-outside` value.
#[derive(Clone, Debug)]
pub enum ShapeOutside {
    /// The `none` keyword.
    NoneKeyword,
    /// An image whose alpha channel defines the float area.
    Image(Image),
    /// A basic shape, measured against a reference box (defaulted when
    /// the input named none).
    Shape(Box<BasicShape>, ShapeBox),
    /// A bare reference-box keyword.
    ReferenceBox(ShapeBox),
}

/// The mathematical model of a `clip-path` value.
pub ghost enum ClipPathModel {
    NoneKeyword,
    Url(Seq<u8>),
    Shape(ShapeModel, GeometryBox),
    ReferenceBox(GeometryBox),
}

impl View for ClipPath {
    type V = ClipPathModel;

    open spec fn view(&self) -> ClipPathModel {
        match self {
            ClipPath::NoneKeyword => ClipPathModel::NoneKeyword,
            ClipPath::Url(u) => ClipPathModel::Url(u.0@),
            ClipPath::Shape(s, b) => ClipPathModel::Shape((**s)@, *b),
            ClipPath::ReferenceBox(b) => ClipPathModel::ReferenceBox(*b),
        }
    }
}

/// The mathematical model of a `shape-outside` value.
pub ghost enum ShapeOutsideModel {
    NoneKeyword,
    Image(Seq<u8>),
    Shape(ShapeModel, ShapeBox),
    ReferenceBox(ShapeBox),
}

impl View for ShapeOutside {
    type V = ShapeOutsideModel;

    open spec fn view(&self) -> ShapeOutsideModel {
        match self {
            ShapeOutside::NoneKeyword => ShapeOutsideModel::NoneKeyword,
            ShapeOutside::Image(i) => ShapeOutsideModel::Image(i.0@),
            ShapeOutside::Shape(s, b) => ShapeOutsideModel::Shape((**s)@, *b),
            ShapeOutside::ReferenceBox(b) => ShapeOutsideModel::ReferenceBox(*b),
        }
    }
}

// ---------------------------------------------------------------------
// Errors
// ---------------------------------------------------------------------

/// Why a parse failed.
#[derive(Clone, Debug)]
pub enum StyleParseErrorKind {
    /// The token sequence matches no enabled production.
    UnspecifiedError,
    /// A function name that is not recognized here, either because its
    /// capability bit is absent or because it is disabled outright.
    UnexpectedFunction(Vec<u8>),
}

/// A grammar mismatch, carrying the token index it was noticed at.
#[derive(Clone, Debug)]
pub struct ParseError {
    pub kind: StyleParseErrorKind,
    pub location: usize,
}

// ---------------------------------------------------------------------
// The grammar, as spec functions over the token sequence
// ---------------------------------------------------------------------

/// The `<length-percentage>` denoted at `pos`, if in bounds.
pub open spec fn lp_at(toks: Seq<Token>, pos: int) -> Option<LengthPercentage> {
    if 0 <= pos < toks.len() {
        lp_of_tok(toks[pos])
    } else {
        None
    }
}

/// The non-negative `<length-percentage>` denoted at `pos`.
pub open spec fn nn_lp_at(toks: Seq<Token>, pos: int) -> Option<NonNegativeLengthPercentage> {
    if 0 <= pos < toks.len() {
        nn_lp_of_tok(toks[pos])
    } else {
        None
    }
}

/// Whether the token at `pos` is the identifier `kw`.
pub open spec fn ident_at(toks: Seq<Token>, pos: int, kw: Seq<u8>) -> bool {
    0 <= pos < toks.len() && is_ident_tok(toks[pos], kw)
}

/// Whether the token at `pos` is a comma.
pub open spec fn comma_at(toks: Seq<Token>, pos: int) -> bool {
    0 <= pos < toks.len() && (toks[pos] matches Token::Comma)
}

/// Whether the token at `pos` closes the argument list.
pub open spec fn close_at(toks: Seq<Token>, pos: int) -> bool {
    0 <= pos < toks.len() && (toks[pos] matches Token::CloseParen)
}

/// The function name opened at `pos`, if any.
pub open spec fn fn_at(toks: Seq<Token>, pos: int) -> Option<Seq<u8>> {
    if 0 <= pos < toks.len() {
        match toks[pos] {
            Token::Function(name) => Some(name@),
            _ => None,
        }
    } else {
        None
    }
}

/// The quoted string at `pos`, if any.
pub open spec fn string_at(toks: Seq<Token>, pos: int) -> Option<Seq<u8>> {
    if 0 <= pos < toks.len() {
        match toks[pos] {
            Token::QuotedString(s) => Some(s@),
            _ => None,
        }
    } else {
        None
    }
}

/// The URL at `pos`, if any.
pub open spec fn url_at(toks: Seq<Token>, pos: int) -> Option<Seq<u8>> {
    if 0 <= pos < toks.len() {
        match toks[pos] {
            Token::Url(u) => Some(u@),
            _ => None,
        }
    } else {
        None
    }
}

/// `<box-edge>{1,4}` with the CSS edge-expansion rule: one value covers
/// all edges, two cover top/bottom and left/right, three cover top,
/// left/right and bottom, four are top, right, bottom, left.
pub open spec fn parse_rect_spec(toks: Seq<Token>, pos: int) -> Option<
    (Rect<LengthPercentage>, int),
> {
    match lp_at(toks, pos) {
        None => None,
        Some(a) => match lp_at(toks, pos + 1) {
            None => Some((Rect { top: a, right: a, bottom: a, left: a }, pos + 1)),
            Some(b) => match lp_at(toks, pos + 2) {
                None => Some((Rect { top: a, right: b, bottom: a, left: b }, pos + 2)),
                Some(c) => match lp_at(toks, pos + 3) {
                    None => Some((Rect { top: a, right: b, bottom: c, left: b }, pos + 3)),
                    Some(d) => Some((Rect { top: a, right: b, bottom: c, left: d }, pos + 4)),
                },
            },
        },
    }
}

/// `<border-radius>` as 1–4 non-negative radii with the corner
/// expansion rule: one value covers all corners, two cover
/// top-left/bottom-right and top-right/bottom-left, three cover
/// top-left, top-right/bottom-left and bottom-right, four are
/// top-left, top-right, bottom-right, bottom-left.
pub open spec fn parse_border_radius_spec(toks: Seq<Token>, pos: int) -> Option<
    (BorderRadius, int),
> {
    match nn_lp_at(toks, pos) {
        None => None,
        Some(a) => match nn_lp_at(toks, pos + 1) {
            None => Some(
                (BorderRadius { top_left: a, top_right: a, bottom_right: a, bottom_left: a }, pos + 1),
            ),
            Some(b) => match nn_lp_at(toks, pos + 2) {
                None => Some(
                    (BorderRadius { top_left: a, top_right: b, bottom_right: a, bottom_left: b }, pos + 2),
                ),
                Some(c) => match nn_lp_at(toks, pos + 3) {
                    None => Some(
                        (BorderRadius { top_left: a, top_right: b, bottom_right: c, bottom_left: b }, pos + 3),
                    ),
                    Some(d) => Some(
                        (BorderRadius { top_left: a, top_right: b, bottom_right: c, bottom_left: d }, pos + 4),
                    ),
                },
            },
        },
    }
}

/// The optional `round <border-radius>` tail: all-zero rounding when
/// absent, a failure when `round` is present but its radii are not.
pub open spec fn parse_round_spec(toks: Seq<Token>, pos: int) -> Option<(BorderRadius, int)> {
    if ident_at(toks, pos, "round".spec_bytes()) {
        parse_border_radius_spec(toks, pos + 1)
    } else {
        Some((BorderRadius::zero_spec(), pos))
    }
}

/// The argument list of `inset()`, through the closing parenthesis.
pub open spec fn parse_inset_args_spec(toks: Seq<Token>, pos: int) -> Option<(InsetRect, int)> {
    match parse_rect_spec(toks, pos) {
        None => None,
        Some((rect, p1)) => match parse_round_spec(toks, p1) {
            None => None,
            Some((round, p2)) => if close_at(toks, p2) {
                Some((InsetRect { rect, round }, p2 + 1))
            } else {
                None
            },
        },
    }
}

/// The argument list of `xywh()`, through the closing parenthesis:
/// `x y` offsets, a non-negative `width height`, optional rounding.
pub open spec fn parse_xywh_args_spec(toks: Seq<Token>, pos: int) -> Option<(Xywh, int)> {
    match lp_at(toks, pos) {
        None => None,
        Some(x) => match lp_at(toks, pos + 1) {
            None => None,
            Some(y) => match nn_lp_at(toks, pos + 2) {
                None => None,
                Some(width) => match nn_lp_at(toks, pos + 3) {
                    None => None,
                    Some(height) => match parse_round_spec(toks, pos + 4) {
                        None => None,
                        Some((round, p1)) => if close_at(toks, p1) {
                            Some((Xywh { x, y, width, height, round }, p1 + 1))
                        } else {
                            None
                        },
                    },
                },
            },
        },
    }
}

/// The `<shape-radius>` denoted at `pos`: a keyword side or a
/// non-negative length-percentage.
pub open spec fn shape_radius_at(toks: Seq<Token>, pos: int) -> Option<ShapeRadius> {
    if 0 <= pos < toks.len() {
        if is_ident_tok(toks[pos], "closest-side".spec_bytes()) {
            Some(ShapeRadius::ClosestSide)
        } else if is_ident_tok(toks[pos], "farthest-side".spec_bytes()) {
            Some(ShapeRadius::FarthestSide)
        } else {
            match nn_lp_of_tok(toks[pos]) {
                Some(v) => Some(ShapeRadius::Length(v)),
                None => None,
            }
        }
    } else {
        None
    }
}

/// The position an omitted `at <position>` clause stands for.
pub open spec fn default_position_spec(dp: DefaultPosition) -> PositionOrAuto {
    match dp {
        DefaultPosition::Center => PositionOrAuto::Position(Position::center_spec()),
        DefaultPosition::Context => PositionOrAuto::Auto,
    }
}

/// The optional `at <position>` clause: two length-percentage
/// components after `at`, the default when `at` is absent, a failure
/// when `at` is present but the position is not.
pub open spec fn parse_at_position_spec(toks: Seq<Token>, pos: int, dp: DefaultPosition) -> Option<
    (PositionOrAuto, int),
> {
    if ident_at(toks, pos, "at".spec_bytes()) {
        match lp_at(toks, pos + 1) {
            None => None,
            Some(h) => match lp_at(toks, pos + 2) {
                None => None,
                Some(v) => Some(
                    (PositionOrAuto::Position(Position { horizontal: h, vertical: v }), pos + 3),
                ),
            },
        }
    } else {
        Some((default_position_spec(dp), pos))
    }
}

/// The argument list of `circle()`, through the closing parenthesis.
pub open spec fn parse_circle_args_spec(toks: Seq<Token>, pos: int, dp: DefaultPosition) -> Option<
    (Circle, int),
> {
    let (radius, p1) = match shape_radius_at(toks, pos) {
        Some(r) => (r, pos + 1),
        None => (ShapeRadius::ClosestSide, pos),
    };
    match parse_at_position_spec(toks, p1, dp) {
        None => None,
        Some((position, p2)) => if close_at(toks, p2) {
            Some((Circle { radius, position }, p2 + 1))
        } else {
            None
        },
    }
}

/// The argument list of `ellipse()`, through the closing parenthesis.
/// The two semiaxes are parsed together or not at all.
pub open spec fn parse_ellipse_args_spec(toks: Seq<Token>, pos: int, dp: DefaultPosition) -> Option<
    (Ellipse, int),
> {
    let (sx, sy, p1) = match shape_radius_at(toks, pos) {
        Some(rx) => match shape_radius_at(toks, pos + 1) {
            Some(ry) => (rx, ry, pos + 2),
            None => (ShapeRadius::ClosestSide, ShapeRadius::ClosestSide, pos),
        },
        None => (ShapeRadius::ClosestSide, ShapeRadius::ClosestSide, pos),
    };
    match parse_at_position_spec(toks, p1, dp) {
        None => None,
        Some((position, p2)) => if close_at(toks, p2) {
            Some((Ellipse { semiaxis_x: sx, semiaxis_y: sy, position }, p2 + 1))
        } else {
            None
        },
    }
}

/// The optional leading `<fill-rule> ,` of `polygon()` and `path()`.
/// Outline shapes never consume one; for filled shapes a fill-rule
/// keyword counts only when a comma follows, otherwise the attempt is
/// rolled back and the default applies.
pub open spec fn parse_fill_rule_spec(toks: Seq<Token>, pos: int, shape_type: ShapeType) -> (
    FillRule,
    int,
) {
    match shape_type {
        ShapeType::Outline => (FillRule::Nonzero, pos),
        ShapeType::Filled => {
            if ident_at(toks, pos, "nonzero".spec_bytes()) && comma_at(toks, pos + 1) {
                (FillRule::Nonzero, pos + 2)
            } else if ident_at(toks, pos, "evenodd".spec_bytes()) && comma_at(toks, pos + 1) {
                (FillRule::Evenodd, pos + 2)
            } else {
                (FillRule::Nonzero, pos)
            }
        },
    }
}

/// The comma-separated, non-empty vertex list of `polygon()`.
pub open spec fn parse_coords_spec(toks: Seq<Token>, pos: int) -> Option<(Seq<PolygonCoord>, int)>
    decreases toks.len() - pos,
{
    match lp_at(toks, pos) {
        None => None,
        Some(x) => match lp_at(toks, pos + 1) {
            None => None,
            Some(y) => if comma_at(toks, pos + 2) {
                match parse_coords_spec(toks, pos + 3) {
                    None => None,
                    Some((rest, p)) => Some((seq![PolygonCoord(x, y)].add(rest), p)),
                }
            } else {
                Some((seq![PolygonCoord(x, y)], pos + 2))
            },
        },
    }
}

/// The argument list of `polygon()`, through the closing parenthesis.
pub open spec fn parse_polygon_args_spec(
    toks: Seq<Token>,
    pos: int,
    shape_type: ShapeType,
) -> Option<(FillRule, Seq<PolygonCoord>, int)> {
    let (fill, p1) = parse_fill_rule_spec(toks, pos, shape_type);
    match parse_coords_spec(toks, p1) {
        None => None,
        Some((coords, p2)) => if close_at(toks, p2) {
            Some((fill, coords, p2 + 1))
        } else {
            None
        },
    }
}

/// The argument list of `path()`, through the closing parenthesis:
/// optional fill-rule, then non-empty path data.
pub open spec fn parse_path_args_spec(toks: Seq<Token>, pos: int, shape_type: ShapeType) -> Option<
    (FillRule, Seq<u8>, int),
> {
    let (fill, p1) = parse_fill_rule_spec(toks, pos, shape_type);
    match string_at(toks, p1) {
        None => None,
        Some(data) => if data.len() > 0 && close_at(toks, p1 + 1) {
            Some((fill, data, p1 + 2))
        } else {
            None
        },
    }
}

/// Whether a function name is recognized under the given capability
/// set and feature configuration.
pub open spec fn allowed_function(
    name: Seq<u8>,
    flags: AllowedBasicShapes,
    context: ParserContext,
) -> bool {
    ||| (eq_ignore_case(name, "inset".spec_bytes()) && flags.inset)
    ||| (eq_ignore_case(name, "circle".spec_bytes()) && flags.circle)
    ||| (eq_ignore_case(name, "ellipse".spec_bytes()) && flags.ellipse)
    ||| (eq_ignore_case(name, "polygon".spec_bytes()) && flags.polygon)
    ||| (eq_ignore_case(name, "path".spec_bytes()) && flags.path)
    ||| (eq_ignore_case(name, "xywh".spec_bytes()) && flags.xywh && context.xywh_enabled)
}

/// The argument grammar of the named shape function, from the token
/// after the opener.
pub open spec fn shape_args_spec(
    name: Seq<u8>,
    toks: Seq<Token>,
    pos: int,
    shape_type: ShapeType,
    dp: DefaultPosition,
) -> Option<(ShapeModel, int)> {
    if eq_ignore_case(name, "inset".spec_bytes()) {
        match parse_inset_args_spec(toks, pos) {
            Some((r, p)) => Some((ShapeModel::Rect(BasicShapeRect::Inset(r)), p)),
            None => None,
        }
    } else if eq_ignore_case(name, "circle".spec_bytes()) {
        match parse_circle_args_spec(toks, pos, dp) {
            Some((c, p)) => Some((ShapeModel::Circle(c), p)),
            None => None,
        }
    } else if eq_ignore_case(name, "ellipse".spec_bytes()) {
        match parse_ellipse_args_spec(toks, pos, dp) {
            Some((e, p)) => Some((ShapeModel::Ellipse(e), p)),
            None => None,
        }
    } else if eq_ignore_case(name, "polygon".spec_bytes()) {
        match parse_polygon_args_spec(toks, pos, shape_type) {
            Some((fill, coords, p)) => Some((ShapeModel::Polygon(fill, coords), p)),
            None => None,
        }
    } else if eq_ignore_case(name, "path".spec_bytes()) {
        match parse_path_args_spec(toks, pos, shape_type) {
            Some((fill, data, p)) => Some((ShapeModel::Path(fill, data), p)),
            None => None,
        }
    } else if eq_ignore_case(name, "xywh".spec_bytes()) {
        match parse_xywh_args_spec(toks, pos) {
            Some((x, p)) => Some((ShapeModel::Rect(BasicShapeRect::Xywh(x)), p)),
            None => None,
        }
    } else {
        None
    }
}

/// A `<basic-shape>`: a recognized, capability-admitted function
/// opener followed by its argument grammar.
pub open spec fn basic_shape_spec(
    toks: Seq<Token>,
    pos: int,
    flags: AllowedBasicShapes,
    shape_type: ShapeType,
    dp: DefaultPosition,
    context: ParserContext,
) -> Option<(ShapeModel, int)> {
    match fn_at(toks, pos) {
        None => None,
        Some(name) => if allowed_function(name, flags, context) {
            shape_args_spec(name, toks, pos + 1, shape_type, dp)
        } else {
            None
        },
    }
}

// ---------------------------------------------------------------------
// Executable parsers
// ---------------------------------------------------------------------

/// A grammar-mismatch error at the given token index.
fn mismatch(location: usize) -> (r: ParseError)
    ensures
        r.kind matches StyleParseErrorKind::UnspecifiedError,
        r.location == location,
{
    ParseError { kind: StyleParseErrorKind::UnspecifiedError, location }
}

/// Parse `<box-edge>{1,4}` and expand it onto the four edges.
pub fn parse_rect(c: &mut TokenCursor) -> (r: Result<Rect<LengthPercentage>, ParseError>)
    requires
        old(c).wf(),
    ensures
        final(c).toks@ == old(c).toks@,
        final(c).wf(),
        match r {
            Ok(v) => parse_rect_spec(old(c).toks@, old(c).pos as int) == Some(
                (v, final(c).pos as int),
            ),
            Err(_) => parse_rect_spec(old(c).toks@, old(c).pos as int) is None && final(c).pos
                == old(c).pos,
        },
{
    let a = match c.try_lp() {
        Some(a) => a,
        None => {
            return Err(mismatch(c.position()));
        },
    };
    let b = match c.try_lp() {
        Some(b) => b,
        None => {
            return Ok(Rect { top: a, right: a, bottom: a, left: a });
        },
    };
    let cc = match c.try_lp() {
        Some(cc) => cc,
        None => {
            return Ok(Rect { top: a, right: b, bottom: a, left: b });
        },
    };
    let d = match c.try_lp() {
        Some(d) => d,
        None => {
            return Ok(Rect { top: a, right: b, bottom: cc, left: b });
        },
    };
    Ok(Rect { top: a, right: b, bottom: cc, left: d })
}

/// Parse `<border-radius>` as 1-4 radii and expand them onto the four
/// corners.
pub fn parse_border_radius(c: &mut TokenCursor) -> (r: Result<BorderRadius, ParseError>)
    requires
        old(c).wf(),
    ensures
        final(c).toks@ == old(c).toks@,
        final(c).wf(),
        match r {
            Ok(v) => parse_border_radius_spec(old(c).toks@, old(c).pos as int) == Some(
                (v, final(c).pos as int),
            ),
            Err(_) => parse_border_radius_spec(old(c).toks@, old(c).pos as int) is None
                && final(c).pos == old(c).pos,
        },
{
    let a = match c.try_nn_lp() {
        Some(a) => a,
        None => {
            return Err(mismatch(c.position()));
        },
    };
    let b = match c.try_nn_lp() {
        Some(b) => b,
        None => {
            return Ok(
                BorderRadius { top_left: a, top_right: a, bottom_right: a, bottom_left: a },
            );
        },
    };
    let cc = match c.try_nn_lp() {
        Some(cc) => cc,
        None => {
            return Ok(
                BorderRadius { top_left: a, top_right: b, bottom_right: a, bottom_left: b },
            );
        },
    };
    let d = match c.try_nn_lp() {
        Some(d) => d,
        None => {
            return Ok(
                BorderRadius { top_left: a, top_right: b, bottom_right: cc, bottom_left: b },
            );
        },
    };
    Ok(BorderRadius { top_left: a, top_right: b, bottom_right: cc, bottom_left: d })
}

/// Parse the optional `round <border-radius>` tail.
pub fn parse_round(c: &mut TokenCursor) -> (r: Result<BorderRadius, ParseError>)
    requires
        old(c).wf(),
    ensures
        final(c).toks@ == old(c).toks@,
        final(c).wf(),
        match r {
            Ok(v) => parse_round_spec(old(c).toks@, old(c).pos as int) == Some(
                (v, final(c).pos as int),
            ),
            Err(_) => parse_round_spec(old(c).toks@, old(c).pos as int) is None && final(c).pos
                == old(c).pos,
        },
{
    let saved = c.position();
    if c.try_ident_matching("round") {
        match parse_border_radius(c) {
            Ok(v) => Ok(v),
            Err(e) => {
                c.restore(saved);
                Err(e)
            },
        }
    } else {
        Ok(BorderRadius::zero())
    }
}

impl InsetRect {
    /// Parse the argument list of `inset()`, through the closing
    /// parenthesis.
    pub fn parse_function_arguments(c: &mut TokenCursor) -> (r: Result<InsetRect, ParseError>)
        requires
            old(c).wf(),
        ensures
            final(c).toks@ == old(c).toks@,
            final(c).wf(),
            match r {
                Ok(v) => parse_inset_args_spec(old(c).toks@, old(c).pos as int) == Some(
                    (v, final(c).pos as int),
                ),
                Err(_) => parse_inset_args_spec(old(c).toks@, old(c).pos as int) is None
                    && final(c).pos == old(c).pos,
            },
    {
        let saved = c.position();
        let rect = match parse_rect(c) {
            Ok(v) => v,
            Err(e) => {
                return Err(e);
            },
        };
        let round = match parse_round(c) {
            Ok(v) => v,
            Err(e) => {
                c.restore(saved);
                return Err(e);
            },
        };
        if c.try_close_paren() {
            Ok(InsetRect { rect, round })
        } else {
            c.restore(saved);
            Err(mismatch(c.position()))
        }
    }
}

impl Xywh {
    /// Parse the argument list of `xywh()`, through the closing
    /// parenthesis.
    pub fn parse_function_arguments(c: &mut TokenCursor) -> (r: Result<Xywh, ParseError>)
        requires
            old(c).wf(),
        ensures
            final(c).toks@ == old(c).toks@,
            final(c).wf(),
            match r {
                Ok(v) => parse_xywh_args_spec(old(c).toks@, old(c).pos as int) == Some(
                    (v, final(c).pos as int),
                ),
                Err(_) => parse_xywh_args_spec(old(c).toks@, old(c).pos as int) is None
                    && final(c).pos == old(c).pos,
            },
    {
        let saved = c.position();
        let x = match c.try_lp() {
            Some(v) => v,
            None => {
                return Err(mismatch(c.position()));
            },
        };
        let y = match c.try_lp() {
            Some(v) => v,
            None => {
                c.restore(saved);
                return Err(mismatch(c.position()));
            },
        };
        let width = match c.try_nn_lp() {
            Some(v) => v,
            None => {
                c.restore(saved);
                return Err(mismatch(c.position()));
            },
        };
        let height = match c.try_nn_lp() {
            Some(v) => v,
            None => {
                c.restore(saved);
                return Err(mismatch(c.position()));
            },
        };
        let round = match parse_round(c) {
            Ok(v) => v,
            Err(e) => {
                c.restore(saved);
                return Err(e);
            },
        };
        if c.try_close_paren() {
            Ok(Xywh { x, y, width, height, round })
        } else {
            c.restore(saved);
            Err(mismatch(c.position()))
        }
    }
}

/// Consume the next token if it denotes a `<shape-radius>`.
pub fn try_shape_radius(c: &mut TokenCursor) -> (r: Option<ShapeRadius>)
    requires
        old(c).wf(),
    ensures
        final(c).toks@ == old(c).toks@,
        final(c).wf(),
        match r {
            Some(v) => shape_radius_at(old(c).toks@, old(c).pos as int) == Some(v)
                && final(c).pos == old(c).pos + 1,
            None => shape_radius_at(old(c).toks@, old(c).pos as int) is None && final(c).pos
                == old(c).pos,
        },
{
    if c.try_ident_matching("closest-side") {
        Some(ShapeRadius::ClosestSide)
    } else if c.try_ident_matching("farthest-side") {
        Some(ShapeRadius::FarthestSide)
    } else {
        match c.try_nn_lp() {
            Some(v) => Some(ShapeRadius::Length(v)),
            None => None,
        }
    }
}

/// Parse the optional `at <position>` clause, substituting the default
/// of the current policy when it is absent.
pub fn parse_at_position(c: &mut TokenCursor, default_position: DefaultPosition) -> (r: Result<
    PositionOrAuto,
    ParseError,
>)
    requires
        old(c).wf(),
    ensures
        final(c).toks@ == old(c).toks@,
        final(c).wf(),
        match r {
            Ok(v) => parse_at_position_spec(old(c).toks@, old(c).pos as int, default_position)
                == Some((v, final(c).pos as int)),
            Err(_) => parse_at_position_spec(old(c).toks@, old(c).pos as int, default_position)
                is None && final(c).pos == old(c).pos,
        },
{
    let saved = c.position();
    if c.try_ident_matching("at") {
        let h = match c.try_lp() {
            Some(v) => v,
            None => {
                c.restore(saved);
                return Err(mismatch(saved));
            },
        };
        let v = match c.try_lp() {
            Some(v) => v,
            None => {
                c.restore(saved);
                return Err(mismatch(saved));
            },
        };
        Ok(PositionOrAuto::Position(Position { horizontal: h, vertical: v }))
    } else {
        match default_position {
            DefaultPosition::Center => Ok(PositionOrAuto::Position(Position::center())),
            DefaultPosition::Context => Ok(PositionOrAuto::Auto),
        }
    }
}

impl Circle {
    /// Parse the argument list of `circle()`, through the closing
    /// parenthesis.
    pub fn parse_function_arguments(
        c: &mut TokenCursor,
        default_position: DefaultPosition,
    ) -> (r: Result<Circle, ParseError>)
        requires
            old(c).wf(),
        ensures
            final(c).toks@ == old(c).toks@,
            final(c).wf(),
            match r {
                Ok(v) => parse_circle_args_spec(
                    old(c).toks@,
                    old(c).pos as int,
                    default_position,
                ) == Some((v, final(c).pos as int)),
                Err(_) => parse_circle_args_spec(
                    old(c).toks@,
                    old(c).pos as int,
                    default_position,
                ) is None && final(c).pos == old(c).pos,
            },
    {
        let saved = c.position();
        let radius = match try_shape_radius(c) {
            Some(r) => r,
            None => ShapeRadius::ClosestSide,
        };
        let position = match parse_at_position(c, default_position) {
            Ok(p) => p,
            Err(e) => {
                c.restore(saved);
                return Err(e);
            },
        };
        if c.try_close_paren() {
            Ok(Circle { radius, position })
        } else {
            c.restore(saved);
            Err(mismatch(saved))
        }
    }
}

impl Ellipse {
    /// Parse the argument list of `ellipse()`, through the closing
    /// parenthesis. The semiaxes are taken together or not at all.
    pub fn parse_function_arguments(
        c: &mut TokenCursor,
        default_position: DefaultPosition,
    ) -> (r: Result<Ellipse, ParseError>)
        requires
            old(c).wf(),
        ensures
            final(c).toks@ == old(c).toks@,
            final(c).wf(),
            match r {
                Ok(v) => parse_ellipse_args_spec(
                    old(c).toks@,
                    old(c).pos as int,
                    default_position,
                ) == Some((v, final(c).pos as int)),
                Err(_) => parse_ellipse_args_spec(
                    old(c).toks@,
                    old(c).pos as int,
                    default_position,
                ) is None && final(c).pos == old(c).pos,
            },
    {
        let saved = c.position();
        let (sx, sy) = match try_shape_radius(c) {
            Some(rx) => match try_shape_radius(c) {
                Some(ry) => (rx, ry),
                None => {
                    c.restore(saved);
                    (ShapeRadius::ClosestSide, ShapeRadius::ClosestSide)
                },
            },
            None => (ShapeRadius::ClosestSide, ShapeRadius::ClosestSide),
        };
        let position = match parse_at_position(c, default_position) {
            Ok(p) => p,
            Err(e) => {
                c.restore(saved);
                return Err(e);
            },
        };
        if c.try_close_paren() {
            Ok(Ellipse { semiaxis_x: sx, semiaxis_y: sy, position })
        } else {
            c.restore(saved);
            Err(mismatch(saved))
        }
    }
}

/// Parse the optional leading `<fill-rule> ,`: never for outline
/// shapes, and for filled shapes only when the keyword is followed by a
/// comma; otherwise the attempt is rolled back and the default
/// (`nonzero`) applies. This function cannot fail and, for outline
/// shapes, never moves the cursor.
pub fn parse_fill_rule(c: &mut TokenCursor, shape_type: ShapeType) -> (r: FillRule)
    requires
        old(c).wf(),
    ensures
        final(c).toks@ == old(c).toks@,
        final(c).wf(),
        parse_fill_rule_spec(old(c).toks@, old(c).pos as int, shape_type) == (
            r,
            final(c).pos as int,
        ),
        shape_type matches ShapeType::Outline ==> final(c).pos == old(c).pos && r
            == FillRule::Nonzero,
{
    match shape_type {
        ShapeType::Outline => FillRule::Nonzero,
        ShapeType::Filled => {
            let saved = c.position();
            let rule = if c.try_ident_matching("nonzero") {
                Some(FillRule::Nonzero)
            } else if c.try_ident_matching("evenodd") {
                Some(FillRule::Evenodd)
            } else {
                None
            };
            match rule {
                Some(rule) => {
                    if c.try_comma() {
                        rule
                    } else {
                        c.restore(saved);
                        FillRule::Nonzero
                    }
                },
                None => FillRule::Nonzero,
            }
        },
    }
}

/// Parse the non-empty, comma-separated vertex list of `polygon()`.
pub fn parse_coordinates(c: &mut TokenCursor) -> (r: Result<Vec<PolygonCoord>, ParseError>)
    requires
        old(c).wf(),
    ensures
        final(c).toks@ == old(c).toks@,
        final(c).wf(),
        match r {
            Ok(v) => parse_coords_spec(old(c).toks@, old(c).pos as int) == Some(
                (v@, final(c).pos as int),
            ),
            Err(_) => parse_coords_spec(old(c).toks@, old(c).pos as int) is None && final(c).pos
                == old(c).pos,
        },
    decreases old(c).toks@.len() - old(c).pos,
{
    let saved = c.position();
    let x = match c.try_lp() {
        Some(v) => v,
        None => {
            return Err(mismatch(saved));
        },
    };
    let y = match c.try_lp() {
        Some(v) => v,
        None => {
            c.restore(saved);
            return Err(mismatch(saved));
        },
    };
    let first = PolygonCoord(x, y);
    if c.try_comma() {
        match parse_coordinates(c) {
            Ok(mut rest) => {
                rest.insert(0, first);
                assert(rest@ =~= seq![first].add(rest@.drop_first()));
                Ok(rest)
            },
            Err(e) => {
                c.restore(saved);
                Err(e)
            },
        }
    } else {
        let mut v: Vec<PolygonCoord> = Vec::new();
        v.push(first);
        assert(v@ =~= seq![first]);
        Ok(v)
    }
}

impl Polygon {
    /// Parse the argument list of `polygon()`, through the closing
    /// parenthesis.
    pub fn parse_function_arguments(c: &mut TokenCursor, shape_type: ShapeType) -> (r: Result<
        Polygon,
        ParseError,
    >)
        requires
            old(c).wf(),
        ensures
            final(c).toks@ == old(c).toks@,
            final(c).wf(),
            match r {
                Ok(v) => parse_polygon_args_spec(old(c).toks@, old(c).pos as int, shape_type)
                    == Some((v.fill, v.coordinates@, final(c).pos as int)),
                Err(_) => parse_polygon_args_spec(old(c).toks@, old(c).pos as int, shape_type)
                    is None && final(c).pos == old(c).pos,
            },
    {
        let saved = c.position();
        let fill = parse_fill_rule(c, shape_type);
        let coordinates = match parse_coordinates(c) {
            Ok(v) => v,
            Err(e) => {
                c.restore(saved);
                return Err(e);
            },
        };
        if c.try_close_paren() {
            Ok(Polygon { fill, coordinates })
        } else {
            c.restore(saved);
            Err(mismatch(saved))
        }
    }
}

impl Path {
    /// Parse the argument list of `path()`, through the closing
    /// parenthesis: an optional fill-rule, then non-empty path data.
    pub fn parse_function_arguments(c: &mut TokenCursor, shape_type: ShapeType) -> (r: Result<
        Path,
        ParseError,
    >)
        requires
            old(c).wf(),
        ensures
            final(c).toks@ == old(c).toks@,
            final(c).wf(),
            match r {
                Ok(v) => parse_path_args_spec(old(c).toks@, old(c).pos as int, shape_type)
                    == Some((v.fill, v.path.0@, final(c).pos as int)),
                Err(_) => parse_path_args_spec(old(c).toks@, old(c).pos as int, shape_type)
                    is None && final(c).pos == old(c).pos,
            },
    {
        let saved = c.position();
        let fill = parse_fill_rule(c, shape_type);
        let data = match c.try_string() {
            Some(d) => d,
            None => {
                c.restore(saved);
                return Err(mismatch(saved));
            },
        };
        if data.len() == 0 {
            c.restore(saved);
            return Err(mismatch(saved));
        }
        if c.try_close_paren() {
            Ok(Path { fill, path: SVGPathData(data) })
        } else {
            c.restore(saved);
            Err(mismatch(saved))
        }
    }
}

/// Whether a function name is recognized under the given capability
/// set and feature configuration, executably.
pub fn allowed_function_check(
    name: &Vec<u8>,
    flags: AllowedBasicShapes,
    context: &ParserContext,
) -> (r: bool)
    ensures
        r == allowed_function(name@, flags, *context),
{
    (name_matches(name, "inset") && flags.inset) || (name_matches(name, "circle") && flags.circle)
        || (name_matches(name, "ellipse") && flags.ellipse)
        || (name_matches(name, "polygon") && flags.polygon)
        || (name_matches(name, "path") && flags.path)
        || (name_matches(name, "xywh") && flags.xywh && context.xywh_enabled)
}

impl BasicShape {
    /// Parse a `<basic-shape>` function call. Only function names whose
    /// capability bit is set (and, for `xywh()`, whose feature flag is
    /// enabled) are attempted; any other function name fails with
    /// [`StyleParseErrorKind::UnexpectedFunction`], and the cursor is
    /// restored exactly on every failure.
    pub fn parse(
        c: &mut TokenCursor,
        context: &ParserContext,
        flags: AllowedBasicShapes,
        shape_type: ShapeType,
        default_position: DefaultPosition,
    ) -> (r: Result<BasicShape, ParseError>)
        requires
            old(c).wf(),
        ensures
            final(c).toks@ == old(c).toks@,
            final(c).wf(),
            match r {
                Ok(s) => basic_shape_spec(
                    old(c).toks@,
                    old(c).pos as int,
                    flags,
                    shape_type,
                    default_position,
                    *context,
                ) == Some((s@, final(c).pos as int)),
                Err(e) => basic_shape_spec(
                    old(c).toks@,
                    old(c).pos as int,
                    flags,
                    shape_type,
                    default_position,
                    *context,
                ) is None && final(c).pos == old(c).pos && (match fn_at(
                    old(c).toks@,
                    old(c).pos as int,
                ) {
                    Some(name) => !allowed_function(name, flags, *context) ==> (
                    e.kind matches StyleParseErrorKind::UnexpectedFunction(n) && n@ == name
                        && e.location == old(c).pos),
                    None => e.kind matches StyleParseErrorKind::UnspecifiedError,
                }),
            },
    {
        let start = c.position();
        let name = match c.try_function() {
            Some(n) => n,
            None => {
                return Err(mismatch(start));
            },
        };
        if !allowed_function_check(&name, flags, context) {
            c.restore(start);
            return Err(
                ParseError { kind: StyleParseErrorKind::UnexpectedFunction(name), location: start },
            );
        }
        if name_matches(&name, "inset") {
            match InsetRect::parse_function_arguments(c) {
                Ok(v) => Ok(BasicShape::Rect(BasicShapeRect::Inset(v))),
                Err(e) => {
                    c.restore(start);
                    Err(e)
                },
            }
        } else if name_matches(&name, "circle") {
            match Circle::parse_function_arguments(c, default_position) {
                Ok(v) => Ok(BasicShape::Circle(v)),
                Err(e) => {
                    c.restore(start);
                    Err(e)
                },
            }
        } else if name_matches(&name, "ellipse") {
            match Ellipse::parse_function_arguments(c, default_position) {
                Ok(v) => Ok(BasicShape::Ellipse(v)),
                Err(e) => {
                    c.restore(start);
                    Err(e)
                },
            }
        } else if name_matches(&name, "polygon") {
            match Polygon::parse_function_arguments(c, shape_type) {
                Ok(v) => Ok(BasicShape::Polygon(v)),
                Err(e) => {
                    c.restore(start);
                    Err(e)
                },
            }
        } else if name_matches(&name, "path") {
            match Path::parse_function_arguments(c, shape_type) {
                Ok(v) => Ok(BasicShape::Path(v)),
                Err(e) => {
                    c.restore(start);
                    Err(e)
                },
            }
        } else if name_matches(&name, "xywh") {
            match Xywh::parse_function_arguments(c) {
                Ok(v) => Ok(BasicShape::Rect(BasicShapeRect::Xywh(v))),
                Err(e) => {
                    c.restore(start);
                    Err(e)
                },
            }
        } else {
            c.restore(start);
            Err(mismatch(start))
        }
    }
}

// ---------------------------------------------------------------------
// Shape-or-box disambiguation and the property-level values
// ---------------------------------------------------------------------

/// A reference-box keyword alternative: which identifiers denote one,
/// and which box stands in when a shape appears alone.
pub trait ReferenceBoxKeyword: Sized + Copy {
    /// The box the identifier denotes, if recognized.
    spec fn of_ident(name: Seq<u8>) -> Option<Self>;

    /// The default used when a shape stands without a box.
    spec fn default_spec() -> Self;

    /// Recognize an identifier, executably.
    fn parse_keyword(name: &Vec<u8>) -> (r: Option<Self>)
        ensures
            r == Self::of_ident(name@),
    ;

    /// The default box, executably.
    fn default_box() -> (r: Self)
        ensures
            r == Self::default_spec(),
    ;
}

impl ReferenceBoxKeyword for GeometryBox {
    open spec fn of_ident(name: Seq<u8>) -> Option<GeometryBox> {
        if eq_ignore_case(name, "border-box".spec_bytes()) {
            Some(GeometryBox::BorderBox)
        } else if eq_ignore_case(name, "padding-box".spec_bytes()) {
            Some(GeometryBox::PaddingBox)
        } else if eq_ignore_case(name, "content-box".spec_bytes()) {
            Some(GeometryBox::ContentBox)
        } else if eq_ignore_case(name, "margin-box".spec_bytes()) {
            Some(GeometryBox::MarginBox)
        } else if eq_ignore_case(name, "fill-box".spec_bytes()) {
            Some(GeometryBox::FillBox)
        } else if eq_ignore_case(name, "stroke-box".spec_bytes()) {
            Some(GeometryBox::StrokeBox)
        } else if eq_ignore_case(name, "view-box".spec_bytes()) {
            Some(GeometryBox::ViewBox)
        } else {
            None
        }
    }

    open spec fn default_spec() -> GeometryBox {
        GeometryBox::BorderBox
    }

    fn parse_keyword(name: &Vec<u8>) -> (r: Option<GeometryBox>) {
        if name_matches(name, "border-box") {
            Some(GeometryBox::BorderBox)
        } else if name_matches(name, "padding-box") {
            Some(GeometryBox::PaddingBox)
        } else if name_matches(name, "content-box") {
            Some(GeometryBox::ContentBox)
        } else if name_matches(name, "margin-box") {
            Some(GeometryBox::MarginBox)
        } else if name_matches(name, "fill-box") {
            Some(GeometryBox::FillBox)
        } else if name_matches(name, "stroke-box") {
            Some(GeometryBox::StrokeBox)
        } else if name_matches(name, "view-box") {
            Some(GeometryBox::ViewBox)
        } else {
            None
        }
    }

    fn default_box() -> (r: GeometryBox) {
        GeometryBox::BorderBox
    }
}

impl ReferenceBoxKeyword for ShapeBox {
    open spec fn of_ident(name: Seq<u8>) -> Option<ShapeBox> {
        if eq_ignore_case(name, "margin-box".spec_bytes()) {
            Some(ShapeBox::MarginBox)
        } else if eq_ignore_case(name, "border-box".spec_bytes()) {
            Some(ShapeBox::BorderBox)
        } else if eq_ignore_case(name, "padding-box".spec_bytes()) {
            Some(ShapeBox::PaddingBox)
        } else if eq_ignore_case(name, "content-box".spec_bytes()) {
            Some(ShapeBox::ContentBox)
        } else {
            None
        }
    }

    open spec fn default_spec() -> ShapeBox {
        ShapeBox::MarginBox
    }

    fn parse_keyword(name: &Vec<u8>) -> (r: Option<ShapeBox>) {
        if name_matches(name, "margin-box") {
            Some(ShapeBox::MarginBox)
        } else if name_matches(name, "border-box") {
            Some(ShapeBox::BorderBox)
        } else if name_matches(name, "padding-box") {
            Some(ShapeBox::PaddingBox)
        } else if name_matches(name, "content-box") {
            Some(ShapeBox::ContentBox)
        } else {
            None
        }
    }

    fn default_box() -> (r: ShapeBox) {
        ShapeBox::MarginBox
    }
}

/// The reference box denoted at `pos`, if any.
pub open spec fn box_at<B: ReferenceBoxKeyword>(toks: Seq<Token>, pos: int) -> Option<B> {
    if 0 <= pos < toks.len() {
        match toks[pos] {
            Token::Ident(name) => B::of_ident(name@),
            _ => None,
        }
    } else {
        None
    }
}

/// Consume the next token if it is a recognized reference-box keyword.
fn try_reference_box<B: ReferenceBoxKeyword>(c: &mut TokenCursor) -> (r: Option<B>)
    requires
        old(c).wf(),
    ensures
        final(c).toks@ == old(c).toks@,
        final(c).wf(),
        match r {
            Some(b) => box_at::<B>(old(c).toks@, old(c).pos as int) == Some(b) && final(c).pos
                == old(c).pos + 1,
            None => box_at::<B>(old(c).toks@, old(c).pos as int) is None && final(c).pos == old(
                c,
            ).pos,
        },
{
    let saved = c.position();
    match c.try_ident_any() {
        Some(name) => match B::parse_keyword(&name) {
            Some(b) => Some(b),
            None => {
                c.restore(saved);
                None
            },
        },
        None => None,
    }
}

/// The model of an optional, boxed shape.
pub open spec fn opt_shape_model(s: Option<Box<BasicShape>>) -> Option<ShapeModel> {
    match s {
        Some(b) => Some((*b)@),
        None => None,
    }
}

/// An optional shape and an optional reference box, in either order,
/// each at most once: the disambiguation grammar shared by `clip-path`
/// and `shape-outside`. Fails only when neither is present.
pub open spec fn shape_or_box_spec<B: ReferenceBoxKeyword>(
    toks: Seq<Token>,
    pos: int,
    flags: AllowedBasicShapes,
    context: ParserContext,
) -> Option<(Option<ShapeModel>, Option<B>, int)> {
    match basic_shape_spec(
        toks,
        pos,
        flags,
        ShapeType::Filled,
        DefaultPosition::Center,
        context,
    ) {
        Some((s, p1)) => match box_at::<B>(toks, p1) {
            Some(b) => Some((Some(s), Some(b), p1 + 1)),
            None => Some((Some(s), None, p1)),
        },
        None => match box_at::<B>(toks, pos) {
            Some(b) => match basic_shape_spec(
                toks,
                pos + 1,
                flags,
                ShapeType::Filled,
                DefaultPosition::Center,
                context,
            ) {
                Some((s, p2)) => Some((Some(s), Some(b), p2)),
                None => Some((None, Some(b), pos + 1)),
            },
            None => None,
        },
    }
}

/// Parse an optional shape and an optional reference box in either
/// order, each at most once. A failed shape or box attempt is
/// invisible: the cursor is exactly where it was before the attempt.
pub fn parse_shape_or_box<B: ReferenceBoxKeyword>(
    c: &mut TokenCursor,
    context: &ParserContext,
    flags: AllowedBasicShapes,
) -> (r: Result<(Option<Box<BasicShape>>, Option<B>), ParseError>)
    requires
        old(c).wf(),
    ensures
        final(c).toks@ == old(c).toks@,
        final(c).wf(),
        match r {
            Ok(sb) => shape_or_box_spec::<B>(old(c).toks@, old(c).pos as int, flags, *context)
                == Some((opt_shape_model(sb.0), sb.1, final(c).pos as int)),
            Err(_) => shape_or_box_spec::<B>(old(c).toks@, old(c).pos as int, flags, *context)
                is None && final(c).pos == old(c).pos,
        },
{
    match BasicShape::parse(c, context, flags, ShapeType::Filled, DefaultPosition::Center) {
        Ok(s) => {
            let bx = try_reference_box::<B>(c);
            Ok((Some(Box::new(s)), bx))
        },
        Err(_) => {
            match try_reference_box::<B>(c) {
                Some(b) => {
                    match BasicShape::parse(
                        c,
                        context,
                        flags,
                        ShapeType::Filled,
                        DefaultPosition::Center,
                    ) {
                        Ok(s) => Ok((Some(Box::new(s)), Some(b))),
                        Err(_) => Ok((None, Some(b))),
                    }
                },
                None => Err(mismatch(c.position())),
            }
        },
    }
}

/// A `clip-path` value: `none`, a URL, or a shape and/or geometry box.
pub open spec fn clip_path_spec(toks: Seq<Token>, pos: int, context: ParserContext) -> Option<
    (ClipPathModel, int),
> {
    if ident_at(toks, pos, "none".spec_bytes()) {
        Some((ClipPathModel::NoneKeyword, pos + 1))
    } else {
        match url_at(toks, pos) {
            Some(u) => Some((ClipPathModel::Url(u), pos + 1)),
            None => match shape_or_box_spec::<GeometryBox>(
                toks,
                pos,
                AllowedBasicShapes::all_spec(),
                context,
            ) {
                Some((Some(s), ob, p)) => Some(
                    (
                        ClipPathModel::Shape(
                            s,
                            match ob {
                                Some(b) => b,
                                None => GeometryBox::BorderBox,
                            },
                        ),
                        p,
                    ),
                ),
                Some((None, Some(b), p)) => Some((ClipPathModel::ReferenceBox(b), p)),
                Some((None, None, _)) => None,
                None => None,
            },
        }
    }
}

impl ClipPath {
    /// Parse a `clip-path` value: the `none` keyword, a URL, or the
    /// shape-or-box grammar over every shape function.
    pub fn parse(c: &mut TokenCursor, context: &ParserContext) -> (r: Result<
        ClipPath,
        ParseError,
    >)
        requires
            old(c).wf(),
        ensures
            final(c).toks@ == old(c).toks@,
            final(c).wf(),
            match r {
                Ok(v) => clip_path_spec(old(c).toks@, old(c).pos as int, *context) == Some(
                    (v@, final(c).pos as int),
                ),
                Err(_) => clip_path_spec(old(c).toks@, old(c).pos as int, *context) is None
                    && final(c).pos == old(c).pos,
            },
    {
        if c.try_ident_matching("none") {
            return Ok(ClipPath::NoneKeyword);
        }
        match c.try_url() {
            Some(u) => Ok(ClipPath::Url(SpecifiedUrl(u))),
            None => {
                match parse_shape_or_box::<GeometryBox>(c, context, AllowedBasicShapes::all()) {
                    Ok((Some(shape), bx)) => {
                        let b = match bx {
                            Some(b) => b,
                            None => GeometryBox::BorderBox,
                        };
                        Ok(ClipPath::Shape(shape, b))
                    },
                    Ok((None, Some(b))) => Ok(ClipPath::ReferenceBox(b)),
                    Ok((None, None)) => {
                        proof {
                            assert(false);
                        }
                        Err(mismatch(c.position()))
                    },
                    Err(e) => Err(e),
                }
            },
        }
    }
}

/// A `shape-outside` value: `none`, an image, or a shape and/or shape
/// box.
pub open spec fn shape_outside_spec(toks: Seq<Token>, pos: int, context: ParserContext) -> Option<
    (ShapeOutsideModel, int),
> {
    if ident_at(toks, pos, "none".spec_bytes()) {
        Some((ShapeOutsideModel::NoneKeyword, pos + 1))
    } else {
        match url_at(toks, pos) {
            Some(u) => Some((ShapeOutsideModel::Image(u), pos + 1)),
            None => match shape_or_box_spec::<ShapeBox>(
                toks,
                pos,
                AllowedBasicShapes::shape_outside_spec(),
                context,
            ) {
                Some((Some(s), ob, p)) => Some(
                    (
                        ShapeOutsideModel::Shape(
                            s,
                            match ob {
                                Some(b) => b,
                                None => ShapeBox::MarginBox,
                            },
                        ),
                        p,
                    ),
                ),
                Some((None, Some(b), p)) => Some((ShapeOutsideModel::ReferenceBox(b), p)),
                Some((None, None, _)) => None,
                None => None,
            },
        }
    }
}

impl ShapeOutside {
    /// Parse a `shape-outside` value: the `none` keyword, an image, or
    /// the shape-or-box grammar over the shape-outside subset.
    pub fn parse(c: &mut TokenCursor, context: &ParserContext) -> (r: Result<
        ShapeOutside,
        ParseError,
    >)
        requires
            old(c).wf(),
        ensures
            final(c).toks@ == old(c).toks@,
            final(c).wf(),
            match r {
                Ok(v) => shape_outside_spec(old(c).toks@, old(c).pos as int, *context) == Some(
                    (v@, final(c).pos as int),
                ),
                Err(_) => shape_outside_spec(old(c).toks@, old(c).pos as int, *context) is None
                    && final(c).pos == old(c).pos,
            },
    {
        if c.try_ident_matching("none") {
            return Ok(ShapeOutside::NoneKeyword);
        }
        match c.try_url() {
            Some(u) => Ok(ShapeOutside::Image(Image(u))),
            None => {
                match parse_shape_or_box::<ShapeBox>(
                    c,
                    context,
                    AllowedBasicShapes::shape_outside(),
                ) {
                    Ok((Some(shape), bx)) => {
                        let b = match bx {
                            Some(b) => b,
                            None => ShapeBox::MarginBox,
                        };
                        Ok(ShapeOutside::Shape(shape, b))
                    },
                    Ok((None, Some(b))) => Ok(ShapeOutside::ReferenceBox(b)),
                    Ok((None, None)) => {
                        proof {
                            assert(false);
                        }
                        Err(mismatch(c.position()))
                    },
                    Err(e) => Err(e),
                }
            },
        }
    }
}

/// The whole of a single named shape function: the right opener, then
/// its argument grammar.
pub open spec fn named_fn_spec(toks: Seq<Token>, pos: int, kw: Seq<u8>) -> bool {
    fn_at(toks, pos) matches Some(name) && eq_ignore_case(name, kw)
}

impl InsetRect {
    /// Parse a full `inset(...)` function.
    pub fn parse(c: &mut TokenCursor) -> (r: Result<InsetRect, ParseError>)
        requires
            old(c).wf(),
        ensures
            final(c).toks@ == old(c).toks@,
            final(c).wf(),
            match r {
                Ok(v) => named_fn_spec(old(c).toks@, old(c).pos as int, "inset".spec_bytes())
                    && parse_inset_args_spec(old(c).toks@, old(c).pos as int + 1) == Some(
                    (v, final(c).pos as int),
                ),
                Err(_) => final(c).pos == old(c).pos && !(named_fn_spec(
                    old(c).toks@,
                    old(c).pos as int,
                    "inset".spec_bytes(),
                ) && parse_inset_args_spec(old(c).toks@, old(c).pos as int + 1) is Some),
            },
    {
        let start = c.position();
        let name = match c.try_function() {
            Some(n) => n,
            None => {
                return Err(mismatch(start));
            },
        };
        if !name_matches(&name, "inset") {
            c.restore(start);
            return Err(mismatch(start));
        }
        match InsetRect::parse_function_arguments(c) {
            Ok(v) => Ok(v),
            Err(e) => {
                c.restore(start);
                Err(e)
            },
        }
    }
}

impl Circle {
    /// Parse a full `circle(...)` function, with the standard `center`
    /// default position.
    pub fn parse(c: &mut TokenCursor) -> (r: Result<Circle, ParseError>)
        requires
            old(c).wf(),
        ensures
            final(c).toks@ == old(c).toks@,
            final(c).wf(),
            match r {
                Ok(v) => named_fn_spec(old(c).toks@, old(c).pos as int, "circle".spec_bytes())
                    && parse_circle_args_spec(
                    old(c).toks@,
                    old(c).pos as int + 1,
                    DefaultPosition::Center,
                ) == Some((v, final(c).pos as int)),
                Err(_) => final(c).pos == old(c).pos && !(named_fn_spec(
                    old(c).toks@,
                    old(c).pos as int,
                    "circle".spec_bytes(),
                ) && parse_circle_args_spec(
                    old(c).toks@,
                    old(c).pos as int + 1,
                    DefaultPosition::Center,
                ) is Some),
            },
    {
        let start = c.position();
        let name = match c.try_function() {
            Some(n) => n,
            None => {
                return Err(mismatch(start));
            },
        };
        if !name_matches(&name, "circle") {
            c.restore(start);
            return Err(mismatch(start));
        }
        match Circle::parse_function_arguments(c, DefaultPosition::Center) {
            Ok(v) => Ok(v),
            Err(e) => {
                c.restore(start);
                Err(e)
            },
        }
    }
}

impl Ellipse {
    /// Parse a full `ellipse(...)` function, with the standard `center`
    /// default position.
    pub fn parse(c: &mut TokenCursor) -> (r: Result<Ellipse, ParseError>)
        requires
            old(c).wf(),
        ensures
            final(c).toks@ == old(c).toks@,
            final(c).wf(),
            match r {
                Ok(v) => named_fn_spec(old(c).toks@, old(c).pos as int, "ellipse".spec_bytes())
                    && parse_ellipse_args_spec(
                    old(c).toks@,
                    old(c).pos as int + 1,
                    DefaultPosition::Center,
                ) == Some((v, final(c).pos as int)),
                Err(_) => final(c).pos == old(c).pos && !(named_fn_spec(
                    old(c).toks@,
                    old(c).pos as int,
                    "ellipse".spec_bytes(),
                ) && parse_ellipse_args_spec(
                    old(c).toks@,
                    old(c).pos as int + 1,
                    DefaultPosition::Center,
                ) is Some),
            },
    {
        let start = c.position();
        let name = match c.try_function() {
            Some(n) => n,
            None => {
                return Err(mismatch(start));
            },
        };
        if !name_matches(&name, "ellipse") {
            c.restore(start);
            return Err(mismatch(start));
        }
        match Ellipse::parse_function_arguments(c, DefaultPosition::Center) {
            Ok(v) => Ok(v),
            Err(e) => {
                c.restore(start);
                Err(e)
            },
        }
    }
}

impl Polygon {
    /// Parse a full `polygon(...)` function, as a filled shape.
    pub fn parse(c: &mut TokenCursor) -> (r: Result<Polygon, ParseError>)
        requires
            old(c).wf(),
        ensures
            final(c).toks@ == old(c).toks@,
            final(c).wf(),
            match r {
                Ok(v) => named_fn_spec(old(c).toks@, old(c).pos as int, "polygon".spec_bytes())
                    && parse_polygon_args_spec(
                    old(c).toks@,
                    old(c).pos as int + 1,
                    ShapeType::Filled,
                ) == Some((v.fill, v.coordinates@, final(c).pos as int)),
                Err(_) => final(c).pos == old(c).pos && !(named_fn_spec(
                    old(c).toks@,
                    old(c).pos as int,
                    "polygon".spec_bytes(),
                ) && parse_polygon_args_spec(
                    old(c).toks@,
                    old(c).pos as int + 1,
                    ShapeType::Filled,
                ) is Some),
            },
    {
        let start = c.position();
        let name = match c.try_function() {
            Some(n) => n,
            None => {
                return Err(mismatch(start));
            },
        };
        if !name_matches(&name, "polygon") {
            c.restore(start);
            return Err(mismatch(start));
        }
        match Polygon::parse_function_arguments(c, ShapeType::Filled) {
            Ok(v) => Ok(v),
            Err(e) => {
                c.restore(start);
                Err(e)
            },
        }
    }
}

// ---------------------------------------------------------------------
// Laws
// ---------------------------------------------------------------------

/// Capability gating: the shape grammar succeeds exactly when the
/// input opens a function whose capability bit is present (for
/// `xywh()`, together with its runtime feature flag) and whose
/// argument grammar matches. A name whose bit is absent is never
/// attempted, whatever its arguments.
pub proof fn lemma_capability_gating(
    toks: Seq<Token>,
    pos: int,
    flags: AllowedBasicShapes,
    shape_type: ShapeType,
    dp: DefaultPosition,
    context: ParserContext,
)
    ensures
        basic_shape_spec(toks, pos, flags, shape_type, dp, context) is Some <==> (fn_at(toks, pos)
            matches Some(name) && allowed_function(name, flags, context) && shape_args_spec(
            name,
            toks,
            pos + 1,
            shape_type,
            dp,
        ) is Some),
{
}

/// Order independence of the disambiguation grammar: wherever a shape
/// and a reference-box keyword are both present, the same pair comes
/// out whether the shape stands before the box or after it. (A box
/// keyword is an identifier, so the shape grammar never consumes it.)
pub proof fn lemma_shape_or_box_order_independence<B: ReferenceBoxKeyword>(
    toks1: Seq<Token>,
    pos1: int,
    toks2: Seq<Token>,
    pos2: int,
    flags: AllowedBasicShapes,
    context: ParserContext,
    s: ShapeModel,
    b: B,
    p1: int,
    p2: int,
)
    requires
        basic_shape_spec(
            toks1,
            pos1,
            flags,
            ShapeType::Filled,
            DefaultPosition::Center,
            context,
        ) == Some((s, p1)),
        box_at::<B>(toks1, p1) == Some(b),
        box_at::<B>(toks2, pos2) == Some(b),
        basic_shape_spec(
            toks2,
            pos2 + 1,
            flags,
            ShapeType::Filled,
            DefaultPosition::Center,
            context,
        ) == Some((s, p2)),
    ensures
        shape_or_box_spec::<B>(toks1, pos1, flags, context) == Some((Some(s), Some(b), p1 + 1)),
        shape_or_box_spec::<B>(toks2, pos2, flags, context) == Some((Some(s), Some(b), p2)),
{
    assert(toks2[pos2] matches Token::Ident(_));
    assert(fn_at(toks2, pos2) is None);
}

// ---------------------------------------------------------------------
// Structural equality for the vector- and box-carrying types
// ---------------------------------------------------------------------

/// Elementwise equality of two vertex lists.
fn coords_eq(a: &Vec<PolygonCoord>, b: &Vec<PolygonCoord>) -> (r: bool)
    ensures
        r == (a@ == b@),
{
    if a.len() != b.len() {
        return false;
    }
    let mut i: usize = 0;
    while i < a.len()
        invariant
            i <= a@.len(),
            a@.len() == b@.len(),
            forall|j: int| 0 <= j < i ==> a@[j] == b@[j],
        decreases a@.len() - i,
    {
        if a[i] != b[i] {
            return false;
        }
        i += 1;
    }
    assert(a@ =~= b@);
    true
}

impl PartialEq for SVGPathData {
    fn eq(&self, other: &SVGPathData) -> (r: bool) {
        bytes_eq(self.0.as_slice(), other.0.as_slice())
    }
}

impl vstd::std_specs::cmp::PartialEqSpecImpl for SVGPathData {
    open spec fn obeys_eq_spec() -> bool {
        true
    }

    open spec fn eq_spec(&self, other: &SVGPathData) -> bool {
        self.0@ == other.0@
    }
}

impl PartialEq for Polygon {
    fn eq(&self, other: &Polygon) -> (r: bool) {
        self.fill == other.fill && coords_eq(&self.coordinates, &other.coordinates)
    }
}

impl vstd::std_specs::cmp::PartialEqSpecImpl for Polygon {
    open spec fn obeys_eq_spec() -> bool {
        true
    }

    open spec fn eq_spec(&self, other: &Polygon) -> bool {
        self.fill == other.fill && self.coordinates@ == other.coordinates@
    }
}

impl PartialEq for Path {
    fn eq(&self, other: &Path) -> (r: bool) {
        self.fill == other.fill && self.path == other.path
    }
}

impl vstd::std_specs::cmp::PartialEqSpecImpl for Path {
    open spec fn obeys_eq_spec() -> bool {
        true
    }

    open spec fn eq_spec(&self, other: &Path) -> bool {
        self.fill == other.fill && self.path.0@ == other.path.0@
    }
}

impl PartialEq for BasicShape {
    fn eq(&self, other: &BasicShape) -> (r: bool) {
        match (self, other) {
            (BasicShape::Rect(a), BasicShape::Rect(b)) => a == b,
            (BasicShape::Circle(a), BasicShape::Circle(b)) => a == b,
            (BasicShape::Ellipse(a), BasicShape::Ellipse(b)) => a == b,
            (BasicShape::Polygon(a), BasicShape::Polygon(b)) => a == b,
            (BasicShape::Path(a), BasicShape::Path(b)) => a == b,
            _ => false,
        }
    }
}

impl vstd::std_specs::cmp::PartialEqSpecImpl for BasicShape {
    open spec fn obeys_eq_spec() -> bool {
        true
    }

    open spec fn eq_spec(&self, other: &BasicShape) -> bool {
        self@ == other@
    }
}

impl PartialEq for SpecifiedUrl {
    fn eq(&self, other: &SpecifiedUrl) -> (r: bool) {
        bytes_eq(self.0.as_slice(), other.0.as_slice())
    }
}

impl vstd::std_specs::cmp::PartialEqSpecImpl for SpecifiedUrl {
    open spec fn obeys_eq_spec() -> bool {
        true
    }

    open spec fn eq_spec(&self, other: &SpecifiedUrl) -> bool {
        self.0@ == other.0@
    }
}

impl PartialEq for Image {
    fn eq(&self, other: &Image) -> (r: bool) {
        bytes_eq(self.0.as_slice(), other.0.as_slice())
    }
}

impl vstd::std_specs::cmp::PartialEqSpecImpl for Image {
    open spec fn obeys_eq_spec() -> bool {
        true
    }

    open spec fn eq_spec(&self, other: &Image) -> bool {
        self.0@ == other.0@
    }
}

impl PartialEq for ClipPath {
    fn eq(&self, other: &ClipPath) -> (r: bool) {
        match (self, other) {
            (ClipPath::NoneKeyword, ClipPath::NoneKeyword) => true,
            (ClipPath::Url(a), ClipPath::Url(b)) => a == b,
            (ClipPath::Shape(s1, b1), ClipPath::Shape(s2, b2)) => **s1 == **s2 && b1 == b2,
            (ClipPath::ReferenceBox(a), ClipPath::ReferenceBox(b)) => a == b,
            _ => false,
        }
    }
}

impl vstd::std_specs::cmp::PartialEqSpecImpl for ClipPath {
    open spec fn obeys_eq_spec() -> bool {
        true
    }

    open spec fn eq_spec(&self, other: &ClipPath) -> bool {
        self@ == other@
    }
}

impl PartialEq for ShapeOutside {
    fn eq(&self, other: &ShapeOutside) -> (r: bool) {
        match (self, other) {
            (ShapeOutside::NoneKeyword, ShapeOutside::NoneKeyword) => true,
            (ShapeOutside::Image(a), ShapeOutside::Image(b)) => a == b,
            (ShapeOutside::Shape(s1, b1), ShapeOutside::Shape(s2, b2)) => **s1 == **s2 && b1
                == b2,
            (ShapeOutside::ReferenceBox(a), ShapeOutside::ReferenceBox(b)) => a == b,
            _ => false,
        }
    }
}

impl vstd::std_specs::cmp::PartialEqSpecImpl for ShapeOutside {
    open spec fn obeys_eq_spec() -> bool {
        true
    }

    open spec fn eq_spec(&self, other: &ShapeOutside) -> bool {
        self@ == other@
    }
}

} // verus!
