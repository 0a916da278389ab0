//! Resolution of specified rectangle shapes to the canonical computed
//! rectangle, and the deliberately one-way conversion back.
//!
//! Both `inset()` and `xywh()` lower to the same computed form; an
//! `xywh(x y w h)` becomes the rectangle
//! `top = y, right = 100% - x - w, bottom = 100% - y - h, left = x`,
//! with the subtraction kept symbolic in the linear length-percentage
//! form rather than forced to a number.

use vstd::prelude::*;
use crate::basic_shape::{
    AllowedBasicShapes, BasicShapeRect, DefaultPosition, InsetRect, ParserContext, ShapeModel,
    ShapeType, Xywh, basic_shape_spec, parse_border_radius_spec,
    parse_inset_args_spec, parse_rect_spec, parse_round_spec, parse_xywh_args_spec,
};
use crate::tokens::{Token, lp_of_tok, nn_lp_of_tok};
use crate::values::{
    BorderRadius, ComputedBorderRadius, ComputedInsetRect, ComputedLengthPercentage,
    LengthPercentage, NonNegativeLengthPercentage, Rect,
};

verus! {

/// The computed form of one specified `<length-percentage>`.
pub open spec fn computed_lp_spec(lp: LengthPercentage) -> ComputedLengthPercentage {
    ComputedLengthPercentage { px: lp.px_part() as i64, pct: lp.pct_part() as i64 }
}

/// The computed form of a specified corner rounding.
pub open spec fn computed_radius_spec(b: BorderRadius) -> ComputedBorderRadius {
    ComputedBorderRadius {
        top_left: computed_lp_spec(b.top_left.0),
        top_right: computed_lp_spec(b.top_right.0),
        bottom_right: computed_lp_spec(b.bottom_right.0),
        bottom_left: computed_lp_spec(b.bottom_left.0),
    }
}

/// The symbolic `100% - a - b`, over computed values.
pub open spec fn hundred_minus_spec(
    a: ComputedLengthPercentage,
    b: ComputedLengthPercentage,
) -> ComputedLengthPercentage {
    ComputedLengthPercentage {
        px: (-(a.px + b.px)) as i64,
        pct: (100 - (a.pct + b.pct)) as i64,
    }
}

/// The computed rectangle an `inset()` denotes: offsets resolved in
/// edge order, rounding resolved per corner.
pub open spec fn computed_inset_spec(i: InsetRect) -> ComputedInsetRect {
    ComputedInsetRect {
        rect: Rect {
            top: computed_lp_spec(i.rect.top),
            right: computed_lp_spec(i.rect.right),
            bottom: computed_lp_spec(i.rect.bottom),
            left: computed_lp_spec(i.rect.left),
        },
        round: computed_radius_spec(i.round),
    }
}

/// The computed rectangle an `xywh()` denotes:
/// `top = y, right = 100% - x - w, bottom = 100% - y - h, left = x`.
pub open spec fn computed_xywh_spec(w: Xywh) -> ComputedInsetRect {
    ComputedInsetRect {
        rect: Rect {
            top: computed_lp_spec(w.y),
            right: hundred_minus_spec(computed_lp_spec(w.x), computed_lp_spec(w.width.0)),
            bottom: hundred_minus_spec(computed_lp_spec(w.y), computed_lp_spec(w.height.0)),
            left: computed_lp_spec(w.x),
        },
        round: computed_radius_spec(w.round),
    }
}

/// The computed rectangle of either rectangle-like shape.
pub open spec fn computed_shape_rect_spec(s: BasicShapeRect) -> ComputedInsetRect {
    match s {
        BasicShapeRect::Inset(i) => computed_inset_spec(i),
        BasicShapeRect::Xywh(w) => computed_xywh_spec(w),
    }
}

impl InsetRect {
    /// All carried values are well-formed.
    pub open spec fn wf(self) -> bool {
        self.rect.top.wf() && self.rect.right.wf() && self.rect.bottom.wf()
            && self.rect.left.wf() && self.round.wf()
    }

    /// Resolve to the canonical computed rectangle.
    pub fn to_computed_value(&self) -> (r: ComputedInsetRect)
        requires
            self.wf(),
        ensures
            r == computed_inset_spec(*self),
    {
        ComputedInsetRect {
            rect: Rect {
                top: self.rect.top.to_computed_value(),
                right: self.rect.right.to_computed_value(),
                bottom: self.rect.bottom.to_computed_value(),
                left: self.rect.left.to_computed_value(),
            },
            round: self.round.to_computed_value(),
        }
    }

    /// The specified `inset()` a computed rectangle maps back to.
    pub open spec fn from_computed_spec(c: ComputedInsetRect) -> InsetRect {
        InsetRect {
            rect: Rect {
                top: LengthPercentage::from_computed_spec(c.rect.top),
                right: LengthPercentage::from_computed_spec(c.rect.right),
                bottom: LengthPercentage::from_computed_spec(c.rect.bottom),
                left: LengthPercentage::from_computed_spec(c.rect.left),
            },
            round: BorderRadius {
                top_left: NonNegativeLengthPercentage(
                    LengthPercentage::from_computed_spec(c.round.top_left),
                ),
                top_right: NonNegativeLengthPercentage(
                    LengthPercentage::from_computed_spec(c.round.top_right),
                ),
                bottom_right: NonNegativeLengthPercentage(
                    LengthPercentage::from_computed_spec(c.round.bottom_right),
                ),
                bottom_left: NonNegativeLengthPercentage(
                    LengthPercentage::from_computed_spec(c.round.bottom_left),
                ),
            },
        }
    }

    /// Reconstruct a specified `inset()` from a computed rectangle.
    pub fn from_computed_value(c: &ComputedInsetRect) -> (r: InsetRect)
        ensures
            r == InsetRect::from_computed_spec(*c),
    {
        InsetRect {
            rect: Rect {
                top: LengthPercentage::from_computed_value(&c.rect.top),
                right: LengthPercentage::from_computed_value(&c.rect.right),
                bottom: LengthPercentage::from_computed_value(&c.rect.bottom),
                left: LengthPercentage::from_computed_value(&c.rect.left),
            },
            round: BorderRadius {
                top_left: NonNegativeLengthPercentage(
                    LengthPercentage::from_computed_value(&c.round.top_left),
                ),
                top_right: NonNegativeLengthPercentage(
                    LengthPercentage::from_computed_value(&c.round.top_right),
                ),
                bottom_right: NonNegativeLengthPercentage(
                    LengthPercentage::from_computed_value(&c.round.bottom_right),
                ),
                bottom_left: NonNegativeLengthPercentage(
                    LengthPercentage::from_computed_value(&c.round.bottom_left),
                ),
            },
        }
    }
}

impl BorderRadius {
    /// Resolve each corner.
    pub fn to_computed_value(&self) -> (r: ComputedBorderRadius)
        requires
            self.wf(),
        ensures
            r == computed_radius_spec(*self),
    {
        ComputedBorderRadius {
            top_left: self.top_left.0.to_computed_value(),
            top_right: self.top_right.0.to_computed_value(),
            bottom_right: self.bottom_right.0.to_computed_value(),
            bottom_left: self.bottom_left.0.to_computed_value(),
        }
    }
}

impl Xywh {
    /// All carried values are well-formed.
    pub open spec fn wf(self) -> bool {
        self.x.wf() && self.y.wf() && self.width.wf() && self.height.wf() && self.round.wf()
    }
}

impl BasicShapeRect {
    /// All carried values are well-formed.
    pub open spec fn wf(self) -> bool {
        match self {
            BasicShapeRect::Inset(i) => i.wf(),
            BasicShapeRect::Xywh(w) => w.wf(),
        }
    }

    /// Resolve either rectangle-like shape to the single canonical
    /// computed rectangle. An `xywh(x y w h)` becomes the inset
    /// rectangle `top = y, right = 100% - x - w, bottom = 100% - y - h,
    /// left = x`, with the subtractions kept in symbolic linear form.
    pub fn to_computed_value(&self) -> (r: ComputedInsetRect)
        requires
            self.wf(),
        ensures
            r == computed_shape_rect_spec(*self),
    {
        match self {
            BasicShapeRect::Inset(inset) => inset.to_computed_value(),
            BasicShapeRect::Xywh(xywh) => {
                let x = xywh.x.to_computed_value();
                let y = xywh.y.to_computed_value();
                let w = xywh.width.0.to_computed_value();
                let h = xywh.height.0.to_computed_value();
                let right = LengthPercentage::hundred_percent_minus_pair(&x, &w);
                let bottom = LengthPercentage::hundred_percent_minus_pair(&y, &h);
                ComputedInsetRect {
                    rect: Rect { top: y, right, bottom, left: x },
                    round: xywh.round.to_computed_value(),
                }
            },
        }
    }

    /// Convert a computed rectangle back to a specified shape. The
    /// result is always the `inset()` form, never `xywh()`: the
    /// canonicalization is deliberately one-way, and the original
    /// function-name choice is not recoverable.
    pub fn from_computed_value(c: &ComputedInsetRect) -> (r: BasicShapeRect)
        ensures
            r matches BasicShapeRect::Inset(i) && i == InsetRect::from_computed_spec(*c),
    {
        BasicShapeRect::Inset(InsetRect::from_computed_value(c))
    }
}

/// The `inset()` whose offsets spell out the `xywh()` rewrite at the
/// specified level: `inset(y calc(100% - x - w) calc(100% - y - h) x)`
/// with the same rounding.
pub open spec fn equivalent_inset_spec(w: Xywh) -> InsetRect {
    InsetRect {
        rect: Rect {
            top: w.y,
            right: LengthPercentage::Calc {
                px: (-(w.x.px_part() + w.width.0.px_part())) as i64,
                pct: (100 - (w.x.pct_part() + w.width.0.pct_part())) as i64,
            },
            bottom: LengthPercentage::Calc {
                px: (-(w.y.px_part() + w.height.0.px_part())) as i64,
                pct: (100 - (w.y.pct_part() + w.height.0.pct_part())) as i64,
            },
            left: w.x,
        },
        round: w.round,
    }
}

/// The computed form is canonical: an `xywh()` and the `inset()` that
/// denotes the same geometry resolve to structurally equal computed
/// rectangles.
pub proof fn lemma_xywh_inset_canonical(w: Xywh)
    requires
        w.wf(),
    ensures
        computed_xywh_spec(w) == computed_inset_spec(equivalent_inset_spec(w)),
{
}

/// Every length-percentage a token denotes is well-formed and never a
/// `calc()`.
pub proof fn lemma_lp_of_tok_wf(t: Token)
    ensures
        lp_of_tok(t) matches Some(v) ==> v.wf() && !(v matches LengthPercentage::Calc { .. }),
        nn_lp_of_tok(t) matches Some(v) ==> v.wf() && !(v.0 matches LengthPercentage::Calc { .. }),
{
}

/// A parsed corner rounding is well-formed.
pub proof fn lemma_parsed_radius_wf(toks: Seq<Token>, pos: int)
    ensures
        parse_border_radius_spec(toks, pos) matches Some((b, _)) ==> b.wf(),
        parse_round_spec(toks, pos) matches Some((b, _)) ==> b.wf(),
{
    if 0 <= pos < toks.len() {
        lemma_lp_of_tok_wf(toks[pos]);
    }
    if 0 <= pos + 1 < toks.len() {
        lemma_lp_of_tok_wf(toks[pos + 1]);
    }
    if 0 <= pos + 2 < toks.len() {
        lemma_lp_of_tok_wf(toks[pos + 2]);
    }
    if 0 <= pos + 3 < toks.len() {
        lemma_lp_of_tok_wf(toks[pos + 3]);
    }
    lemma_parsed_radius_wf_at(toks, pos + 1);
}

/// Helper: well-formedness of the radius grammar alone.
proof fn lemma_parsed_radius_wf_at(toks: Seq<Token>, pos: int)
    ensures
        parse_border_radius_spec(toks, pos) matches Some((b, _)) ==> b.wf(),
{
    if 0 <= pos < toks.len() {
        lemma_lp_of_tok_wf(toks[pos]);
    }
    if 0 <= pos + 1 < toks.len() {
        lemma_lp_of_tok_wf(toks[pos + 1]);
    }
    if 0 <= pos + 2 < toks.len() {
        lemma_lp_of_tok_wf(toks[pos + 2]);
    }
    if 0 <= pos + 3 < toks.len() {
        lemma_lp_of_tok_wf(toks[pos + 3]);
    }
}

/// Every shape the rectangle grammars produce is well-formed, so the
/// computed-value resolver applies to every parse result.
pub proof fn lemma_parsed_rects_wf(toks: Seq<Token>, pos: int)
    ensures
        parse_inset_args_spec(toks, pos) matches Some((i, _)) ==> i.wf(),
        parse_xywh_args_spec(toks, pos) matches Some((w, _)) ==> w.wf(),
{
    if 0 <= pos < toks.len() {
        lemma_lp_of_tok_wf(toks[pos]);
    }
    if 0 <= pos + 1 < toks.len() {
        lemma_lp_of_tok_wf(toks[pos + 1]);
    }
    if 0 <= pos + 2 < toks.len() {
        lemma_lp_of_tok_wf(toks[pos + 2]);
    }
    if 0 <= pos + 3 < toks.len() {
        lemma_lp_of_tok_wf(toks[pos + 3]);
    }
    match parse_rect_spec(toks, pos) {
        Some((_, p1)) => {
            lemma_parsed_radius_wf(toks, p1);
        },
        None => {},
    }
    lemma_parsed_radius_wf(toks, pos + 4);
}

/// Every rectangle shape the full grammar produces is well-formed, so
/// parsing composes with computed-value resolution.
pub proof fn lemma_parsed_shape_rect_wf(
    toks: Seq<Token>,
    pos: int,
    flags: AllowedBasicShapes,
    shape_type: ShapeType,
    dp: DefaultPosition,
    context: ParserContext,
)
    ensures
        basic_shape_spec(toks, pos, flags, shape_type, dp, context) matches Some(
            (ShapeModel::Rect(r), _),
        ) ==> r.wf(),
{
    lemma_parsed_rects_wf(toks, pos + 1);
}

} // verus!
