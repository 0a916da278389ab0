//! Serialization of the rectangle shapes back to CSS text, stated to
//! the byte, and the round-trip law: reparsing a serialized `inset()`
//! yields the value that was serialized.
//!
//! Output is ASCII bytes. `xywh()` serializes as `x y width height`
//! followed by ` round <border-radius>` only when the rounding is
//! non-zero; spacing and token order are exact contract.

use vstd::prelude::*;
use crate::basic_shape::{
    BasicShapeRect, InsetRect, Xywh, close_at, ident_at, parse_border_radius_spec,
    parse_inset_args_spec, parse_rect_spec, parse_round_spec,
};
use crate::bytes::{dec_of, push_dec};
use crate::tokens::{Token, lp_of_tok, nn_lp_of_tok, is_ident_tok};
use crate::values::{BorderRadius, LengthPercentage};
use vstd::slice::slice_to_vec;
use vstd::string::StringSliceAdditionalSpecFns;

verus! {

/// The exact CSS text of a specified `<length-percentage>`.
pub open spec fn css_of_lp(lp: LengthPercentage) -> Seq<u8> {
    match lp {
        LengthPercentage::Length(v) => dec_of(v as int).add("px".spec_bytes()),
        LengthPercentage::Percentage(p) => dec_of(p as int).add("%".spec_bytes()),
        LengthPercentage::Calc { px, pct } => "calc(".spec_bytes().add(
            dec_of(pct as int).add("% + ".spec_bytes().add(dec_of(px as int).add("px)".spec_bytes()))),
        ),
    }
}

/// The exact CSS text of a corner rounding: the four corner radii,
/// space-separated, in declaration order.
pub open spec fn css_of_radius(b: BorderRadius) -> Seq<u8> {
    css_of_lp(b.top_left.0).add(" ".spec_bytes()).add(css_of_lp(b.top_right.0)).add(
        " ".spec_bytes(),
    ).add(css_of_lp(b.bottom_right.0)).add(" ".spec_bytes()).add(css_of_lp(b.bottom_left.0))
}

/// The exact argument text of `inset()`: the four offsets in edge
/// order, then ` round <border-radius>` only when the rounding is
/// non-zero.
pub open spec fn css_of_inset_args(i: InsetRect) -> Seq<u8> {
    let base = css_of_lp(i.rect.top).add(" ".spec_bytes()).add(css_of_lp(i.rect.right)).add(
        " ".spec_bytes(),
    ).add(css_of_lp(i.rect.bottom)).add(" ".spec_bytes()).add(css_of_lp(i.rect.left));
    if i.round.is_zero_spec() {
        base
    } else {
        base.add(" round ".spec_bytes()).add(css_of_radius(i.round))
    }
}

/// The exact argument text of `xywh()`: `x y width height`, then
/// ` round <border-radius>` only when the rounding is non-zero.
pub open spec fn css_of_xywh_args(w: Xywh) -> Seq<u8> {
    let base = css_of_lp(w.x).add(" ".spec_bytes()).add(css_of_lp(w.y)).add(
        " ".spec_bytes(),
    ).add(css_of_lp(w.width.0)).add(" ".spec_bytes()).add(css_of_lp(w.height.0));
    if w.round.is_zero_spec() {
        base
    } else {
        base.add(" round ".spec_bytes()).add(css_of_radius(w.round))
    }
}

/// The exact CSS text of a rectangle-like shape, function name and
/// parentheses included.
pub open spec fn css_of_shape_rect(s: BasicShapeRect) -> Seq<u8> {
    match s {
        BasicShapeRect::Inset(i) => "inset(".spec_bytes().add(css_of_inset_args(i)).add(
            ")".spec_bytes(),
        ),
        BasicShapeRect::Xywh(w) => "xywh(".spec_bytes().add(css_of_xywh_args(w)).add(
            ")".spec_bytes(),
        ),
    }
}

/// Append the bytes of an ASCII literal.
fn push_str_bytes(out: &mut Vec<u8>, s: &str)
    ensures
        final(out)@ == old(out)@.add(s.spec_bytes()),
{
    let b = s.as_bytes();
    let mut i: usize = 0;
    while i < b.len()
        invariant
            i <= b.len(),
            b@ == s.spec_bytes(),
            out@ == old(out)@.add(b@.take(i as int)),
        decreases b.len() - i,
    {
        out.push(b[i]);
        assert(out@ =~= old(out)@.add(b@.take(i + 1)));
        i += 1;
    }
    assert(out@ =~= old(out)@.add(s.spec_bytes()));
}

/// Append the CSS text of one `<length-percentage>`.
fn push_lp(out: &mut Vec<u8>, lp: &LengthPercentage)
    requires
        lp.wf(),
    ensures
        final(out)@ == old(out)@.add(css_of_lp(*lp)),
{
    match lp {
        LengthPercentage::Length(v) => {
            push_dec(out, *v);
            push_str_bytes(out, "px");
            assert(out@ =~= old(out)@.add(css_of_lp(*lp)));
        },
        LengthPercentage::Percentage(p) => {
            push_dec(out, *p);
            push_str_bytes(out, "%");
            assert(out@ =~= old(out)@.add(css_of_lp(*lp)));
        },
        LengthPercentage::Calc { px, pct } => {
            push_str_bytes(out, "calc(");
            push_dec(out, *pct);
            push_str_bytes(out, "% + ");
            push_dec(out, *px);
            push_str_bytes(out, "px)");
            assert(out@ =~= old(out)@.add(css_of_lp(*lp)));
        },
    }
}

/// Append the CSS text of a corner rounding.
fn push_radius(out: &mut Vec<u8>, b: &BorderRadius)
    requires
        b.wf(),
    ensures
        final(out)@ == old(out)@.add(css_of_radius(*b)),
{
    push_lp(out, &b.top_left.0);
    push_str_bytes(out, " ");
    push_lp(out, &b.top_right.0);
    push_str_bytes(out, " ");
    push_lp(out, &b.bottom_right.0);
    push_str_bytes(out, " ");
    push_lp(out, &b.bottom_left.0);
    assert(out@ =~= old(out)@.add(css_of_radius(*b)));
}

impl Xywh {
    /// Serialize the arguments of this `xywh()`: `x y width height`,
    /// then ` round <border-radius>` only when the rounding is
    /// non-zero.
    pub fn to_css(&self) -> (r: Vec<u8>)
        requires
            self.wf(),
        ensures
            r@ == css_of_xywh_args(*self),
    {
        let mut out: Vec<u8> = Vec::new();
        push_lp(&mut out, &self.x);
        push_str_bytes(&mut out, " ");
        push_lp(&mut out, &self.y);
        push_str_bytes(&mut out, " ");
        push_lp(&mut out, &self.width.0);
        push_str_bytes(&mut out, " ");
        push_lp(&mut out, &self.height.0);
        if !self.round.is_zero() {
            push_str_bytes(&mut out, " round ");
            push_radius(&mut out, &self.round);
        }
        assert(out@ =~= css_of_xywh_args(*self));
        out
    }
}

impl InsetRect {
    /// Serialize the arguments of this `inset()`: the four offsets,
    /// then ` round <border-radius>` only when the rounding is
    /// non-zero.
    pub fn to_css(&self) -> (r: Vec<u8>)
        requires
            self.wf(),
        ensures
            r@ == css_of_inset_args(*self),
    {
        let mut out: Vec<u8> = Vec::new();
        push_lp(&mut out, &self.rect.top);
        push_str_bytes(&mut out, " ");
        push_lp(&mut out, &self.rect.right);
        push_str_bytes(&mut out, " ");
        push_lp(&mut out, &self.rect.bottom);
        push_str_bytes(&mut out, " ");
        push_lp(&mut out, &self.rect.left);
        if !self.round.is_zero() {
            push_str_bytes(&mut out, " round ");
            push_radius(&mut out, &self.round);
        }
        assert(out@ =~= css_of_inset_args(*self));
        out
    }
}

impl BasicShapeRect {
    /// Serialize this shape with its function name and parentheses.
    pub fn to_css(&self) -> (r: Vec<u8>)
        requires
            self.wf(),
        ensures
            r@ == css_of_shape_rect(*self),
    {
        let mut out: Vec<u8> = Vec::new();
        match self {
            BasicShapeRect::Inset(i) => {
                push_str_bytes(&mut out, "inset(");
                let inner = i.to_css();
                let mut k: usize = 0;
                let mut out2 = out;
                while k < inner.len()
                    invariant
                        k <= inner.len(),
                        out2@ == "inset(".spec_bytes().add(inner@.take(k as int)),
                    decreases inner.len() - k,
                {
                    out2.push(inner[k]);
                    assert(out2@ =~= "inset(".spec_bytes().add(inner@.take(k + 1)));
                    k += 1;
                }
                push_str_bytes(&mut out2, ")");
                assert(out2@ =~= css_of_shape_rect(*self));
                out2
            },
            BasicShapeRect::Xywh(w) => {
                push_str_bytes(&mut out, "xywh(");
                let inner = w.to_css();
                let mut k: usize = 0;
                let mut out2 = out;
                while k < inner.len()
                    invariant
                        k <= inner.len(),
                        out2@ == "xywh(".spec_bytes().add(inner@.take(k as int)),
                    decreases inner.len() - k,
                {
                    out2.push(inner[k]);
                    assert(out2@ =~= "xywh(".spec_bytes().add(inner@.take(k + 1)));
                    k += 1;
                }
                push_str_bytes(&mut out2, ")");
                assert(out2@ =~= css_of_shape_rect(*self));
                out2
            },
        }
    }
}

// ---------------------------------------------------------------------
// Round trip: reparsing a serialized inset() yields the same value
// ---------------------------------------------------------------------

/// A `<length-percentage>` that serialization can spell as a single
/// token: a plain bounded length or percentage (never a `calc()`).
pub open spec fn lp_tokenizable(lp: LengthPercentage) -> bool {
    lp.wf() && !(lp matches LengthPercentage::Calc { .. })
}

/// Whether every value in an `inset()` is single-token representable.
pub open spec fn inset_tokenizable(i: InsetRect) -> bool {
    &&& lp_tokenizable(i.rect.top)
    &&& lp_tokenizable(i.rect.right)
    &&& lp_tokenizable(i.rect.bottom)
    &&& lp_tokenizable(i.rect.left)
    &&& lp_tokenizable(i.round.top_left.0)
    &&& lp_tokenizable(i.round.top_right.0)
    &&& lp_tokenizable(i.round.bottom_right.0)
    &&& lp_tokenizable(i.round.bottom_left.0)
    &&& i.round.top_left.wf()
    &&& i.round.top_right.wf()
    &&& i.round.bottom_right.wf()
    &&& i.round.bottom_left.wf()
}

/// The token spelling of a serialized `inset()`: four offset tokens and
/// a closing parenthesis, with `round` and its four radii in between
/// exactly when the rounding is non-zero.
pub open spec fn tokens_represent_inset(toks: Seq<Token>, i: InsetRect) -> bool {
    if i.round == BorderRadius::zero_spec() {
        &&& toks.len() == 5
        &&& lp_of_tok(toks[0]) == Some(i.rect.top)
        &&& lp_of_tok(toks[1]) == Some(i.rect.right)
        &&& lp_of_tok(toks[2]) == Some(i.rect.bottom)
        &&& lp_of_tok(toks[3]) == Some(i.rect.left)
        &&& toks[4] matches Token::CloseParen
    } else {
        &&& toks.len() == 10
        &&& lp_of_tok(toks[0]) == Some(i.rect.top)
        &&& lp_of_tok(toks[1]) == Some(i.rect.right)
        &&& lp_of_tok(toks[2]) == Some(i.rect.bottom)
        &&& lp_of_tok(toks[3]) == Some(i.rect.left)
        &&& is_ident_tok(toks[4], "round".spec_bytes())
        &&& nn_lp_of_tok(toks[5]) == Some(i.round.top_left)
        &&& nn_lp_of_tok(toks[6]) == Some(i.round.top_right)
        &&& nn_lp_of_tok(toks[7]) == Some(i.round.bottom_right)
        &&& nn_lp_of_tok(toks[8]) == Some(i.round.bottom_left)
        &&& toks[9] matches Token::CloseParen
    }
}

/// One offset as a token.
fn lp_to_token(lp: &LengthPercentage) -> (r: Token)
    requires
        lp_tokenizable(*lp),
    ensures
        lp_of_tok(r) == Some(*lp),
{
    match lp {
        LengthPercentage::Length(v) => {
            let unit = slice_to_vec("px".as_bytes());
            Token::Dimension { value: *v, unit }
        },
        LengthPercentage::Percentage(p) => Token::Percentage(*p),
        LengthPercentage::Calc { .. } => {
            proof {
                assert(false);
            }
            Token::Number(0)
        },
    }
}

impl InsetRect {
    /// The token spelling of this `inset()`'s serialized arguments.
    pub fn to_tokens(&self) -> (r: Vec<Token>)
        requires
            inset_tokenizable(*self),
        ensures
            (self.round.is_zero_spec() ==> self.round == BorderRadius::zero_spec())
                ==> tokens_represent_inset(r@, *self),
    {
        let mut out: Vec<Token> = Vec::new();
        out.push(lp_to_token(&self.rect.top));
        out.push(lp_to_token(&self.rect.right));
        out.push(lp_to_token(&self.rect.bottom));
        out.push(lp_to_token(&self.rect.left));
        if !self.round.is_zero() {
            out.push(Token::Ident(slice_to_vec("round".as_bytes())));
            out.push(lp_to_token(&self.round.top_left.0));
            out.push(lp_to_token(&self.round.top_right.0));
            out.push(lp_to_token(&self.round.bottom_right.0));
            out.push(lp_to_token(&self.round.bottom_left.0));
        }
        out.push(Token::CloseParen);
        out
    }
}

/// Round trip for `inset()`: parsing the token spelling of a serialized
/// `inset()` reproduces exactly the value that was serialized, with the
/// whole spelling consumed. The one family of inputs left out is a
/// rounding that denotes zero without being the literal all-`0px`
/// default: serialization omits it, so reparsing normalizes it to the
/// default.
pub proof fn lemma_inset_round_trip(toks: Seq<Token>, i: InsetRect)
    requires
        tokens_represent_inset(toks, i),
    ensures
        parse_inset_args_spec(toks, 0) == Some((i, toks.len() as int)),
{
    if i.round == BorderRadius::zero_spec() {
        assert(parse_rect_spec(toks, 0) == Some((i.rect, 4int)));
        assert(!ident_at(toks, 4, "round".spec_bytes()));
        assert(parse_round_spec(toks, 4) == Some((BorderRadius::zero_spec(), 4int)));
        assert(close_at(toks, 4));
    } else {
        assert(lp_of_tok(toks[4]) is None);
        assert(parse_rect_spec(toks, 0) == Some((i.rect, 4int)));
        assert(nn_lp_of_tok(toks[9]) is None);
        assert(parse_border_radius_spec(toks, 5) == Some((i.round, 9int)));
        assert(parse_round_spec(toks, 4) == Some((i.round, 9int)));
        assert(close_at(toks, 9));
    }
}

/// The corner radii the `round` grammar produces are single-token
/// representable.
proof fn lemma_parsed_round_tokenizable(toks: Seq<Token>, pos: int)
    ensures
        parse_round_spec(toks, pos) matches Some((b, _)) ==> lp_tokenizable(b.top_left.0)
            && lp_tokenizable(b.top_right.0) && lp_tokenizable(b.bottom_right.0)
            && lp_tokenizable(b.bottom_left.0),
{
    if 0 <= pos + 1 < toks.len() {
        crate::computed::lemma_lp_of_tok_wf(toks[pos + 1]);
    }
    if 0 <= pos + 2 < toks.len() {
        crate::computed::lemma_lp_of_tok_wf(toks[pos + 2]);
    }
    if 0 <= pos + 3 < toks.len() {
        crate::computed::lemma_lp_of_tok_wf(toks[pos + 3]);
    }
    if 0 <= pos + 4 < toks.len() {
        crate::computed::lemma_lp_of_tok_wf(toks[pos + 4]);
    }
}

/// Every `inset()` the grammar produces can be spelled back in single
/// tokens: its values are bounded and never `calc()`.
pub proof fn lemma_parsed_inset_tokenizable(toks: Seq<Token>, pos: int)
    ensures
        parse_inset_args_spec(toks, pos) matches Some((i, _)) ==> inset_tokenizable(i),
{
    crate::computed::lemma_parsed_radius_wf(toks, pos);
    if 0 <= pos < toks.len() {
        crate::computed::lemma_lp_of_tok_wf(toks[pos]);
    }
    if 0 <= pos + 1 < toks.len() {
        crate::computed::lemma_lp_of_tok_wf(toks[pos + 1]);
    }
    if 0 <= pos + 2 < toks.len() {
        crate::computed::lemma_lp_of_tok_wf(toks[pos + 2]);
    }
    if 0 <= pos + 3 < toks.len() {
        crate::computed::lemma_lp_of_tok_wf(toks[pos + 3]);
    }
    match parse_rect_spec(toks, pos) {
        Some((_, p1)) => {
            crate::computed::lemma_parsed_radius_wf(toks, p1);
            lemma_parsed_round_tokenizable(toks, p1);
        },
        None => {},
    }
}

} // verus!
