//! The token model the shape grammar is parsed from, and a cursor over
//! it whose speculative reads are transactional: a failed attempt leaves
//! the position exactly where it was.
//!
//! Tokens carry plain values only: identifiers and names as ASCII bytes,
//! numeric values as whole units. A real tokenizer (or a test) produces
//! this stream; the grammar below is independent of where it came from.

use vstd::prelude::*;
use crate::bytes::{bytes_eq_ignore_case, eq_ignore_case};
use crate::values::{LengthPercentage, NonNegativeLengthPercentage, MAX_MAGNITUDE};
use vstd::string::StringSliceAdditionalSpecFns;

verus! {

/// One CSS component token, reduced to the shapes the grammar reads.
#[derive(Clone, Debug, PartialEq, Eq)]
pub enum Token {
    /// A function opener, `name(`.
    Function(Vec<u8>),
    /// A bare identifier.
    Ident(Vec<u8>),
    /// `,`
    Comma,
    /// `)` closing the enclosing function.
    CloseParen,
    /// A dimension such as `10px`: whole value and unit name.
    Dimension { value: i64, unit: Vec<u8> },
    /// A percentage, in whole percent units.
    Percentage(i64),
    /// A bare number (the grammar only admits zero, as a zero length).
    Number(i64),
    /// A quoted string (SVG path data).
    QuotedString(Vec<u8>),
    /// A `url(...)` value, reduced to its address bytes.
    Url(Vec<u8>),
}

/// The `<length-percentage>` a single token denotes, if any.
pub open spec fn lp_of_tok(t: Token) -> Option<LengthPercentage> {
    match t {
        Token::Dimension { value, unit } => if eq_ignore_case(unit@, "px".spec_bytes())
            && -MAX_MAGNITUDE <= value <= MAX_MAGNITUDE {
            Some(LengthPercentage::Length(value))
        } else {
            None
        },
        Token::Percentage(v) => if -MAX_MAGNITUDE <= v <= MAX_MAGNITUDE {
            Some(LengthPercentage::Percentage(v))
        } else {
            None
        },
        Token::Number(v) => if v == 0 {
            Some(LengthPercentage::Length(0))
        } else {
            None
        },
        _ => None,
    }
}

/// The non-negative `<length-percentage>` a token denotes, if any.
pub open spec fn nn_lp_of_tok(t: Token) -> Option<NonNegativeLengthPercentage> {
    match lp_of_tok(t) {
        Some(lp) => if lp.px_part() >= 0 && lp.pct_part() >= 0 {
            Some(NonNegativeLengthPercentage(lp))
        } else {
            None
        },
        None => None,
    }
}

/// Whether a token is the identifier `kw`, ASCII-case-insensitively.
pub open spec fn is_ident_tok(t: Token, kw: Seq<u8>) -> bool {
    match t {
        Token::Ident(name) => eq_ignore_case(name@, kw),
        _ => false,
    }
}

/// A cursor over a token stream. The position only ever moves forward,
/// except through `restore`, which implements the transactional
/// try-then-rollback contract every speculative attempt relies on.
pub struct TokenCursor {
    pub toks: Vec<Token>,
    pub pos: usize,
}

impl TokenCursor {
    /// The position never passes the end of the stream.
    pub open spec fn wf(self) -> bool {
        self.pos <= self.toks@.len()
    }

    pub fn new(toks: Vec<Token>) -> (r: TokenCursor)
        ensures
            r.toks@ == toks@,
            r.pos == 0,
            r.wf(),
    {
        TokenCursor { toks, pos: 0 }
    }

    /// Current position, for save/restore and error locations.
    pub fn position(&self) -> (r: usize)
        ensures
            r == self.pos,
    {
        self.pos
    }

    /// Roll back to a previously saved position.
    pub fn restore(&mut self, saved: usize)
        requires
            saved <= old(self).toks@.len(),
        ensures
            final(self).toks@ == old(self).toks@,
            final(self).pos == saved,
            final(self).wf(),
    {
        self.pos = saved;
    }

    /// Whether every token has been consumed.
    pub fn at_end(&self) -> (r: bool)
        ensures
            r == (self.pos == self.toks@.len()),
    {
        self.pos == self.toks.len()
    }

    /// Consume the next token if it denotes a `<length-percentage>`.
    pub fn try_lp(&mut self) -> (r: Option<LengthPercentage>)
        requires
            old(self).wf(),
        ensures
            final(self).toks@ == old(self).toks@,
            final(self).wf(),
            match r {
                Some(v) => old(self).pos < old(self).toks@.len()
                    && lp_of_tok(old(self).toks@[old(self).pos as int]) == Some(v)
                    && final(self).pos == old(self).pos + 1,
                None => final(self).pos == old(self).pos
                    && (old(self).pos == old(self).toks@.len()
                        || lp_of_tok(old(self).toks@[old(self).pos as int]) is None),
            },
    {
        if self.pos < self.toks.len() {
            let v: Option<LengthPercentage> = match &self.toks[self.pos] {
                Token::Dimension { value, unit } => {
                    if bytes_eq_ignore_case(unit.as_slice(), "px".as_bytes())
                        && -MAX_MAGNITUDE <= *value && *value <= MAX_MAGNITUDE {
                        Some(LengthPercentage::Length(*value))
                    } else {
                        None
                    }
                },
                Token::Percentage(v) => {
                    if -MAX_MAGNITUDE <= *v && *v <= MAX_MAGNITUDE {
                        Some(LengthPercentage::Percentage(*v))
                    } else {
                        None
                    }
                },
                Token::Number(v) => {
                    if *v == 0 {
                        Some(LengthPercentage::Length(0))
                    } else {
                        None
                    }
                },
                _ => None,
            };
            if v.is_some() {
                self.pos = self.pos + 1;
            }
            v
        } else {
            None
        }
    }

    /// Consume the next token if it denotes a non-negative
    /// `<length-percentage>`.
    pub fn try_nn_lp(&mut self) -> (r: Option<NonNegativeLengthPercentage>)
        requires
            old(self).wf(),
        ensures
            final(self).toks@ == old(self).toks@,
            final(self).wf(),
            match r {
                Some(v) => old(self).pos < old(self).toks@.len()
                    && nn_lp_of_tok(old(self).toks@[old(self).pos as int]) == Some(v)
                    && final(self).pos == old(self).pos + 1,
                None => final(self).pos == old(self).pos
                    && (old(self).pos == old(self).toks@.len()
                        || nn_lp_of_tok(old(self).toks@[old(self).pos as int]) is None),
            },
    {
        let saved = self.position();
        match self.try_lp() {
            Some(lp) => {
                let ok = match &lp {
                    LengthPercentage::Length(v) => *v >= 0,
                    LengthPercentage::Percentage(p) => *p >= 0,
                    LengthPercentage::Calc { px, pct } => *px >= 0 && *pct >= 0,
                };
                if ok {
                    Some(NonNegativeLengthPercentage(lp))
                } else {
                    self.restore(saved);
                    None
                }
            },
            None => None,
        }
    }

    /// Consume the next token if it is the identifier `kw`
    /// (ASCII-case-insensitively).
    pub fn try_ident_matching(&mut self, kw: &str) -> (r: bool)
        requires
            old(self).wf(),
        ensures
            final(self).toks@ == old(self).toks@,
            final(self).wf(),
            if r {
                old(self).pos < old(self).toks@.len()
                    && is_ident_tok(old(self).toks@[old(self).pos as int], kw.spec_bytes())
                    && final(self).pos == old(self).pos + 1
            } else {
                final(self).pos == old(self).pos
                    && (old(self).pos == old(self).toks@.len()
                        || !is_ident_tok(old(self).toks@[old(self).pos as int], kw.spec_bytes()))
            },
    {
        if self.pos < self.toks.len() {
            let matched = match &self.toks[self.pos] {
                Token::Ident(name) => bytes_eq_ignore_case(name.as_slice(), kw.as_bytes()),
                _ => false,
            };
            if matched {
                self.pos = self.pos + 1;
            }
            matched
        } else {
            false
        }
    }

    /// Consume the next token if it is a comma.
    pub fn try_comma(&mut self) -> (r: bool)
        requires
            old(self).wf(),
        ensures
            final(self).toks@ == old(self).toks@,
            final(self).wf(),
            if r {
                old(self).pos < old(self).toks@.len()
                    && (old(self).toks@[old(self).pos as int] matches Token::Comma)
                    && final(self).pos == old(self).pos + 1
            } else {
                final(self).pos == old(self).pos
                    && (old(self).pos == old(self).toks@.len()
                        || !(old(self).toks@[old(self).pos as int] matches Token::Comma))
            },
    {
        if self.pos < self.toks.len() {
            let matched = match &self.toks[self.pos] {
                Token::Comma => true,
                _ => false,
            };
            if matched {
                self.pos = self.pos + 1;
            }
            matched
        } else {
            false
        }
    }

    /// Consume the next token if it closes the function's argument list.
    pub fn try_close_paren(&mut self) -> (r: bool)
        requires
            old(self).wf(),
        ensures
            final(self).toks@ == old(self).toks@,
            final(self).wf(),
            if r {
                old(self).pos < old(self).toks@.len()
                    && (old(self).toks@[old(self).pos as int] matches Token::CloseParen)
                    && final(self).pos == old(self).pos + 1
            } else {
                final(self).pos == old(self).pos
                    && (old(self).pos == old(self).toks@.len()
                        || !(old(self).toks@[old(self).pos as int] matches Token::CloseParen))
            },
    {
        if self.pos < self.toks.len() {
            let matched = match &self.toks[self.pos] {
                Token::CloseParen => true,
                _ => false,
            };
            if matched {
                self.pos = self.pos + 1;
            }
            matched
        } else {
            false
        }
    }

    /// Consume a function-opener token and hand back its name.
    pub fn try_function(&mut self) -> (r: Option<Vec<u8>>)
        requires
            old(self).wf(),
        ensures
            final(self).toks@ == old(self).toks@,
            final(self).wf(),
            match r {
                Some(name) => old(self).pos < old(self).toks@.len()
                    && (old(self).toks@[old(self).pos as int] matches Token::Function(n)
                        && name@ == n@)
                    && final(self).pos == old(self).pos + 1,
                None => final(self).pos == old(self).pos
                    && (old(self).pos == old(self).toks@.len()
                        || !(old(self).toks@[old(self).pos as int] matches Token::Function(_))),
            },
    {
        if self.pos < self.toks.len() {
            let name: Option<Vec<u8>> = match &self.toks[self.pos] {
                Token::Function(n) => Some(n.clone()),
                _ => None,
            };
            if name.is_some() {
                self.pos = self.pos + 1;
            }
            name
        } else {
            None
        }
    }

    /// Consume a quoted-string token and hand back its bytes.
    pub fn try_string(&mut self) -> (r: Option<Vec<u8>>)
        requires
            old(self).wf(),
        ensures
            final(self).toks@ == old(self).toks@,
            final(self).wf(),
            match r {
                Some(s) => old(self).pos < old(self).toks@.len()
                    && (old(self).toks@[old(self).pos as int] matches Token::QuotedString(n)
                        && s@ == n@)
                    && final(self).pos == old(self).pos + 1,
                None => final(self).pos == old(self).pos
                    && (old(self).pos == old(self).toks@.len()
                        || !(old(self).toks@[old(self).pos as int] matches Token::QuotedString(_))),
            },
    {
        if self.pos < self.toks.len() {
            let s: Option<Vec<u8>> = match &self.toks[self.pos] {
                Token::QuotedString(n) => Some(n.clone()),
                _ => None,
            };
            if s.is_some() {
                self.pos = self.pos + 1;
            }
            s
        } else {
            None
        }
    }

    /// Consume a `url(...)` token and hand back its address bytes.
    pub fn try_url(&mut self) -> (r: Option<Vec<u8>>)
        requires
            old(self).wf(),
        ensures
            final(self).toks@ == old(self).toks@,
            final(self).wf(),
            match r {
                Some(s) => old(self).pos < old(self).toks@.len()
                    && (old(self).toks@[old(self).pos as int] matches Token::Url(n) && s@ == n@)
                    && final(self).pos == old(self).pos + 1,
                None => final(self).pos == old(self).pos
                    && (old(self).pos == old(self).toks@.len()
                        || !(old(self).toks@[old(self).pos as int] matches Token::Url(_))),
            },
    {
        if self.pos < self.toks.len() {
            let s: Option<Vec<u8>> = match &self.toks[self.pos] {
                Token::Url(n) => Some(n.clone()),
                _ => None,
            };
            if s.is_some() {
                self.pos = self.pos + 1;
            }
            s
        } else {
            None
        }
    }

    /// Consume any identifier token and hand back its name.
    pub fn try_ident_any(&mut self) -> (r: Option<Vec<u8>>)
        requires
            old(self).wf(),
        ensures
            final(self).toks@ == old(self).toks@,
            final(self).wf(),
            match r {
                Some(name) => old(self).pos < old(self).toks@.len()
                    && (old(self).toks@[old(self).pos as int] matches Token::Ident(n)
                        && name@ == n@)
                    && final(self).pos == old(self).pos + 1,
                None => final(self).pos == old(self).pos
                    && (old(self).pos == old(self).toks@.len()
                        || !(old(self).toks@[old(self).pos as int] matches Token::Ident(_))),
            },
    {
        if self.pos < self.toks.len() {
            let name: Option<Vec<u8>> = match &self.toks[self.pos] {
                Token::Ident(n) => Some(n.clone()),
                _ => None,
            };
            if name.is_some() {
                self.pos = self.pos + 1;
            }
            name
        } else {
            None
        }
    }
}

} // verus!
