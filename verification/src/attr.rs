//! Attribute-selector matching: the parsed operator/value forms and the
//! byte-level matching semantics of `=`, `~=`, `|=`, `^=`, `*=` and
//! `$=`, under exact or ASCII-case-insensitive comparison.
//!
//! Attribute values are ASCII-oriented byte strings.

use vstd::prelude::*;
use crate::bytes::{bytes_eq, bytes_eq_ignore_case, eq_ignore_case, lower, lower_seq};

verus! {

/// Which namespaces an attribute selector addresses.
#[derive(Clone, Debug, PartialEq, Eq)]
pub enum NamespaceConstraint<NamespaceUrl> {
    Any,
    /// Empty string for no namespace.
    Specific(NamespaceUrl),
}

/// The leaf types an attribute selector is parameterized over.
pub trait SelectorImpl {
    type AttrValue;

    type LocalName;

    type NamespacePrefix;

    type NamespaceUrl;
}

/// An attribute selector, with an optional namespace constraint.
pub struct AttrSelectorWithOptionalNamespace<Impl: SelectorImpl> {
    pub namespace: Option<NamespaceConstraint<(Impl::NamespacePrefix, Impl::NamespaceUrl)>>,
    pub local_name: Impl::LocalName,
    pub local_name_lower: Impl::LocalName,
    pub operation: ParsedAttrSelectorOperation<Impl::AttrValue>,
}

impl<Impl: SelectorImpl> AttrSelectorWithOptionalNamespace<Impl> {
    /// The namespace constraint, reduced to the URL it names.
    pub fn namespace(&self) -> (r: Option<NamespaceConstraint<&Impl::NamespaceUrl>>)
        ensures
            r is Some <==> self.namespace is Some,
            self.namespace matches Some(NamespaceConstraint::Any) ==> r matches Some(
                NamespaceConstraint::Any,
            ),
            self.namespace matches Some(NamespaceConstraint::Specific(pair)) ==> (r matches Some(
                NamespaceConstraint::Specific(url),
            ) && *url == pair.1),
    {
        match &self.namespace {
            None => None,
            Some(NamespaceConstraint::Any) => Some(NamespaceConstraint::Any),
            Some(NamespaceConstraint::Specific(pair)) => Some(
                NamespaceConstraint::Specific(&pair.1),
            ),
        }
    }
}

/// An attribute condition as parsed, before case-sensitivity is
/// resolved against the document.
#[derive(Clone, Debug, PartialEq, Eq)]
pub enum ParsedAttrSelectorOperation<AttrValue> {
    Exists,
    WithValue {
        operator: AttrSelectorOperator,
        case_sensitivity: ParsedCaseSensitivity,
        value: AttrValue,
    },
}

/// An attribute condition ready to evaluate against an element.
#[derive(Clone, Debug, PartialEq, Eq)]
pub enum AttrSelectorOperation<AttrValue> {
    Exists,
    WithValue {
        operator: AttrSelectorOperator,
        case_sensitivity: CaseSensitivity,
        value: AttrValue,
    },
}

/// The six attribute comparison operators.
#[derive(Clone, Copy, Debug, PartialEq, Eq, Structural)]
pub enum AttrSelectorOperator {
    Equal,
    Includes,
    DashMatch,
    Prefix,
    Substring,
    Suffix,
}

/// Case-sensitivity as written in the selector.
#[derive(Clone, Copy, Debug, PartialEq, Eq, Structural)]
pub enum ParsedCaseSensitivity {
    /// 's' was specified.
    ExplicitCaseSensitive,
    /// 'i' was specified.
    AsciiCaseInsensitive,
    /// No flags were specified and HTML says this is a case-sensitive
    /// attribute.
    CaseSensitive,
    /// No flags were specified and HTML says this is a
    /// case-insensitive attribute.
    AsciiCaseInsensitiveIfInHtmlElementInHtmlDocument,
}

/// Case-sensitivity as resolved for one evaluation.
#[derive(Clone, Copy, Debug, PartialEq, Eq, Structural)]
pub enum CaseSensitivity {
    CaseSensitive,
    AsciiCaseInsensitive,
}

/// Byte comparison under a case-sensitivity mode.
pub open spec fn byte_eq(cs: CaseSensitivity, a: u8, b: u8) -> bool {
    match cs {
        CaseSensitivity::CaseSensitive => a == b,
        CaseSensitivity::AsciiCaseInsensitive => lower(a) == lower(b),
    }
}

/// Byte-string comparison under a case-sensitivity mode.
pub open spec fn case_eq(cs: CaseSensitivity, a: Seq<u8>, b: Seq<u8>) -> bool {
    match cs {
        CaseSensitivity::CaseSensitive => a == b,
        CaseSensitivity::AsciiCaseInsensitive => eq_ignore_case(a, b),
    }
}

/// `needle` matches inside `haystack` at offset `i`.
pub open spec fn match_at(cs: CaseSensitivity, h: Seq<u8>, n: Seq<u8>, i: int) -> bool {
    0 <= i && i + n.len() <= h.len() && case_eq(cs, h.subrange(i, i + n.len()), n)
}

/// `needle` occurs somewhere inside `haystack`.
pub open spec fn contains_spec(cs: CaseSensitivity, h: Seq<u8>, n: Seq<u8>) -> bool {
    exists|i: int| match_at(cs, h, n, i)
}

/// Selector whitespace: space, tab, line feed, carriage return, form
/// feed.
pub open spec fn is_selector_ws(b: u8) -> bool {
    b == 32 || b == 9 || b == 10 || b == 13 || b == 12
}

/// `[i, j)` is a maximal whitespace-free run of `h`.
pub open spec fn is_part(h: Seq<u8>, i: int, j: int) -> bool {
    &&& 0 <= i <= j <= h.len()
    &&& (i == 0 || is_selector_ws(h[i - 1]))
    &&& (j == h.len() || is_selector_ws(h[j]))
    &&& forall|k: int| i <= k < j ==> !is_selector_ws(h[k])
}

/// Some whitespace-separated word of `h` equals `s`.
pub open spec fn includes_spec(cs: CaseSensitivity, h: Seq<u8>, s: Seq<u8>) -> bool {
    exists|i: int, j: int| i < j && is_part(h, i, j) && case_eq(cs, h.subrange(i, j), s)
}

/// The meaning of one operator applied to an element value `e` and a
/// selector value `s`.
pub open spec fn eval_op_spec(
    op: AttrSelectorOperator,
    cs: CaseSensitivity,
    e: Seq<u8>,
    s: Seq<u8>,
) -> bool {
    match op {
        AttrSelectorOperator::Equal => case_eq(cs, e, s),
        AttrSelectorOperator::Prefix => s.len() > 0 && e.len() >= s.len() && case_eq(
            cs,
            e.subrange(0, s.len() as int),
            s,
        ),
        AttrSelectorOperator::Suffix => s.len() > 0 && e.len() >= s.len() && case_eq(
            cs,
            e.subrange(e.len() - s.len(), e.len() as int),
            s,
        ),
        AttrSelectorOperator::Substring => s.len() > 0 && contains_spec(cs, e, s),
        AttrSelectorOperator::Includes => s.len() > 0 && includes_spec(cs, e, s),
        AttrSelectorOperator::DashMatch => case_eq(cs, e, s) || (e.len() > s.len() && e[
            s.len() as int
        ] == 45 && case_eq(cs, e.subrange(0, s.len() as int), s)),
    }
}

/// Pointwise form of a positioned match.
pub open spec fn match_at_pointwise(cs: CaseSensitivity, h: Seq<u8>, n: Seq<u8>, i: int) -> bool {
    forall|j: int| 0 <= j < n.len() ==> byte_eq(cs, h[i + j], n[j])
}

/// A positioned match is exactly its pointwise form.
pub proof fn lemma_match_at_iff(cs: CaseSensitivity, h: Seq<u8>, n: Seq<u8>, i: int)
    requires
        0 <= i,
        i + n.len() <= h.len(),
    ensures
        match_at(cs, h, n, i) <==> match_at_pointwise(cs, h, n, i),
{
    let sub = h.subrange(i, i + n.len());
    match cs {
        CaseSensitivity::CaseSensitive => {
            if match_at_pointwise(cs, h, n, i) {
                assert(sub =~= n);
            }
            if match_at(cs, h, n, i) {
                assert(forall|j: int| 0 <= j < n.len() ==> h[i + j] == sub[j]);
            }
        },
        CaseSensitivity::AsciiCaseInsensitive => {
            if match_at_pointwise(cs, h, n, i) {
                assert forall|j: int| 0 <= j < n.len() implies lower_seq(sub)[j] == lower_seq(
                    n,
                )[j] by {
                    assert(sub[j] == h[i + j]);
                    assert(lower_seq(sub)[j] == lower(sub[j]));
                    assert(lower_seq(n)[j] == lower(n[j]));
                }
                assert(lower_seq(sub) =~= lower_seq(n));
            }
            if match_at(cs, h, n, i) {
                assert forall|j: int| 0 <= j < n.len() implies byte_eq(cs, h[i + j], n[j]) by {
                    assert(sub[j] == h[i + j]);
                    assert(lower_seq(sub)[j] == lower(sub[j]));
                    assert(lower_seq(n)[j] == lower(n[j]));
                }
            }
        },
    }
}

/// Compare one byte under a case-sensitivity mode.
fn byte_eq_check(cs: CaseSensitivity, a: u8, b: u8) -> (r: bool)
    ensures
        r == byte_eq(cs, a, b),
{
    match cs {
        CaseSensitivity::CaseSensitive => a == b,
        CaseSensitivity::AsciiCaseInsensitive => crate::bytes::lower_byte(a) == crate::bytes::lower_byte(b),
    }
}

/// Check a positioned match.
fn match_at_check(cs: CaseSensitivity, h: &[u8], n: &[u8], i: usize) -> (r: bool)
    requires
        i + n@.len() <= h@.len(),
    ensures
        r == match_at(cs, h@, n@, i as int),
{
    let hl = h.len();
    let mut j: usize = 0;
    while j < n.len()
        invariant
            j <= n@.len(),
            i + n@.len() <= h@.len(),
            hl == h@.len(),
            forall|k: int| 0 <= k < j ==> byte_eq(cs, h@[i + k], n@[k]),
        decreases n@.len() - j,
    {
        assert(i + j < hl);
        if !byte_eq_check(cs, h[i + j], n[j]) {
            proof {
                lemma_match_at_iff(cs, h@, n@, i as int);
            }
            return false;
        }
        j += 1;
    }
    proof {
        lemma_match_at_iff(cs, h@, n@, i as int);
    }
    true
}

impl CaseSensitivity {
    /// Whether two byte strings are equal under this mode.
    pub fn eq(self, a: &[u8], b: &[u8]) -> (r: bool)
        ensures
            r == case_eq(self, a@, b@),
    {
        match self {
            CaseSensitivity::CaseSensitive => bytes_eq(a, b),
            CaseSensitivity::AsciiCaseInsensitive => bytes_eq_ignore_case(a, b),
        }
    }

    /// Whether `needle` occurs inside `haystack` under this mode.
    pub fn contains(self, haystack: &[u8], needle: &[u8]) -> (r: bool)
        ensures
            r == contains_spec(self, haystack@, needle@),
    {
        if needle.len() > haystack.len() {
            proof {
                assert(forall|i: int| !match_at(self, haystack@, needle@, i));
            }
            return false;
        }
        let last = haystack.len() - needle.len();
        let mut i: usize = 0;
        loop
            invariant
                i <= last,
                last == haystack@.len() - needle@.len(),
                needle@.len() <= haystack@.len(),
                forall|k: int| 0 <= k < i ==> !match_at(self, haystack@, needle@, k),
            decreases last - i,
        {
            if match_at_check(self, haystack, needle, i) {
                assert(match_at(self, haystack@, needle@, i as int));
                return true;
            }
            if i == last {
                proof {
                    assert forall|k: int| !match_at(self, haystack@, needle@, k) by {
                        if 0 <= k && k + needle@.len() <= haystack@.len() {
                            assert(k <= last);
                        }
                    }
                }
                return false;
            }
            i += 1;
        }
    }
}

/// Check whether some whitespace-separated word of `h` equals `s`.
fn includes_check(cs: CaseSensitivity, h: &[u8], s: &[u8]) -> (r: bool)
    ensures
        r == includes_spec(cs, h@, s@),
{
    let mut i: usize = 0;
    while i < h.len()
        invariant
            i <= h@.len(),
            forall|a: int, b: int| a < i && a < b && is_part(h@, a, b) ==> !case_eq(
                cs,
                h@.subrange(a, b),
                s@,
            ),
        decreases h@.len() - i,
    {
        let starts_part = !is_ws_check(h[i]) && (i == 0 || is_ws_check(h[i - 1]));
        if starts_part {
            let mut j: usize = i;
            while j < h.len() && !is_ws_check(h[j])
                invariant
                    i <= j <= h@.len(),
                    forall|k: int| i <= k < j ==> !is_selector_ws(h@[k]),
                decreases h@.len() - j,
            {
                j += 1;
            }
            assert(is_part(h@, i as int, j as int));
            if j - i == s.len() && match_at_check(cs, h, s, i) {
                assert(h@.subrange(i as int, j as int) == h@.subrange(
                    i as int,
                    i + s@.len(),
                ));
                assert(includes_spec(cs, h@, s@));
                return true;
            }
            proof {
                assert forall|b: int| (i as int) < b && is_part(h@, i as int, b) implies !case_eq(
                    cs,
                    h@.subrange(i as int, b),
                    s@,
                ) by {
                    if b != j {
                        if b < j {
                            assert(!is_selector_ws(h@[b]));
                            assert(false);
                        } else {
                            assert(is_selector_ws(h@[j as int]));
                            assert(false);
                        }
                    } else {
                        if case_eq(cs, h@.subrange(i as int, b), s@) {
                            assert(b - i == s@.len()) by {
                                assert(lower_seq(h@.subrange(i as int, b)).len() == b - i);
                            }
                            assert(h@.subrange(i as int, b) == h@.subrange(
                                i as int,
                                i + s@.len(),
                            ));
                            assert(match_at(cs, h@, s@, i as int));
                            assert(false);
                        }
                    }
                }
            }
        } else {
            proof {
                assert forall|b: int| (i as int) < b implies !is_part(h@, i as int, b) by {
                    if is_part(h@, i as int, b) {
                        assert(!is_selector_ws(h@[i as int]));
                    }
                }
            }
        }
        i += 1;
    }
    proof {
        assert forall|a: int, b: int| !(a < b && is_part(h@, a, b) && case_eq(
            cs,
            h@.subrange(a, b),
            s@,
        )) by {
            if a < b && is_part(h@, a, b) {
                assert(a < h@.len());
                assert(a < i);
            }
        }
    }
    false
}

/// Selector whitespace, executably.
fn is_ws_check(b: u8) -> (r: bool)
    ensures
        r == is_selector_ws(b),
{
    b == 32 || b == 9 || b == 10 || b == 13 || b == 12
}

impl AttrSelectorOperator {
    /// The CSS text of this operator.
    pub fn to_css(self) -> (r: &'static str)
        ensures
            self matches AttrSelectorOperator::Equal ==> r@ == "="@,
            self matches AttrSelectorOperator::Includes ==> r@ == "~="@,
            self matches AttrSelectorOperator::DashMatch ==> r@ == "|="@,
            self matches AttrSelectorOperator::Prefix ==> r@ == "^="@,
            self matches AttrSelectorOperator::Substring ==> r@ == "*="@,
            self matches AttrSelectorOperator::Suffix ==> r@ == "$="@,
    {
        match self {
            AttrSelectorOperator::Equal => "=",
            AttrSelectorOperator::Includes => "~=",
            AttrSelectorOperator::DashMatch => "|=",
            AttrSelectorOperator::Prefix => "^=",
            AttrSelectorOperator::Substring => "*=",
            AttrSelectorOperator::Suffix => "$=",
        }
    }

    /// Evaluate this operator on an element's attribute value and the
    /// selector's value.
    pub fn eval_str(
        self,
        element_attr_value: &[u8],
        attr_selector_value: &[u8],
        case_sensitivity: CaseSensitivity,
    ) -> (r: bool)
        ensures
            r == eval_op_spec(self, case_sensitivity, element_attr_value@, attr_selector_value@),
    {
        let e = element_attr_value;
        let s = attr_selector_value;
        let case = case_sensitivity;
        match self {
            AttrSelectorOperator::Equal => case.eq(e, s),
            AttrSelectorOperator::Prefix => {
                s.len() > 0 && e.len() >= s.len() && match_at_check(case, e, s, 0)
            },
            AttrSelectorOperator::Suffix => {
                s.len() > 0 && e.len() >= s.len() && match_at_check(case, e, s, e.len() - s.len())
            },
            AttrSelectorOperator::Substring => s.len() > 0 && case.contains(e, s),
            AttrSelectorOperator::Includes => s.len() > 0 && includes_check(case, e, s),
            AttrSelectorOperator::DashMatch => {
                if case.eq(e, s) {
                    true
                } else if e.len() > s.len() && e[s.len()] == 45 {
                    match_at_check(case, e, s, 0)
                } else {
                    false
                }
            },
        }
    }
}

/// The meaning of a resolved attribute condition on an element value.
pub open spec fn eval_operation_spec(op: AttrSelectorOperation<Vec<u8>>, e: Seq<u8>) -> bool {
    match op {
        AttrSelectorOperation::Exists => true,
        AttrSelectorOperation::WithValue { operator, case_sensitivity, value } => eval_op_spec(
            operator,
            case_sensitivity,
            e,
            value@,
        ),
    }
}

impl AttrSelectorOperation<Vec<u8>> {
    /// Evaluate this condition on an element's attribute value (the
    /// attribute is known to exist).
    pub fn eval_str(&self, element_attr_value: &[u8]) -> (r: bool)
        ensures
            r == eval_operation_spec(*self, element_attr_value@),
    {
        match self {
            AttrSelectorOperation::Exists => true,
            AttrSelectorOperation::WithValue { operator, case_sensitivity, value } => operator
                .eval_str(element_attr_value, value.as_slice(), *case_sensitivity),
        }
    }
}

} // verus!
