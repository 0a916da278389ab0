use css_shapes::attr::{
    AttrSelectorOperation, AttrSelectorOperator, AttrSelectorWithOptionalNamespace,
    CaseSensitivity, NamespaceConstraint, ParsedAttrSelectorOperation, ParsedCaseSensitivity,
    SelectorImpl,
};

struct TestImpl;

impl SelectorImpl for TestImpl {
    type AttrValue = Vec<u8>;
    type LocalName = Vec<u8>;
    type NamespacePrefix = Vec<u8>;
    type NamespaceUrl = Vec<u8>;
}

const CS: CaseSensitivity = CaseSensitivity::CaseSensitive;
const CI: CaseSensitivity = CaseSensitivity::AsciiCaseInsensitive;

#[test]
fn equal_operator() {
    let op = AttrSelectorOperator::Equal;
    assert!(op.eval_str(b"abc", b"abc", CS));
    assert!(!op.eval_str(b"abc", b"ABC", CS));
    assert!(op.eval_str(b"abc", b"ABC", CI));
    assert!(!op.eval_str(b"abc", b"abd", CI));
    assert!(op.eval_str(b"", b"", CS));
}

#[test]
fn prefix_operator() {
    let op = AttrSelectorOperator::Prefix;
    assert!(op.eval_str(b"abcdef", b"abc", CS));
    assert!(!op.eval_str(b"abcdef", b"bcd", CS));
    assert!(op.eval_str(b"ABCdef", b"abc", CI));
    // An empty selector value never matches.
    assert!(!op.eval_str(b"abcdef", b"", CS));
    assert!(!op.eval_str(b"ab", b"abc", CS));
}

#[test]
fn suffix_operator() {
    let op = AttrSelectorOperator::Suffix;
    assert!(op.eval_str(b"abcdef", b"def", CS));
    assert!(!op.eval_str(b"abcdef", b"abc", CS));
    assert!(op.eval_str(b"abcDEF", b"def", CI));
    assert!(!op.eval_str(b"abcdef", b"", CS));
}

#[test]
fn substring_operator() {
    let op = AttrSelectorOperator::Substring;
    assert!(op.eval_str(b"abcdef", b"cde", CS));
    assert!(op.eval_str(b"abcdef", b"abcdef", CS));
    assert!(!op.eval_str(b"abcdef", b"cdx", CS));
    assert!(op.eval_str(b"aBcDeF", b"bcde", CI));
    assert!(!op.eval_str(b"abcdef", b"", CS));
    assert!(!op.eval_str(b"ab", b"abc", CS));
}

#[test]
fn includes_operator() {
    let op = AttrSelectorOperator::Includes;
    assert!(op.eval_str(b"alpha beta gamma", b"beta", CS));
    assert!(op.eval_str(b"alpha beta gamma", b"alpha", CS));
    assert!(op.eval_str(b"alpha beta gamma", b"gamma", CS));
    // A word must match whole, not as a substring of a word.
    assert!(!op.eval_str(b"alphabet", b"alpha", CS));
    assert!(!op.eval_str(b"alpha beta", b"et", CS));
    // Any selector whitespace separates words.
    assert!(op.eval_str(b"one\ttwo\nthree", b"two", CS));
    assert!(op.eval_str(b"  padded  ", b"padded", CS));
    assert!(op.eval_str(b"Mixed CASE", b"case", CI));
    assert!(!op.eval_str(b"alpha beta", b"", CS));
    assert!(!op.eval_str(b"", b"x", CS));
}

#[test]
fn dash_match_operator() {
    let op = AttrSelectorOperator::DashMatch;
    assert!(op.eval_str(b"en", b"en", CS));
    assert!(op.eval_str(b"en-US", b"en", CS));
    assert!(!op.eval_str(b"ens", b"en", CS));
    assert!(!op.eval_str(b"e", b"en", CS));
    assert!(op.eval_str(b"EN-us", b"en", CI));
}

#[test]
fn case_sensitivity_eq_and_contains() {
    assert!(CS.eq(b"abc", b"abc"));
    assert!(!CS.eq(b"abc", b"ABC"));
    assert!(CI.eq(b"abc", b"ABC"));
    assert!(CS.contains(b"haystack", b"sta"));
    assert!(!CS.contains(b"haystack", b"STA"));
    assert!(CI.contains(b"haystack", b"STA"));
    assert!(CS.contains(b"anything", b""));
    assert!(!CS.contains(b"", b"a"));
}

#[test]
fn operation_eval() {
    let exists: AttrSelectorOperation<Vec<u8>> = AttrSelectorOperation::Exists;
    assert!(exists.eval_str(b"whatever"));
    let with_value = AttrSelectorOperation::WithValue {
        operator: AttrSelectorOperator::Includes,
        case_sensitivity: CI,
        value: b"NAV".to_vec(),
    };
    assert!(with_value.eval_str(b"header nav footer"));
    assert!(!with_value.eval_str(b"navigation"));
}

#[test]
fn namespace_projection() {
    let none: AttrSelectorWithOptionalNamespace<TestImpl> = AttrSelectorWithOptionalNamespace {
        namespace: None,
        local_name: b"href".to_vec(),
        local_name_lower: b"href".to_vec(),
        operation: ParsedAttrSelectorOperation::Exists,
    };
    assert!(none.namespace().is_none());

    let any: AttrSelectorWithOptionalNamespace<TestImpl> = AttrSelectorWithOptionalNamespace {
        namespace: Some(NamespaceConstraint::Any),
        local_name: b"href".to_vec(),
        local_name_lower: b"href".to_vec(),
        operation: ParsedAttrSelectorOperation::Exists,
    };
    assert!(matches!(any.namespace(), Some(NamespaceConstraint::Any)));

    let specific: AttrSelectorWithOptionalNamespace<TestImpl> = AttrSelectorWithOptionalNamespace {
        namespace: Some(NamespaceConstraint::Specific((b"svg".to_vec(), b"urn:svg".to_vec()))),
        local_name: b"href".to_vec(),
        local_name_lower: b"href".to_vec(),
        operation: ParsedAttrSelectorOperation::WithValue {
            operator: AttrSelectorOperator::Equal,
            case_sensitivity: ParsedCaseSensitivity::CaseSensitive,
            value: b"x".to_vec(),
        },
    };
    match specific.namespace() {
        Some(NamespaceConstraint::Specific(url)) => assert_eq!(url, &b"urn:svg".to_vec()),
        _ => panic!("expected a specific namespace"),
    }
}

#[test]
fn operator_css_text() {
    assert_eq!(AttrSelectorOperator::Equal.to_css(), "=");
    assert_eq!(AttrSelectorOperator::Includes.to_css(), "~=");
    assert_eq!(AttrSelectorOperator::DashMatch.to_css(), "|=");
    assert_eq!(AttrSelectorOperator::Prefix.to_css(), "^=");
    assert_eq!(AttrSelectorOperator::Substring.to_css(), "*=");
    assert_eq!(AttrSelectorOperator::Suffix.to_css(), "$=");
}
