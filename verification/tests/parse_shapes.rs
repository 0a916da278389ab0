use css_shapes::basic_shape::{
    AllowedBasicShapes, BasicShape, BasicShapeRect, ClipPath, DefaultPosition, Ellipse, FillRule,
    GeometryBox, InsetRect, ParserContext, Path, Polygon, ShapeBox, ShapeOutside, ShapeRadius,
    ShapeType, StyleParseErrorKind, Xywh,
};
use css_shapes::tokens::{Token, TokenCursor};
use css_shapes::values::{LengthPercentage, NonNegativeLengthPercentage, PositionOrAuto};

fn px(v: i64) -> Token {
    Token::Dimension { value: v, unit: b"px".to_vec() }
}

fn pct(v: i64) -> Token {
    Token::Percentage(v)
}

fn ident(s: &str) -> Token {
    Token::Ident(s.as_bytes().to_vec())
}

fn func(s: &str) -> Token {
    Token::Function(s.as_bytes().to_vec())
}

fn ctx() -> ParserContext {
    ParserContext { xywh_enabled: true }
}

fn parse_shape(
    toks: Vec<Token>,
    flags: AllowedBasicShapes,
    shape_type: ShapeType,
    context: ParserContext,
) -> Result<BasicShape, css_shapes::basic_shape::ParseError> {
    let mut c = TokenCursor::new(toks);
    BasicShape::parse(&mut c, &context, flags, shape_type, DefaultPosition::Center)
}

#[test]
fn capability_gating_each_function() {
    let all = AllowedBasicShapes::all();
    let samples: Vec<(&str, Vec<Token>)> = vec![
        ("inset", vec![func("inset"), px(1), Token::CloseParen]),
        ("circle", vec![func("circle"), Token::CloseParen]),
        ("ellipse", vec![func("ellipse"), Token::CloseParen]),
        (
            "polygon",
            vec![func("polygon"), px(0), px(0), Token::CloseParen],
        ),
        (
            "path",
            vec![func("path"), Token::QuotedString(b"M0 0".to_vec()), Token::CloseParen],
        ),
        (
            "xywh",
            vec![func("xywh"), px(1), px(2), px(3), px(4), Token::CloseParen],
        ),
    ];
    for (name, toks) in samples {
        // With every bit set (and the feature flag on) the parse succeeds.
        assert!(parse_shape(toks.clone(), all, ShapeType::Filled, ctx()).is_ok());
        // With exactly that function's bit cleared it fails as unrecognized.
        let mut flags = all;
        match name {
            "inset" => flags.inset = false,
            "circle" => flags.circle = false,
            "ellipse" => flags.ellipse = false,
            "polygon" => flags.polygon = false,
            "path" => flags.path = false,
            "xywh" => flags.xywh = false,
            _ => unreachable!(),
        }
        let err = parse_shape(toks, flags, ShapeType::Filled, ctx()).unwrap_err();
        match err.kind {
            StyleParseErrorKind::UnexpectedFunction(n) => assert_eq!(n, name.as_bytes().to_vec()),
            _ => panic!("expected UnexpectedFunction"),
        }
    }
}

#[test]
fn xywh_feature_flag_gates_even_with_bit_set() {
    let toks = vec![func("xywh"), px(1), px(2), px(3), px(4), Token::CloseParen];
    let off = ParserContext { xywh_enabled: false };
    let err = parse_shape(toks.clone(), AllowedBasicShapes::all(), ShapeType::Filled, off)
        .unwrap_err();
    assert!(matches!(err.kind, StyleParseErrorKind::UnexpectedFunction(_)));
    assert!(parse_shape(toks, AllowedBasicShapes::all(), ShapeType::Filled, ctx()).is_ok());
}

#[test]
fn unknown_function_is_unexpected() {
    let toks = vec![func("banana"), px(1), Token::CloseParen];
    let err = parse_shape(toks, AllowedBasicShapes::all(), ShapeType::Filled, ctx()).unwrap_err();
    assert!(matches!(err.kind, StyleParseErrorKind::UnexpectedFunction(_)));
}

#[test]
fn function_names_match_ascii_case_insensitively() {
    let toks = vec![func("InSeT"), px(1), Token::CloseParen];
    assert!(parse_shape(toks, AllowedBasicShapes::all(), ShapeType::Filled, ctx()).is_ok());
}

#[test]
fn order_independence_shape_and_box() {
    let toks1 = vec![func("inset"), px(1), Token::CloseParen, ident("border-box")];
    let toks2 = vec![ident("border-box"), func("inset"), px(1), Token::CloseParen];
    let mut c1 = TokenCursor::new(toks1);
    let mut c2 = TokenCursor::new(toks2);
    let context = ctx();
    let a = ClipPath::parse(&mut c1, &context).unwrap();
    let b = ClipPath::parse(&mut c2, &context).unwrap();
    assert!(c1.at_end());
    assert!(c2.at_end());
    assert_eq!(a, b);
    match a {
        ClipPath::Shape(_, gb) => assert_eq!(gb, GeometryBox::BorderBox),
        _ => panic!("expected a shape with a box"),
    }
}

#[test]
fn at_most_once_second_shape_left_unconsumed() {
    let toks = vec![
        func("inset"),
        px(1),
        Token::CloseParen,
        func("inset"),
        px(2),
        Token::CloseParen,
    ];
    let mut c = TokenCursor::new(toks);
    let context = ctx();
    let v = ClipPath::parse(&mut c, &context).unwrap();
    assert!(matches!(v, ClipPath::Shape(_, _)));
    // The second inset() has nowhere to go: it stays unconsumed, so a
    // caller that requires exhaustion rejects the whole value.
    assert!(!c.at_end());
    assert_eq!(c.position(), 3);
}

#[test]
fn fill_rule_with_comma_is_consumed() {
    let toks = vec![
        func("polygon"),
        ident("nonzero"),
        Token::Comma,
        px(0),
        px(0),
        Token::Comma,
        px(10),
        px(0),
        Token::CloseParen,
    ];
    let shape = parse_shape(toks, AllowedBasicShapes::all(), ShapeType::Filled, ctx()).unwrap();
    match shape {
        BasicShape::Polygon(p) => {
            assert_eq!(p.fill, FillRule::Nonzero);
            assert_eq!(p.coordinates.len(), 2);
        },
        _ => panic!("expected polygon"),
    }
}

#[test]
fn evenodd_fill_rule_with_comma() {
    let toks = vec![
        func("polygon"),
        ident("evenodd"),
        Token::Comma,
        px(0),
        px(0),
        Token::CloseParen,
    ];
    let shape = parse_shape(toks, AllowedBasicShapes::all(), ShapeType::Filled, ctx()).unwrap();
    match shape {
        BasicShape::Polygon(p) => assert_eq!(p.fill, FillRule::Evenodd),
        _ => panic!("expected polygon"),
    }
}

#[test]
fn fill_rule_without_comma_rolls_back_and_fails_as_coordinate() {
    // Without a following comma the fill-rule attempt must roll back,
    // and the bare keyword cannot serve as a coordinate.
    let toks = vec![func("polygon"), ident("nonzero"), px(0), px(0), Token::CloseParen];
    assert!(parse_shape(toks, AllowedBasicShapes::all(), ShapeType::Filled, ctx()).is_err());
    let toks2 = vec![
        func("polygon"),
        ident("nonzero"),
        px(0),
        px(0),
        Token::Comma,
        px(10),
        px(0),
        Token::CloseParen,
    ];
    assert!(parse_shape(toks2, AllowedBasicShapes::all(), ShapeType::Filled, ctx()).is_err());
}

#[test]
fn polygon_without_fill_rule_defaults_to_nonzero() {
    let toks = vec![func("polygon"), px(0), px(0), Token::CloseParen];
    let shape = parse_shape(toks, AllowedBasicShapes::all(), ShapeType::Filled, ctx()).unwrap();
    match shape {
        BasicShape::Polygon(p) => assert_eq!(p.fill, FillRule::Nonzero),
        _ => panic!("expected polygon"),
    }
}

#[test]
fn outline_never_consumes_fill_rule_in_path() {
    // In Outline mode the fill-rule grammar is skipped entirely, so the
    // leading identifier reaches the path-data position and is rejected.
    let toks = vec![
        func("path"),
        ident("nonzero"),
        Token::Comma,
        Token::QuotedString(b"M0 0".to_vec()),
        Token::CloseParen,
    ];
    assert!(parse_shape(toks.clone(), AllowedBasicShapes::all(), ShapeType::Outline, ctx())
        .is_err());
    // The same tokens in Filled mode consume the fill-rule.
    let shape = parse_shape(toks, AllowedBasicShapes::all(), ShapeType::Filled, ctx()).unwrap();
    match shape {
        BasicShape::Path(p) => assert_eq!(p.fill, FillRule::Nonzero),
        _ => panic!("expected path"),
    }
}

#[test]
fn outline_path_without_fill_rule_parses() {
    let toks = vec![func("path"), Token::QuotedString(b"M10 10 L20 20".to_vec()), Token::CloseParen];
    let shape = parse_shape(toks, AllowedBasicShapes::all(), ShapeType::Outline, ctx()).unwrap();
    match shape {
        BasicShape::Path(p) => {
            assert_eq!(p.fill, FillRule::Nonzero);
            assert_eq!(p.path.0, b"M10 10 L20 20".to_vec());
        },
        _ => panic!("expected path"),
    }
}

#[test]
fn path_data_must_be_non_empty() {
    let toks = vec![func("path"), Token::QuotedString(Vec::new()), Token::CloseParen];
    assert!(parse_shape(toks, AllowedBasicShapes::all(), ShapeType::Filled, ctx()).is_err());
}

#[test]
fn inset_edge_expansion() {
    let cases: Vec<(Vec<Token>, [i64; 4])> = vec![
        (vec![px(1)], [1, 1, 1, 1]),
        (vec![px(1), px(2)], [1, 2, 1, 2]),
        (vec![px(1), px(2), px(3)], [1, 2, 3, 2]),
        (vec![px(1), px(2), px(3), px(4)], [1, 2, 3, 4]),
    ];
    for (args, expect) in cases {
        let mut toks = vec![func("inset")];
        toks.extend(args);
        toks.push(Token::CloseParen);
        let shape = parse_shape(toks, AllowedBasicShapes::all(), ShapeType::Filled, ctx())
            .unwrap();
        match shape {
            BasicShape::Rect(BasicShapeRect::Inset(i)) => {
                assert_eq!(i.rect.top, LengthPercentage::Length(expect[0]));
                assert_eq!(i.rect.right, LengthPercentage::Length(expect[1]));
                assert_eq!(i.rect.bottom, LengthPercentage::Length(expect[2]));
                assert_eq!(i.rect.left, LengthPercentage::Length(expect[3]));
            },
            _ => panic!("expected inset"),
        }
    }
}

#[test]
fn inset_round_radius_expansion() {
    let toks = vec![
        func("inset"),
        px(1),
        ident("round"),
        px(5),
        px(6),
        Token::CloseParen,
    ];
    let shape = parse_shape(toks, AllowedBasicShapes::all(), ShapeType::Filled, ctx()).unwrap();
    match shape {
        BasicShape::Rect(BasicShapeRect::Inset(i)) => {
            let five = NonNegativeLengthPercentage(LengthPercentage::Length(5));
            let six = NonNegativeLengthPercentage(LengthPercentage::Length(6));
            assert_eq!(i.round.top_left, five);
            assert_eq!(i.round.top_right, six);
            assert_eq!(i.round.bottom_right, five);
            assert_eq!(i.round.bottom_left, six);
        },
        _ => panic!("expected inset"),
    }
}

#[test]
fn inset_round_keyword_without_radius_fails() {
    let toks = vec![func("inset"), px(1), ident("round"), Token::CloseParen];
    assert!(parse_shape(toks, AllowedBasicShapes::all(), ShapeType::Filled, ctx()).is_err());
}

#[test]
fn xywh_rejects_negative_size() {
    let toks = vec![func("xywh"), px(1), px(2), px(-3), px(4), Token::CloseParen];
    assert!(parse_shape(toks, AllowedBasicShapes::all(), ShapeType::Filled, ctx()).is_err());
    let toks2 = vec![func("xywh"), px(-1), px(-2), px(3), px(4), Token::CloseParen];
    assert!(parse_shape(toks2, AllowedBasicShapes::all(), ShapeType::Filled, ctx()).is_ok());
}

#[test]
fn out_of_range_magnitudes_are_rejected() {
    let toks = vec![func("inset"), px(2_000_000_000), Token::CloseParen];
    assert!(parse_shape(toks, AllowedBasicShapes::all(), ShapeType::Filled, ctx()).is_err());
}

#[test]
fn unitless_zero_is_a_zero_length() {
    let toks = vec![func("inset"), Token::Number(0), Token::CloseParen];
    let shape = parse_shape(toks, AllowedBasicShapes::all(), ShapeType::Filled, ctx()).unwrap();
    match shape {
        BasicShape::Rect(BasicShapeRect::Inset(i)) => {
            assert_eq!(i.rect.top, LengthPercentage::Length(0));
        },
        _ => panic!("expected inset"),
    }
    let toks2 = vec![func("inset"), Token::Number(3), Token::CloseParen];
    assert!(parse_shape(toks2, AllowedBasicShapes::all(), ShapeType::Filled, ctx()).is_err());
}

#[test]
fn circle_defaults_radius_and_position() {
    let toks = vec![func("circle"), Token::CloseParen];
    let shape = parse_shape(toks, AllowedBasicShapes::all(), ShapeType::Filled, ctx()).unwrap();
    match shape {
        BasicShape::Circle(c) => {
            assert_eq!(c.radius, ShapeRadius::ClosestSide);
            match c.position {
                PositionOrAuto::Position(p) => {
                    assert_eq!(p.horizontal, LengthPercentage::Percentage(50));
                    assert_eq!(p.vertical, LengthPercentage::Percentage(50));
                },
                _ => panic!("expected center position"),
            }
        },
        _ => panic!("expected circle"),
    }
}

#[test]
fn circle_contextual_default_position_is_auto() {
    let toks = vec![func("circle"), Token::CloseParen];
    let mut c = TokenCursor::new(toks);
    let context = ctx();
    let shape = BasicShape::parse(
        &mut c,
        &context,
        AllowedBasicShapes::all(),
        ShapeType::Outline,
        DefaultPosition::Context,
    )
    .unwrap();
    match shape {
        BasicShape::Circle(circle) => assert_eq!(circle.position, PositionOrAuto::Auto),
        _ => panic!("expected circle"),
    }
}

#[test]
fn circle_with_radius_and_position() {
    let toks = vec![
        func("circle"),
        ident("farthest-side"),
        ident("at"),
        pct(10),
        pct(20),
        Token::CloseParen,
    ];
    let shape = parse_shape(toks, AllowedBasicShapes::all(), ShapeType::Filled, ctx()).unwrap();
    match shape {
        BasicShape::Circle(c) => {
            assert_eq!(c.radius, ShapeRadius::FarthestSide);
            match c.position {
                PositionOrAuto::Position(p) => {
                    assert_eq!(p.horizontal, LengthPercentage::Percentage(10));
                    assert_eq!(p.vertical, LengthPercentage::Percentage(20));
                },
                _ => panic!("expected position"),
            }
        },
        _ => panic!("expected circle"),
    }
}

#[test]
fn ellipse_radii_come_pairwise_or_not_at_all() {
    let toks = vec![func("ellipse"), px(5), px(6), Token::CloseParen];
    let shape = parse_shape(toks, AllowedBasicShapes::all(), ShapeType::Filled, ctx()).unwrap();
    match shape {
        BasicShape::Ellipse(e) => {
            assert_eq!(
                e.semiaxis_x,
                ShapeRadius::Length(NonNegativeLengthPercentage(LengthPercentage::Length(5)))
            );
            assert_eq!(
                e.semiaxis_y,
                ShapeRadius::Length(NonNegativeLengthPercentage(LengthPercentage::Length(6)))
            );
        },
        _ => panic!("expected ellipse"),
    }
    // A single radius cannot stand: the pair attempt rolls back and the
    // leftover token is not part of any production.
    let toks2 = vec![func("ellipse"), px(5), Token::CloseParen];
    assert!(parse_shape(toks2, AllowedBasicShapes::all(), ShapeType::Filled, ctx()).is_err());
}

#[test]
fn clip_path_none_url_and_bare_box() {
    let context = ctx();
    let mut c1 = TokenCursor::new(vec![ident("none")]);
    assert_eq!(ClipPath::parse(&mut c1, &context).unwrap(), ClipPath::NoneKeyword);

    let mut c2 = TokenCursor::new(vec![Token::Url(b"http".to_vec())]);
    match ClipPath::parse(&mut c2, &context).unwrap() {
        ClipPath::Url(u) => assert_eq!(u.0, b"http".to_vec()),
        _ => panic!("expected url"),
    }

    let mut c3 = TokenCursor::new(vec![ident("fill-box")]);
    assert_eq!(
        ClipPath::parse(&mut c3, &context).unwrap(),
        ClipPath::ReferenceBox(GeometryBox::FillBox)
    );

    let mut c4 = TokenCursor::new(Vec::new());
    assert!(ClipPath::parse(&mut c4, &context).is_err());
}

#[test]
fn clip_path_shape_without_box_defaults_to_border_box() {
    let context = ctx();
    let mut c = TokenCursor::new(vec![func("circle"), Token::CloseParen]);
    match ClipPath::parse(&mut c, &context).unwrap() {
        ClipPath::Shape(_, gb) => assert_eq!(gb, GeometryBox::BorderBox),
        _ => panic!("expected shape"),
    }
}

#[test]
fn shape_outside_subset_rejects_path_and_xywh() {
    let context = ctx();
    let mut c = TokenCursor::new(vec![
        func("path"),
        Token::QuotedString(b"M0 0".to_vec()),
        Token::CloseParen,
    ]);
    assert!(ShapeOutside::parse(&mut c, &context).is_err());

    let mut c2 = TokenCursor::new(vec![func("xywh"), px(1), px(2), px(3), px(4), Token::CloseParen]);
    assert!(ShapeOutside::parse(&mut c2, &context).is_err());

    let mut c3 = TokenCursor::new(vec![func("circle"), Token::CloseParen]);
    match ShapeOutside::parse(&mut c3, &context).unwrap() {
        ShapeOutside::Shape(_, sb) => assert_eq!(sb, ShapeBox::MarginBox),
        _ => panic!("expected shape"),
    }
}

#[test]
fn shape_outside_box_is_shape_box_only() {
    let context = ctx();
    // fill-box is a geometry box but not a shape box.
    let mut c = TokenCursor::new(vec![ident("fill-box")]);
    assert!(ShapeOutside::parse(&mut c, &context).is_err());
    let mut c2 = TokenCursor::new(vec![ident("content-box")]);
    assert_eq!(
        ShapeOutside::parse(&mut c2, &context).unwrap(),
        ShapeOutside::ReferenceBox(ShapeBox::ContentBox)
    );
}

#[test]
fn shape_outside_none_and_image() {
    let context = ctx();
    let mut c1 = TokenCursor::new(vec![ident("none")]);
    assert_eq!(ShapeOutside::parse(&mut c1, &context).unwrap(), ShapeOutside::NoneKeyword);
    let mut c2 = TokenCursor::new(vec![Token::Url(b"img.png".to_vec())]);
    match ShapeOutside::parse(&mut c2, &context).unwrap() {
        ShapeOutside::Image(i) => assert_eq!(i.0, b"img.png".to_vec()),
        _ => panic!("expected image"),
    }
}

#[test]
fn failed_parse_restores_cursor_exactly() {
    let toks = vec![func("inset"), ident("round"), Token::CloseParen];
    let mut c = TokenCursor::new(toks);
    let context = ctx();
    let before = c.position();
    let err = BasicShape::parse(
        &mut c,
        &context,
        AllowedBasicShapes::all(),
        ShapeType::Filled,
        DefaultPosition::Center,
    )
    .unwrap_err();
    // An argument-grammar failure is the plain mismatch error, not the
    // unrecognized-function one.
    assert!(matches!(err.kind, StyleParseErrorKind::UnspecifiedError));
    assert_eq!(c.position(), before);
}

#[test]
fn trailing_tokens_inside_arguments_are_an_error() {
    let toks = vec![func("circle"), px(5), ident("extra"), Token::CloseParen];
    assert!(parse_shape(toks, AllowedBasicShapes::all(), ShapeType::Filled, ctx()).is_err());
}

#[test]
fn standalone_function_parsers_check_their_name() {
    let mut c = TokenCursor::new(vec![func("inset"), px(1), Token::CloseParen]);
    assert!(InsetRect::parse(&mut c).is_ok());
    let mut c2 = TokenCursor::new(vec![func("circle"), Token::CloseParen]);
    assert!(InsetRect::parse(&mut c2).is_err());
    let mut c3 = TokenCursor::new(vec![func("circle"), Token::CloseParen]);
    assert!(css_shapes::basic_shape::Circle::parse(&mut c3).is_ok());
    let mut c4 = TokenCursor::new(vec![func("ellipse"), Token::CloseParen]);
    assert!(Ellipse::parse(&mut c4).is_ok());
    let mut c5 = TokenCursor::new(vec![func("polygon"), px(0), px(0), Token::CloseParen]);
    assert!(Polygon::parse(&mut c5).is_ok());
}

#[test]
fn polygon_trailing_comma_fails() {
    let toks = vec![func("polygon"), px(0), px(0), Token::Comma, Token::CloseParen];
    assert!(parse_shape(toks, AllowedBasicShapes::all(), ShapeType::Filled, ctx()).is_err());
}

#[test]
fn capability_sets_have_expected_members() {
    let all = AllowedBasicShapes::all();
    assert!(all.inset && all.xywh && all.circle && all.ellipse && all.polygon && all.path);
    let so = AllowedBasicShapes::shape_outside();
    assert!(so.inset && so.circle && so.ellipse && so.polygon);
    assert!(!so.xywh && !so.path);
}

#[test]
fn path_and_xywh_args_via_their_own_entry_points() {
    let mut c = TokenCursor::new(vec![Token::QuotedString(b"M0 0".to_vec()), Token::CloseParen]);
    let p = Path::parse_function_arguments(&mut c, ShapeType::Filled).unwrap();
    assert_eq!(p.fill, FillRule::Nonzero);
    let mut c2 = TokenCursor::new(vec![px(1), px(2), px(3), px(4), Token::CloseParen]);
    let w = Xywh::parse_function_arguments(&mut c2).unwrap();
    assert_eq!(w.x, LengthPercentage::Length(1));
    assert_eq!(w.height, NonNegativeLengthPercentage(LengthPercentage::Length(4)));
}
