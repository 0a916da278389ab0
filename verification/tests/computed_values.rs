use css_shapes::basic_shape::{
    AllowedBasicShapes, BasicShape, BasicShapeRect, DefaultPosition, InsetRect, ParserContext,
    ShapeType, Xywh,
};
use css_shapes::tokens::{Token, TokenCursor};
use css_shapes::values::{
    BorderRadius, ComputedBorderRadius, ComputedInsetRect, ComputedLengthPercentage,
    LengthPercentage, NonNegativeLengthPercentage, Rect,
};

fn px(v: i64) -> Token {
    Token::Dimension { value: v, unit: b"px".to_vec() }
}

fn clp(px: i64, pct: i64) -> ComputedLengthPercentage {
    ComputedLengthPercentage { px, pct }
}

fn zero_round() -> ComputedBorderRadius {
    ComputedBorderRadius {
        top_left: clp(0, 0),
        top_right: clp(0, 0),
        bottom_right: clp(0, 0),
        bottom_left: clp(0, 0),
    }
}

fn parse_rect_shape(toks: Vec<Token>) -> BasicShapeRect {
    let mut c = TokenCursor::new(toks);
    let context = ParserContext { xywh_enabled: true };
    match BasicShape::parse(
        &mut c,
        &context,
        AllowedBasicShapes::all(),
        ShapeType::Filled,
        DefaultPosition::Center,
    )
    .unwrap()
    {
        BasicShape::Rect(r) => r,
        _ => panic!("expected a rectangle shape"),
    }
}

#[test]
fn xywh_lowers_to_the_equivalent_inset() {
    // xywh(10px 20px 30px 40px) computes to
    // inset(20px calc(100% - 10px - 30px) calc(100% - 20px - 40px) 10px).
    let shape = parse_rect_shape(vec![
        Token::Function(b"xywh".to_vec()),
        px(10),
        px(20),
        px(30),
        px(40),
        Token::CloseParen,
    ]);
    let computed = shape.to_computed_value();
    let expected = ComputedInsetRect {
        rect: Rect {
            top: clp(20, 0),
            right: clp(-40, 100),
            bottom: clp(-60, 100),
            left: clp(10, 0),
        },
        round: zero_round(),
    };
    assert_eq!(computed, expected);

    // The inset() that spells the same geometry computes to the same
    // structure.
    let equivalent = InsetRect {
        rect: Rect {
            top: LengthPercentage::Length(20),
            right: LengthPercentage::Calc { px: -40, pct: 100 },
            bottom: LengthPercentage::Calc { px: -60, pct: 100 },
            left: LengthPercentage::Length(10),
        },
        round: BorderRadius::zero(),
    };
    assert_eq!(BasicShapeRect::Inset(equivalent).to_computed_value(), expected);
}

#[test]
fn xywh_with_percentages_stays_symbolic() {
    let shape = parse_rect_shape(vec![
        Token::Function(b"xywh".to_vec()),
        Token::Percentage(10),
        px(20),
        Token::Percentage(30),
        px(40),
        Token::CloseParen,
    ]);
    let computed = shape.to_computed_value();
    // right = 100% - 10% - 30% = calc(60%); bottom = 100% - 20px - 40px.
    assert_eq!(computed.rect.right, clp(0, 60));
    assert_eq!(computed.rect.bottom, clp(-60, 100));
    assert_eq!(computed.rect.top, clp(20, 0));
    assert_eq!(computed.rect.left, clp(0, 10));
}

#[test]
fn inset_resolves_offsets_in_edge_order() {
    let shape = parse_rect_shape(vec![
        Token::Function(b"inset".to_vec()),
        px(1),
        px(2),
        px(3),
        px(4),
        Token::Ident(b"round".to_vec()),
        px(5),
        Token::CloseParen,
    ]);
    let computed = shape.to_computed_value();
    assert_eq!(computed.rect.top, clp(1, 0));
    assert_eq!(computed.rect.right, clp(2, 0));
    assert_eq!(computed.rect.bottom, clp(3, 0));
    assert_eq!(computed.rect.left, clp(4, 0));
    assert_eq!(computed.round.top_left, clp(5, 0));
    assert_eq!(computed.round.bottom_left, clp(5, 0));
}

#[test]
fn from_computed_always_reconstructs_inset() {
    // Whatever the specified shape was, the way back is inset().
    let shape = parse_rect_shape(vec![
        Token::Function(b"xywh".to_vec()),
        px(10),
        px(20),
        px(30),
        px(40),
        Token::CloseParen,
    ]);
    let computed = shape.to_computed_value();
    let back = BasicShapeRect::from_computed_value(&computed);
    match back {
        BasicShapeRect::Inset(i) => {
            assert_eq!(i.rect.top, LengthPercentage::Length(20));
            assert_eq!(i.rect.right, LengthPercentage::Calc { px: -40, pct: 100 });
            assert_eq!(i.rect.bottom, LengthPercentage::Calc { px: -60, pct: 100 });
            assert_eq!(i.rect.left, LengthPercentage::Length(10));
        },
        BasicShapeRect::Xywh(_) => panic!("canonicalization must be one-way"),
    }
    // And an inset comes back as inset too.
    let inset = parse_rect_shape(vec![
        Token::Function(b"inset".to_vec()),
        px(1),
        Token::CloseParen,
    ]);
    let c2 = inset.to_computed_value();
    assert!(matches!(
        BasicShapeRect::from_computed_value(&c2),
        BasicShapeRect::Inset(_)
    ));
}

#[test]
fn computed_value_round_trips_through_inset() {
    // from_computed reconstructs a specified value that resolves to the
    // same computed rectangle.
    let original = ComputedInsetRect {
        rect: Rect {
            top: clp(7, 0),
            right: clp(-3, 100),
            bottom: clp(0, 25),
            left: clp(0, 0),
        },
        round: zero_round(),
    };
    let back = BasicShapeRect::from_computed_value(&original);
    assert_eq!(back.to_computed_value(), original);
}

#[test]
fn length_percentage_computed_forms() {
    assert_eq!(LengthPercentage::Length(7).to_computed_value(), clp(7, 0));
    assert_eq!(LengthPercentage::Percentage(30).to_computed_value(), clp(0, 30));
    assert_eq!(
        LengthPercentage::Calc { px: 3, pct: 4 }.to_computed_value(),
        clp(3, 4)
    );
    assert_eq!(
        LengthPercentage::from_computed_value(&clp(7, 0)),
        LengthPercentage::Length(7)
    );
    assert_eq!(
        LengthPercentage::from_computed_value(&clp(0, 9)),
        LengthPercentage::Percentage(9)
    );
    assert_eq!(
        LengthPercentage::from_computed_value(&clp(2, 9)),
        LengthPercentage::Calc { px: 2, pct: 9 }
    );
    let a = clp(10, 0);
    let b = clp(30, 0);
    assert_eq!(
        LengthPercentage::hundred_percent_minus_pair(&a, &b),
        clp(-40, 100)
    );
}

#[test]
fn nonzero_rounding_survives_the_lowering() {
    let w = Xywh {
        x: LengthPercentage::Length(1),
        y: LengthPercentage::Length(2),
        width: NonNegativeLengthPercentage(LengthPercentage::Length(3)),
        height: NonNegativeLengthPercentage(LengthPercentage::Length(4)),
        round: BorderRadius {
            top_left: NonNegativeLengthPercentage(LengthPercentage::Length(9)),
            top_right: NonNegativeLengthPercentage(LengthPercentage::Percentage(8)),
            bottom_right: NonNegativeLengthPercentage(LengthPercentage::Length(7)),
            bottom_left: NonNegativeLengthPercentage(LengthPercentage::Length(6)),
        },
    };
    let computed = BasicShapeRect::Xywh(w).to_computed_value();
    assert_eq!(computed.round.top_left, clp(9, 0));
    assert_eq!(computed.round.top_right, clp(0, 8));
    assert_eq!(computed.round.bottom_right, clp(7, 0));
    assert_eq!(computed.round.bottom_left, clp(6, 0));
}
