use reg_enum::compile::compile;
use reg_enum::compile::GeneratedType;
use reg_enum::compile::Variant;
use reg_enum::parser::parse;
use reg_enum::reg_enum;
use reg_enum::semantics::RawVariant;
use reg_enum::token::Token;

fn ident(s: &str) -> Token {
    Token::Ident(s.to_string())
}

fn num(n: u64) -> Token {
    Token::Num(n)
}

/// `Color, u8, { RED = 1, GREEN = [2, 0, 2] }`
fn color_tokens() -> Vec<Token> {
    vec![
        ident("Color"),
        Token::Comma,
        ident("u8"),
        Token::Comma,
        Token::LBrace,
        ident("RED"),
        Token::Equals,
        num(1),
        Token::Comma,
        ident("GREEN"),
        Token::Equals,
        Token::LBracket,
        num(2),
        Token::Comma,
        num(0),
        Token::Comma,
        num(2),
        Token::RBracket,
        Token::RBrace,
    ]
}

#[test]
fn scenario_color_expansion() {
    let spec = parse(&color_tokens()).unwrap();
    let g = compile(&spec).unwrap();
    assert_eq!(g.name, "Color");
    assert_eq!(g.underlying_type, "u8");
    assert_eq!(g.variants.len(), 4);
    assert_eq!(g.variants[0].ident, "RED");
    assert_eq!(g.variants[0].raw, 1);
    assert_eq!(g.variants[1].ident, "GREEN0");
    assert_eq!(g.variants[1].raw, 2);
    assert_eq!(g.variants[2].ident, "GREEN1");
    assert_eq!(g.variants[2].raw, 3);
    assert_eq!(g.variants[3].ident, "GREEN2");
    assert_eq!(g.variants[3].raw, 4);
}

#[test]
fn scenario_color_conversions() {
    let g = compile(&parse(&color_tokens()).unwrap()).unwrap();
    assert_eq!(g.from_raw(3), RawVariant::Declared(2));
    assert_eq!(g.to_raw(&RawVariant::Declared(2)), 3);
    assert_eq!(g.from_raw(9), RawVariant::Other(9));
    assert_eq!(g.display_name(&RawVariant::Other(9)), "9");
}

#[test]
fn round_trip_every_declared_variant() {
    let g = compile(&parse(&color_tokens()).unwrap()).unwrap();
    for i in 0..g.variants.len() {
        let x = RawVariant::Declared(i);
        assert_eq!(g.from_raw(g.to_raw(&x)), x);
    }
}

#[test]
fn total_coverage_undeclared_values() {
    let g = compile(&parse(&color_tokens()).unwrap()).unwrap();
    for r in 0u64..256 {
        let declared = g.variants.iter().any(|v| v.raw == r);
        if !declared {
            assert_eq!(g.from_raw(r), RawVariant::Other(r));
            assert_eq!(g.to_raw(&RawVariant::Other(r)), r);
        }
    }
}

#[test]
fn range_expansion_count_and_order() {
    // A = [10, 3, 7]: five variants A3..A7 with raw values 13..17.
    let tokens = vec![
        ident("T"),
        Token::Comma,
        ident("u32"),
        Token::Comma,
        Token::LBrace,
        ident("A"),
        Token::Equals,
        Token::LBracket,
        num(10),
        Token::Comma,
        num(3),
        Token::Comma,
        num(7),
        Token::RBracket,
        Token::RBrace,
    ];
    let g = compile(&parse(&tokens).unwrap()).unwrap();
    assert_eq!(g.variants.len(), 5);
    let expected = [("A3", 13u64), ("A4", 14), ("A5", 15), ("A6", 16), ("A7", 17)];
    for (i, (id, raw)) in expected.iter().enumerate() {
        assert_eq!(g.variants[i].ident, *id);
        assert_eq!(g.variants[i].raw, *raw);
    }
}

#[test]
fn display_identity_every_declared_variant() {
    let g = compile(&parse(&color_tokens()).unwrap()).unwrap();
    for i in 0..g.variants.len() {
        let shown = g.display_name(&RawVariant::Declared(i));
        assert_eq!(shown, g.variants[i].ident);
    }
    assert_eq!(g.display_name(&RawVariant::Other(0)), "0");
    assert_eq!(
        g.display_name(&RawVariant::Other(u64::MAX)),
        "18446744073709551615"
    );
}

#[test]
fn determinism_byte_identical_output() {
    let once = reg_enum(&color_tokens()).unwrap();
    let twice = reg_enum(&color_tokens()).unwrap();
    assert_eq!(once, twice);
    assert_eq!(once.as_bytes(), twice.as_bytes());
}

#[test]
fn rendered_output_exact() {
    let text = reg_enum(&color_tokens()).unwrap();
    let expected = "#[allow(non_camel_case_types)]
pub enum Color {
    RED,
    GREEN0,
    GREEN1,
    GREEN2,
    other(u8),
}

impl Color {
    pub fn from_u8(v: u8) -> Self {
        match v {
            1 => Color::RED,
            2 => Color::GREEN0,
            3 => Color::GREEN1,
            4 => Color::GREEN2,
            _ => Color::other(v),
        }
    }

    pub fn to_u8(&self) -> u8 {
        match self {
            Color::RED => 1,
            Color::GREEN0 => 2,
            Color::GREEN1 => 3,
            Color::GREEN2 => 4,
            Color::other(x) => *x,
        }
    }

    pub fn display_name(&self) -> String {
        match self {
            Color::RED => String::from(\"RED\"),
            Color::GREEN0 => String::from(\"GREEN0\"),
            Color::GREEN1 => String::from(\"GREEN1\"),
            Color::GREEN2 => String::from(\"GREEN2\"),
            Color::other(x) => x.to_string(),
        }
    }
}
";
    assert_eq!(text, expected);
}

#[test]
fn boundary_single_element_range() {
    // X = [0, 5, 5] expands to exactly one variant X5 with raw value 5,
    // identical in effect to a plain entry X5 = 5.
    let ranged = vec![
        ident("B"),
        Token::Comma,
        ident("u8"),
        Token::Comma,
        Token::LBrace,
        ident("X"),
        Token::Equals,
        Token::LBracket,
        num(0),
        Token::Comma,
        num(5),
        Token::Comma,
        num(5),
        Token::RBracket,
        Token::RBrace,
    ];
    let plain = vec![
        ident("B"),
        Token::Comma,
        ident("u8"),
        Token::Comma,
        Token::LBrace,
        ident("X5"),
        Token::Equals,
        num(5),
        Token::RBrace,
    ];
    let gr = compile(&parse(&ranged).unwrap()).unwrap();
    assert_eq!(gr.variants.len(), 1);
    assert_eq!(gr.variants[0].ident, "X5");
    assert_eq!(gr.variants[0].raw, 5);
    let r1 = reg_enum(&ranged).unwrap();
    let r2 = reg_enum(&plain).unwrap();
    assert_eq!(r1, r2);
}

#[test]
fn trailing_comma_accepted() {
    let tokens = vec![
        ident("C"),
        Token::Comma,
        ident("u8"),
        Token::Comma,
        Token::LBrace,
        ident("RED"),
        Token::Equals,
        num(1),
        Token::Comma,
        Token::RBrace,
    ];
    let spec = parse(&tokens).unwrap();
    assert_eq!(spec.entries.len(), 1);
    assert!(spec.entries[0].name == "RED");
    assert!(spec.entries[0].base_value == 1);
    assert!(spec.entries[0].range.is_none());
}

#[test]
fn from_raw_first_match_wins() {
    // Compilation rejects duplicate raw values; in a hand-built table the
    // conversion still picks the first matching row.
    let g = GeneratedType {
        name: "T".to_string(),
        underlying_type: "u8".to_string(),
        variants: vec![
            Variant {
                ident: "A".to_string(),
                raw: 1,
            },
            Variant {
                ident: "B".to_string(),
                raw: 1,
            },
        ],
    };
    assert_eq!(g.from_raw(1), RawVariant::Declared(0));
}

#[test]
fn offset_zero_yields_base_value() {
    // GREEN = [2, 0, 2]: offset 0 yields exactly the base value.
    let g = compile(&parse(&color_tokens()).unwrap()).unwrap();
    assert_eq!(g.variants[1].ident, "GREEN0");
    assert_eq!(g.variants[1].raw, 2);
}
