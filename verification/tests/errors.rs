use reg_enum::ast::SpecError;
use reg_enum::compile::compile;
use reg_enum::parser::parse;
use reg_enum::reg_enum;
use reg_enum::token::Token;

fn ident(s: &str) -> Token {
    Token::Ident(s.to_string())
}

fn num(n: u64) -> Token {
    Token::Num(n)
}

fn parse_err(tokens: &Vec<Token>) -> SpecError {
    match parse(tokens) {
        Err(e) => e,
        Ok(_) => panic!("expected a parse error"),
    }
}

/// `<name>, <ty>, {` followed by `body` and `}`.
fn decl(ty: &str, body: Vec<Token>) -> Vec<Token> {
    let mut tokens = vec![
        ident("T"),
        Token::Comma,
        ident(ty),
        Token::Comma,
        Token::LBrace,
    ];
    tokens.extend(body);
    tokens.push(Token::RBrace);
    tokens
}

#[test]
fn empty_input_is_syntax_error() {
    assert_eq!(parse_err(&vec![]), SpecError::Syntax { pos: 0 });
}

#[test]
fn missing_first_comma() {
    let tokens = vec![ident("T")];
    assert_eq!(parse_err(&tokens), SpecError::Syntax { pos: 1 });
}

#[test]
fn missing_underlying_type() {
    let tokens = vec![ident("T"), Token::Comma, Token::Comma];
    assert_eq!(parse_err(&tokens), SpecError::Syntax { pos: 2 });
}

#[test]
fn missing_brace() {
    let tokens = vec![ident("T"), Token::Comma, ident("u8"), Token::Comma, ident("RED")];
    assert_eq!(parse_err(&tokens), SpecError::Syntax { pos: 4 });
}

#[test]
fn empty_entry_list_is_syntax_error() {
    let tokens = vec![
        ident("T"),
        Token::Comma,
        ident("u8"),
        Token::Comma,
        Token::LBrace,
        Token::RBrace,
    ];
    assert_eq!(parse_err(&tokens), SpecError::Syntax { pos: 5 });
}

#[test]
fn missing_entry_value() {
    // `T, u8, { RED = }`: the brace closes where a value or a range was due.
    let tokens = decl("u8", vec![ident("RED"), Token::Equals]);
    assert_eq!(parse_err(&tokens), SpecError::Syntax { pos: 7 });
}

#[test]
fn range_with_two_integers_only() {
    // `T, u8, { RED = [1, 2] }`: the bracket closes where the second comma was due.
    let tokens = decl(
        "u8",
        vec![
            ident("RED"),
            Token::Equals,
            Token::LBracket,
            num(1),
            Token::Comma,
            num(2),
            Token::RBracket,
        ],
    );
    assert_eq!(parse_err(&tokens), SpecError::Syntax { pos: 11 });
}

#[test]
fn unterminated_entry_list() {
    // `T, u8, { RED = 1`: the input ends where `,` or `}` was due.
    let tokens = vec![
        ident("T"),
        Token::Comma,
        ident("u8"),
        Token::Comma,
        Token::LBrace,
        ident("RED"),
        Token::Equals,
        num(1),
    ];
    assert_eq!(parse_err(&tokens), SpecError::Syntax { pos: 8 });
}

#[test]
fn trailing_tokens_rejected() {
    let mut tokens = decl("u8", vec![ident("RED"), Token::Equals, num(1)]);
    let after_close = tokens.len();
    tokens.push(ident("X"));
    assert_eq!(parse_err(&tokens), SpecError::Syntax { pos: after_close });
}

#[test]
fn invalid_range_start_past_end() {
    // Y = [0, 5, 3] must fail with InvalidRange and produce no output.
    let tokens = decl(
        "u8",
        vec![
            ident("Y"),
            Token::Equals,
            Token::LBracket,
            num(0),
            Token::Comma,
            num(5),
            Token::Comma,
            num(3),
            Token::RBracket,
        ],
    );
    assert_eq!(reg_enum(&tokens), Err(SpecError::InvalidRange { entry: 0 }));
}

#[test]
fn plain_value_overflow() {
    let tokens = decl("u8", vec![ident("X"), Token::Equals, num(256)]);
    assert_eq!(reg_enum(&tokens), Err(SpecError::Overflow { entry: 0 }));
}

#[test]
fn range_overflow() {
    // X = [250, 0, 10] on u8: 250 + 10 exceeds 255.
    let tokens = decl(
        "u8",
        vec![
            ident("X"),
            Token::Equals,
            Token::LBracket,
            num(250),
            Token::Comma,
            num(0),
            Token::Comma,
            num(10),
            Token::RBracket,
        ],
    );
    assert_eq!(reg_enum(&tokens), Err(SpecError::Overflow { entry: 0 }));
}

#[test]
fn overflow_reports_offending_entry() {
    let tokens = decl(
        "u8",
        vec![
            ident("A"),
            Token::Equals,
            num(1),
            Token::Comma,
            ident("B"),
            Token::Equals,
            num(300),
        ],
    );
    assert_eq!(reg_enum(&tokens), Err(SpecError::Overflow { entry: 1 }));
}

#[test]
fn earliest_entry_error_wins() {
    // Entry 0 has an invalid range, entry 1 overflows: entry 0 is reported.
    let tokens = decl(
        "u8",
        vec![
            ident("X"),
            Token::Equals,
            Token::LBracket,
            num(5),
            Token::Comma,
            num(3),
            Token::Comma,
            num(1),
            Token::RBracket,
            Token::Comma,
            ident("Y"),
            Token::Equals,
            num(300),
        ],
    );
    assert_eq!(reg_enum(&tokens), Err(SpecError::InvalidRange { entry: 0 }));
}

#[test]
fn invalid_range_checked_before_overflow() {
    // X = [300, 5, 3] on u8: the backwards range is reported, not the value.
    let tokens = decl(
        "u8",
        vec![
            ident("X"),
            Token::Equals,
            Token::LBracket,
            num(300),
            Token::Comma,
            num(5),
            Token::Comma,
            num(3),
            Token::RBracket,
        ],
    );
    assert_eq!(reg_enum(&tokens), Err(SpecError::InvalidRange { entry: 0 }));
}

#[test]
fn width_boundaries_of_recognised_types() {
    let ok_u8 = decl("u8", vec![ident("X"), Token::Equals, num(255)]);
    assert!(reg_enum(&ok_u8).is_ok());
    let ok_u16 = decl("u16", vec![ident("X"), Token::Equals, num(65535)]);
    assert!(reg_enum(&ok_u16).is_ok());
    let bad_u16 = decl("u16", vec![ident("X"), Token::Equals, num(65536)]);
    assert_eq!(reg_enum(&bad_u16), Err(SpecError::Overflow { entry: 0 }));
    let ok_u32 = decl("u32", vec![ident("X"), Token::Equals, num(0xffff_ffff)]);
    assert!(reg_enum(&ok_u32).is_ok());
    let bad_u32 = decl("u32", vec![ident("X"), Token::Equals, num(0x1_0000_0000)]);
    assert_eq!(reg_enum(&bad_u32), Err(SpecError::Overflow { entry: 0 }));
}

#[test]
fn unrecognised_type_gets_full_width() {
    let tokens = decl("u64", vec![ident("X"), Token::Equals, num(u64::MAX)]);
    assert!(reg_enum(&tokens).is_ok());
    let other = decl("Mine", vec![ident("X"), Token::Equals, num(u64::MAX)]);
    assert!(reg_enum(&other).is_ok());
}

#[test]
fn duplicate_raw_value_rejected() {
    let tokens = decl(
        "u8",
        vec![
            ident("A"),
            Token::Equals,
            num(1),
            Token::Comma,
            ident("B"),
            Token::Equals,
            num(1),
        ],
    );
    assert_eq!(reg_enum(&tokens), Err(SpecError::DuplicateVariant));
}

#[test]
fn duplicate_identifier_after_expansion_rejected() {
    // A1 = 5 collides with the A1 that A = [6, 1, 1] expands to (raw 7).
    let tokens = decl(
        "u8",
        vec![
            ident("A1"),
            Token::Equals,
            num(5),
            Token::Comma,
            ident("A"),
            Token::Equals,
            Token::LBracket,
            num(6),
            Token::Comma,
            num(1),
            Token::Comma,
            num(1),
            Token::RBracket,
        ],
    );
    assert_eq!(reg_enum(&tokens), Err(SpecError::DuplicateVariant));
}

#[test]
fn parsed_entries_carry_ranges() {
    let tokens = decl(
        "u8",
        vec![
            ident("RED"),
            Token::Equals,
            num(1),
            Token::Comma,
            ident("GREEN"),
            Token::Equals,
            Token::LBracket,
            num(2),
            Token::Comma,
            num(0),
            Token::Comma,
            num(2),
            Token::RBracket,
        ],
    );
    let spec = parse(&tokens).unwrap();
    assert!(spec.name == "T");
    assert!(spec.underlying_type == "u8");
    assert_eq!(spec.entries.len(), 2);
    assert!(spec.entries[0].name == "RED");
    assert!(spec.entries[0].base_value == 1);
    assert!(spec.entries[0].range.is_none());
    assert!(spec.entries[1].name == "GREEN");
    assert!(spec.entries[1].base_value == 2);
    assert!(spec.entries[1].range == Some((0, 2)));
}

#[test]
fn entry_debug_strings() {
    let tokens = decl(
        "u8",
        vec![
            ident("RED"),
            Token::Equals,
            num(1),
            Token::Comma,
            ident("GREEN"),
            Token::Equals,
            Token::LBracket,
            num(2),
            Token::Comma,
            num(0),
            Token::Comma,
            num(2),
            Token::RBracket,
        ],
    );
    let spec = parse(&tokens).unwrap();
    assert_eq!(spec.entries[0].debug_string(), "{ name: RED, value: 1 }");
    assert_eq!(
        spec.entries[1].debug_string(),
        "{ name: GREEN, value: 2, start: 0, end: 2 }"
    );
    assert_eq!(
        spec.debug_string(),
        "EnumSpec { name: T, type: u8 }\n  { name: RED, value: 1 }\n  { name: GREEN, value: 2, start: 0, end: 2 }\n"
    );
}

#[test]
fn compile_rejects_without_partial_output() {
    let tokens = decl("u8", vec![ident("X"), Token::Equals, num(256)]);
    let spec = parse(&tokens).unwrap();
    match compile(&spec) {
        Err(e) => assert_eq!(e, SpecError::Overflow { entry: 0 }),
        Ok(_) => panic!("expected a compile error"),
    }
}
