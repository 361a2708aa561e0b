use compiler_core::lexer::{tokenize, Lexer};
use compiler_core::token::{LexerError, NumericHint, PunctuationKind, TokenType};

fn tokens(text: &str) -> Result<Vec<TokenType>, LexerError> {
    Lexer::new(text).tokenize_all()
}

fn punct(raw: char, kind: PunctuationKind) -> TokenType {
    TokenType::Punctuation { raw, kind }
}

#[test]
fn test_simple_number() {
    let mut lexer = Lexer::new("123");
    let token = lexer.next_token().unwrap();
    match token {
        TokenType::Numero { raw, kind } => {
            assert_eq!(raw, "123");
            assert_eq!(kind, NumericHint::Integer);
        }
        _ => panic!("Expected number token"),
    }
}

#[test]
fn test_boolean_true() {
    let mut lexer = Lexer::new("true");
    let token = lexer.next_token().unwrap();
    assert_eq!(token, TokenType::Boolean(true));
}

#[test]
fn test_string_literal() {
    let mut lexer = Lexer::new("\"hello\"");
    let token = lexer.next_token().unwrap();
    assert_eq!(token, TokenType::Cadena("hello".to_string()));
}

#[test]
fn test_peek_and_next_token() {
    let mut lexer = Lexer::new("42");
    let peeked = lexer.peek_token().unwrap();
    let next = lexer.next_token().unwrap();
    assert_eq!(peeked, next);
}

#[test]
fn test_balanced_symbols() {
    let mut lexer = Lexer::new("({[]})");
    let tokens = lexer.tokenize_all().unwrap();
    assert_eq!(tokens.len(), 6);
}

#[test]
fn bracket_depths_are_recorded() {
    let got = tokens("(()[])").unwrap();
    assert_eq!(
        got,
        vec![
            punct('(', PunctuationKind::Open(0)),
            punct('(', PunctuationKind::Open(1)),
            punct(')', PunctuationKind::Close(1)),
            punct('[', PunctuationKind::Open(0)),
            punct(']', PunctuationKind::Close(0)),
            punct(')', PunctuationKind::Close(0)),
        ]
    );
}

#[test]
fn balanced_single_family_ends_at_depth_zero() {
    let mut lexer = Lexer::new("(()(()))");
    let got = lexer.tokenize_all().unwrap();
    assert_eq!(got.len(), 8);
    assert_eq!(got[7], punct(')', PunctuationKind::Close(0)));
    assert_eq!(lexer.next_token().unwrap(), TokenType::EOF);
}

#[test]
fn extra_closer_fails_at_that_closer() {
    let mut lexer = Lexer::new("())()");
    match lexer.tokenize_all() {
        Err(LexerError::MissbalancedSymbols { symbol, open }) => {
            assert_eq!(symbol, ')');
            assert_eq!(open, '(');
        }
        other => panic!("unexpected {:?}", other),
    }
    assert_eq!(lexer.position_offset, 3);
}

#[test]
fn mismatched_square_bracket_is_reported() {
    let mut lexer = Lexer::new("(()[]]");
    match lexer.tokenize_all() {
        Err(LexerError::MissbalancedSymbols { symbol, open }) => {
            assert_eq!(symbol, ']');
            assert_eq!(open, '[');
        }
        other => panic!("unexpected {:?}", other),
    }
    assert_eq!(lexer.position_offset, 6);
}

#[test]
fn interleaved_families_are_not_detected() {
    assert_eq!(tokens("([)]").unwrap().len(), 4);
}

#[test]
fn float_with_dot() {
    assert_eq!(
        tokens("3.14").unwrap(),
        vec![TokenType::Numero { raw: "3.14".to_string(), kind: NumericHint::Float }]
    );
}

#[test]
fn float_with_signed_exponent_keeps_raw_text() {
    assert_eq!(
        tokens("1.5e-30").unwrap(),
        vec![TokenType::Numero { raw: "1.5e-30".to_string(), kind: NumericHint::Float }]
    );
    assert_eq!(
        tokens("2E10").unwrap(),
        vec![TokenType::Numero { raw: "2E10".to_string(), kind: NumericHint::Float }]
    );
}

#[test]
fn exponent_without_digit_fails() {
    match tokens("1e+") {
        Err(LexerError::InvalidNumeric { raw }) => assert_eq!(raw, "1e+"),
        other => panic!("unexpected {:?}", other),
    }
    match tokens("7ex") {
        Err(LexerError::InvalidNumeric { raw }) => assert_eq!(raw, "7e"),
        other => panic!("unexpected {:?}", other),
    }
}

#[test]
fn letter_inside_number_fails() {
    match tokens("12ab") {
        Err(LexerError::InvalidNumeric { raw }) => assert_eq!(raw, "12a"),
        other => panic!("unexpected {:?}", other),
    }
}

#[test]
fn second_dot_ends_the_number() {
    let mut lexer = Lexer::new("1.2.3");
    assert_eq!(
        lexer.next_token().unwrap(),
        TokenType::Numero { raw: "1.2".to_string(), kind: NumericHint::Float }
    );
    match lexer.next_token() {
        Err(LexerError::UnknownSymbol { symbol }) => assert_eq!(symbol, "."),
        other => panic!("unexpected {:?}", other),
    }
}

#[test]
fn escaped_quote_round_trips() {
    assert_eq!(tokens("\"a\\\"b\"").unwrap(), vec![TokenType::Cadena("a\"b".to_string())]);
    assert_eq!(tokens("\"x\\\\y\\n\"").unwrap(), vec![TokenType::Cadena("x\\yn".to_string())]);
}

#[test]
fn unterminated_string_fails() {
    assert!(matches!(tokens("\"abc"), Err(LexerError::UnterminatedLiteral)));
    assert!(matches!(tokens("\"abc\\"), Err(LexerError::UnterminatedLiteral)));
}

#[test]
fn unknown_symbol_fails() {
    match tokens("a @ b") {
        Err(LexerError::UnknownSymbol { symbol }) => assert_eq!(symbol, "@"),
        other => panic!("unexpected {:?}", other),
    }
}

#[test]
fn operators_take_two_characters_when_known() {
    let ops: Vec<String> = tokens("== != <= >= && || ++ -- < > = ! + - * / & |")
        .unwrap()
        .into_iter()
        .map(|t| match t {
            TokenType::Operator(s) => s,
            other => panic!("unexpected {:?}", other),
        })
        .collect();
    assert_eq!(
        ops,
        vec!["==", "!=", "<=", ">=", "&&", "||", "++", "--", "<", ">", "=", "!", "+", "-", "*", "/", "&", "|"]
    );
    assert_eq!(
        tokens("=<").unwrap(),
        vec![TokenType::Operator("=".to_string()), TokenType::Operator("<".to_string())]
    );
}

#[test]
fn identifiers_and_booleans() {
    assert_eq!(
        tokens("_x1 false truex").unwrap(),
        vec![
            TokenType::Identificador("_x1".to_string()),
            TokenType::Boolean(false),
            TokenType::Identificador("truex".to_string()),
        ]
    );
}

#[test]
fn separators() {
    assert_eq!(
        tokens("a, b;").unwrap(),
        vec![
            TokenType::Identificador("a".to_string()),
            punct(',', PunctuationKind::Separator),
            TokenType::Identificador("b".to_string()),
            punct(';', PunctuationKind::Separator),
        ]
    );
}

#[test]
fn end_marker_repeats() {
    let mut lexer = Lexer::new("  \n\t ");
    assert_eq!(lexer.next_token().unwrap(), TokenType::EOF);
    assert_eq!(lexer.next_token().unwrap(), TokenType::EOF);
    assert!(tokens("").unwrap().is_empty());
}

#[test]
fn positions_follow_consumed_characters() {
    let mut lexer = Lexer::new("ab\ncd e");
    lexer.next_token().unwrap();
    assert_eq!((lexer.cur_line, lexer.cur_col, lexer.position_offset), (1, 2, 2));
    lexer.next_token().unwrap();
    assert_eq!((lexer.cur_line, lexer.cur_col, lexer.position_offset), (2, 3, 5));
    assert_eq!(lexer.consume_char(), Some(' '));
    assert_eq!(lexer.consume_char(), Some('e'));
    assert_eq!(lexer.consume_char(), None);
    assert_eq!(lexer.position_offset, 7);
}

#[test]
fn peek_leaves_the_scanner_unchanged() {
    let mut lexer = Lexer::new("(x");
    let first = lexer.peek_token().unwrap();
    assert_eq!(first, punct('(', PunctuationKind::Open(0)));
    assert_eq!(lexer.position_offset, 0);
    assert_eq!(lexer.next_token().unwrap(), first);
    assert_eq!(lexer.peek_token().unwrap(), TokenType::Identificador("x".to_string()));
}

#[test]
fn tokenizing_twice_gives_the_same_tokens() {
    let text = "f(x, 1.5e3) = \"s\\\"\"; {[y]}";
    let first = tokenize(text).unwrap();
    assert_eq!(first.len(), 14);
    assert_eq!(first, tokenize(text).unwrap());
    assert_eq!(first, tokens(text).unwrap());
}

#[test]
fn unicode_letters_are_identifier_characters() {
    assert_eq!(
        tokens("año ½").err().map(|e| format!("{:?}", e)),
        Some(format!("{:?}", LexerError::UnknownSymbol { symbol: "½".to_string() }))
    );
    assert_eq!(tokens("x½ y").unwrap()[0], TokenType::Identificador("x½".to_string()));
}
