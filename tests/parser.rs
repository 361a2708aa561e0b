use compiler_core::ast::ASTNode;
use compiler_core::parser::{parse_source, ParseError, Parser};
use compiler_core::token::{LexerError, PunctuationKind, TokenType};

fn parse(text: &str) -> Result<ASTNode, ParseError> {
    Parser::new(text)?.parse()
}

fn program(exprs: Vec<ASTNode>) -> ASTNode {
    ASTNode::Program {
        statements: exprs
            .into_iter()
            .map(|e| ASTNode::ExpressionStatement { expression: Box::new(e) })
            .collect(),
    }
}

fn num(v: &str) -> ASTNode {
    ASTNode::Number { value: v.to_string(), is_float: false }
}

fn id(n: &str) -> ASTNode {
    ASTNode::Identifier { name: n.to_string() }
}

fn bin(l: ASTNode, op: &str, r: ASTNode) -> ASTNode {
    ASTNode::BinaryOp { left: Box::new(l), operator: op.to_string(), right: Box::new(r) }
}

fn assign(l: ASTNode, r: ASTNode) -> ASTNode {
    ASTNode::Assignment { left: Box::new(l), right: Box::new(r) }
}

#[test]
fn multiplication_binds_tighter_than_addition() {
    assert_eq!(parse("1 + 2 * 3").unwrap(), program(vec![bin(num("1"), "+", bin(num("2"), "*", num("3")))]));
}

#[test]
fn assignment_is_right_associative() {
    assert_eq!(parse("a = b = c").unwrap(), program(vec![assign(id("a"), assign(id("b"), id("c")))]));
}

#[test]
fn arithmetic_assignment_scenario() {
    assert_eq!(
        parse("x = 5 + 3 * 2").unwrap(),
        program(vec![assign(id("x"), bin(num("5"), "+", bin(num("3"), "*", num("2"))))])
    );
}

#[test]
fn function_call_scenario() {
    assert_eq!(
        parse("func(x, y + 1)").unwrap(),
        program(vec![ASTNode::FunctionCall {
            name: "func".to_string(),
            arguments: vec![id("x"), bin(id("y"), "+", num("1"))],
        }])
    );
}

#[test]
fn call_without_arguments_and_without_commas() {
    assert_eq!(
        parse("f() g(a b)").unwrap(),
        program(vec![
            ASTNode::FunctionCall { name: "f".to_string(), arguments: vec![] },
            ASTNode::FunctionCall { name: "g".to_string(), arguments: vec![id("a"), id("b")] },
        ])
    );
}

#[test]
fn same_level_operators_associate_left() {
    assert_eq!(
        parse("1 - 2 - 3").unwrap(),
        program(vec![bin(bin(num("1"), "-", num("2")), "-", num("3"))])
    );
}

#[test]
fn logical_and_comparison_levels() {
    assert_eq!(
        parse("a > b && c <= d || !e == f").unwrap(),
        program(vec![bin(
            bin(bin(id("a"), ">", id("b")), "&&", bin(id("c"), "<=", id("d"))),
            "||",
            bin(
                ASTNode::UnaryOp { operator: "!".to_string(), operand: Box::new(id("e")) },
                "==",
                id("f")
            )
        )])
    );
}

#[test]
fn parentheses_are_kept_as_nodes() {
    assert_eq!(
        parse("result = (a + b) * c").unwrap(),
        program(vec![assign(
            id("result"),
            bin(ASTNode::Parenthesized { expression: Box::new(bin(id("a"), "+", id("b"))) }, "*", id("c"))
        )])
    );
}

#[test]
fn literals_and_unary_minus() {
    assert_eq!(
        parse("- -x; -2.5; \"s\"; true").unwrap(),
        program(vec![
            ASTNode::UnaryOp {
                operator: "-".to_string(),
                operand: Box::new(ASTNode::UnaryOp { operator: "-".to_string(), operand: Box::new(id("x")) }),
            },
            ASTNode::UnaryOp {
                operator: "-".to_string(),
                operand: Box::new(ASTNode::Number { value: "2.5".to_string(), is_float: true }),
            },
            ASTNode::String { value: "s".to_string() },
            ASTNode::Boolean { value: true },
        ])
    );
}

#[test]
fn statements_with_optional_semicolons() {
    assert_eq!(
        parse("x = 10; y = 20; result = x + y").unwrap(),
        program(vec![
            assign(id("x"), num("10")),
            assign(id("y"), num("20")),
            assign(id("result"), bin(id("x"), "+", id("y"))),
        ])
    );
    assert_eq!(parse("").unwrap(), program(vec![]));
}

#[test]
fn assignment_target_is_not_restricted() {
    assert_eq!(parse("1 = 2").unwrap(), program(vec![assign(num("1"), num("2"))]));
}

#[test]
fn parse_source_matches_parser() {
    assert_eq!(parse_source("a = b = c").unwrap(), parse("a = b = c").unwrap());
    assert!(matches!(parse_source("}"), Err(ParseError::LexerError(LexerError::MissbalancedSymbols { .. }))));
}

#[test]
fn missing_operand_at_end() {
    assert!(matches!(parse("x = "), Err(ParseError::UnexpectedEOF)));
}

#[test]
fn operator_where_an_expression_belongs() {
    match parse("* 2") {
        Err(ParseError::UnexpectedToken { expected, found }) => {
            assert_eq!(expected, "expression");
            assert_eq!(found, TokenType::Operator("*".to_string()));
        }
        other => panic!("unexpected {:?}", other),
    }
}

#[test]
fn missing_closing_parenthesis() {
    match parse("(a + b") {
        Err(ParseError::UnexpectedToken { expected, found }) => {
            assert_eq!(expected, "closing parenthesis");
            assert_eq!(found, TokenType::EOF);
        }
        other => panic!("unexpected {:?}", other),
    }
    match parse("f(a, b") {
        Err(ParseError::UnexpectedToken { expected, found }) => {
            assert_eq!(expected, "closing parenthesis");
            assert_eq!(found, TokenType::EOF);
        }
        other => panic!("unexpected {:?}", other),
    }
    match parse("(a; b)") {
        Err(ParseError::UnexpectedToken { expected, found }) => {
            assert_eq!(expected, "closing parenthesis");
            assert_eq!(found, TokenType::Punctuation { raw: ';', kind: PunctuationKind::Separator });
        }
        other => panic!("unexpected {:?}", other),
    }
}

#[test]
fn scanner_failures_are_wrapped() {
    match parse("x = 1 + ]") {
        Err(ParseError::LexerError(LexerError::MissbalancedSymbols { symbol, open })) => {
            assert_eq!((symbol, open), (']', '['));
        }
        other => panic!("unexpected {:?}", other),
    }
    assert!(matches!(
        Parser::new(")"),
        Err(ParseError::LexerError(LexerError::MissbalancedSymbols { symbol: ')', open: '(' }))
    ));
    assert!(matches!(parse("a = 1x"), Err(ParseError::LexerError(LexerError::InvalidNumeric { .. }))));
}

#[test]
fn empty_parentheses_stop_the_parser_before_the_stray_closer() {
    match parse("(()[]]") {
        Err(ParseError::UnexpectedToken { expected, found }) => {
            assert_eq!(expected, "expression");
            assert_eq!(found, TokenType::Punctuation { raw: ')', kind: PunctuationKind::Close(1) });
        }
        other => panic!("unexpected {:?}", other),
    }
}
