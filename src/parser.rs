//! The recursive-descent parser. It pulls one token at a time from the scanner and
//! builds the syntax tree, one precedence level per grammar rule:
//!
//! ```text
//! assignment     := or ('=' assignment)?          right-associative
//! or             := and ('||' and)*
//! and            := equality ('&&' equality)*
//! equality       := comparison (('==' | '!=') comparison)*
//! comparison     := addition (('<' | '>' | '<=' | '>=') addition)*
//! addition       := multiplication (('+' | '-') multiplication)*
//! multiplication := unary (('*' | '/') unary)*
//! unary          := ('-' | '!') unary | primary
//! primary        := number | string | boolean | identifier
//!                 | identifier '(' (expression ','?)* ')' | '(' expression ')'
//! ```
//!
//! The left side of an assignment is not restricted to assignable forms.
use vstd::prelude::*;
use crate::ast::{ASTNode, Ast};
use crate::lexer::{Lexer, LexState, lex_step, start};
use crate::text::text_is;
use crate::token::{NumericHint, PunctuationKind, TokenType, Tok, LexerError, LexError};

verus! {

/// A failure of the parser.
#[derive(Debug)]
pub enum ParseError {
    LexerError(LexerError),
    UnexpectedToken { expected: String, found: TokenType },
    UnexpectedEOF,
    InvalidSyntax { message: String },
}

/// What a parser failure denotes.
pub enum ParseErr {
    Lexer(LexError),
    UnexpectedToken { expected: Seq<char>, found: Tok },
    UnexpectedEof,
    InvalidSyntax { message: Seq<char> },
}

impl View for ParseError {
    type V = ParseErr;

    open spec fn view(&self) -> ParseErr {
        match self {
            ParseError::LexerError(e) => ParseErr::Lexer(e@),
            ParseError::UnexpectedToken { expected, found } => ParseErr::UnexpectedToken {
                expected: expected@,
                found: found@,
            },
            ParseError::UnexpectedEOF => ParseErr::UnexpectedEof,
            ParseError::InvalidSyntax { message } => ParseErr::InvalidSyntax { message: message@ },
        }
    }
}

/// The view of a parser result.
pub open spec fn parse_result(r: Result<ASTNode, ParseError>) -> Result<Ast, ParseErr> {
    match r {
        Ok(n) => Ok(n@),
        Err(e) => Err(e@),
    }
}

/// The abstract state of the parser: the scanner's state and the current token.
pub struct PState {
    pub lex: LexState,
    pub cur: Tok,
}

/// Twice the characters left, plus one while the current token is not the end marker.
/// Every token taken from the scanner lowers it, but taking one past the end marker.
pub open spec fn measure(s: Seq<char>, ps: PState) -> nat {
    (2 * (s.len() - ps.lex.pos) + if ps.cur is Eof {
        0int
    } else {
        1int
    }) as nat
}

/// Takes the next token from the scanner.
pub open spec fn next_state(s: Seq<char>, ps: PState) -> Result<PState, ParseErr> {
    let (st, r) = lex_step(s, ps.lex);
    match r {
        Ok(t) => Ok(PState { lex: st, cur: t }),
        Err(e) => Err(ParseErr::Lexer(e)),
    }
}

/// The outcome of a step that would not consume input. The parser never takes it (each
/// rule consumes a token before it recurses); it only makes termination evident.
pub open spec fn stuck() -> ParseErr {
    ParseErr::InvalidSyntax { message: seq![] }
}

pub open spec fn opens_paren(t: Tok) -> bool {
    match t {
        Tok::Punct { raw, kind } => raw == '(' && kind is Open,
        _ => false,
    }
}

pub open spec fn closes_paren(t: Tok) -> bool {
    match t {
        Tok::Punct { raw, kind } => raw == ')' && kind is Close,
        _ => false,
    }
}

pub open spec fn is_separator(t: Tok, c: char) -> bool {
    t == Tok::Punct { raw: c, kind: PunctuationKind::Separator }
}

/// The operators of each left-associative level, from `||` (7) down to `*` and `/` (2).
pub open spec fn level_op(level: nat, op: Seq<char>) -> bool {
    if level == 7 {
        op == "||"@
    } else if level == 6 {
        op == "&&"@
    } else if level == 5 {
        op == "=="@ || op == "!="@
    } else if level == 4 {
        op == "<"@ || op == ">"@ || op == "<="@ || op == ">="@
    } else if level == 3 {
        op == "+"@ || op == "-"@
    } else if level == 2 {
        op == "*"@ || op == "/"@
    } else {
        false
    }
}

pub open spec fn binary_op_at(t: Tok, level: nat) -> bool {
    match t {
        Tok::Operator(op) => level_op(level, op),
        _ => false,
    }
}

pub type Parsed = (PState, Result<Ast, ParseErr>);

/// `assignment := or ('=' assignment)?`
pub open spec fn p_assign(s: Seq<char>, ps: PState) -> Parsed
    decreases measure(s, ps), 8nat, 1nat,
{
    let (ps1, r) = p_bin(s, ps, 7);
    match r {
        Err(e) => (ps1, Err(e)),
        Ok(left) => {
            if ps1.cur == Tok::Operator("="@) {
                match next_state(s, ps1) {
                    Err(e) => (ps1, Err(e)),
                    Ok(ps2) => {
                        if measure(s, ps2) < measure(s, ps) {
                            let (ps3, r3) = p_assign(s, ps2);
                            match r3 {
                                Err(e) => (ps3, Err(e)),
                                Ok(right) => (
                                    ps3,
                                    Ok(Ast::Assignment { left: Box::new(left), right: Box::new(right) }),
                                ),
                            }
                        } else {
                            (ps2, Err(stuck()))
                        }
                    },
                }
            } else {
                (ps1, Ok(left))
            }
        },
    }
}

/// The rule of `level`, from unary (1) to `&&` (6).
pub open spec fn p_next(s: Seq<char>, ps: PState, level: nat) -> Parsed
    decreases measure(s, ps), level, 2nat,
{
    if level == 1 {
        p_unary(s, ps)
    } else if 2 <= level <= 6 {
        p_bin(s, ps, level)
    } else {
        (ps, Err(stuck()))
    }
}

/// A left-associative level: an operand, then any number of (operator, operand) pairs.
pub open spec fn p_bin(s: Seq<char>, ps: PState, level: nat) -> Parsed
    decreases measure(s, ps), level, 1nat,
{
    if level < 2 || level > 7 {
        (ps, Err(stuck()))
    } else {
        let (ps1, r) = p_next(s, ps, (level - 1) as nat);
        match r {
            Err(e) => (ps1, Err(e)),
            Ok(left) => {
                if measure(s, ps1) <= measure(s, ps) {
                    p_rest(s, ps1, level, left)
                } else {
                    (ps1, Err(stuck()))
                }
            },
        }
    }
}

/// The (operator, operand) pairs of a left-associative level after its first operand
/// `left`, each folded into `left`.
pub open spec fn p_rest(s: Seq<char>, ps: PState, level: nat, left: Ast) -> Parsed
    decreases measure(s, ps), level, 0nat,
{
    if 2 <= level <= 7 && binary_op_at(ps.cur, level) {
        let op = ps.cur->Operator_0;
        match next_state(s, ps) {
            Err(e) => (ps, Err(e)),
            Ok(ps1) => {
                if measure(s, ps1) < measure(s, ps) {
                    let (ps2, r) = p_next(s, ps1, (level - 1) as nat);
                    match r {
                        Err(e) => (ps2, Err(e)),
                        Ok(right) => {
                            if measure(s, ps2) < measure(s, ps) {
                                p_rest(
                                    s,
                                    ps2,
                                    level,
                                    Ast::BinaryOp {
                                        left: Box::new(left),
                                        operator: op,
                                        right: Box::new(right),
                                    },
                                )
                            } else {
                                (ps2, Err(stuck()))
                            }
                        },
                    }
                } else {
                    (ps1, Err(stuck()))
                }
            },
        }
    } else {
        (ps, Ok(left))
    }
}

/// `unary := ('-' | '!') unary | primary`
pub open spec fn p_unary(s: Seq<char>, ps: PState) -> Parsed
    decreases measure(s, ps), 1nat, 1nat,
{
    if ps.cur == Tok::Operator("-"@) || ps.cur == Tok::Operator("!"@) {
        let op = ps.cur->Operator_0;
        match next_state(s, ps) {
            Err(e) => (ps, Err(e)),
            Ok(ps1) => {
                if measure(s, ps1) < measure(s, ps) {
                    let (ps2, r) = p_unary(s, ps1);
                    match r {
                        Err(e) => (ps2, Err(e)),
                        Ok(operand) => (
                            ps2,
                            Ok(Ast::UnaryOp { operator: op, operand: Box::new(operand) }),
                        ),
                    }
                } else {
                    (ps1, Err(stuck()))
                }
            },
        }
    } else {
        p_primary(s, ps)
    }
}

/// A literal, an identifier, a call or a parenthesized expression.
pub open spec fn p_primary(s: Seq<char>, ps: PState) -> Parsed
    decreases measure(s, ps), 0nat, 1nat,
{
    match ps.cur {
        Tok::Number { raw, kind } => match next_state(s, ps) {
            Err(e) => (ps, Err(e)),
            Ok(ps1) => (ps1, Ok(Ast::Number { value: raw, is_float: kind == NumericHint::Float })),
        },
        Tok::Str(v) => match next_state(s, ps) {
            Err(e) => (ps, Err(e)),
            Ok(ps1) => (ps1, Ok(Ast::Str { value: v })),
        },
        Tok::Boolean(b) => match next_state(s, ps) {
            Err(e) => (ps, Err(e)),
            Ok(ps1) => (ps1, Ok(Ast::Boolean { value: b })),
        },
        Tok::Identifier(name) => match next_state(s, ps) {
            Err(e) => (ps, Err(e)),
            Ok(ps1) => {
                if opens_paren(ps1.cur) {
                    match next_state(s, ps1) {
                        Err(e) => (ps1, Err(e)),
                        Ok(ps2) => {
                            if measure(s, ps2) < measure(s, ps) {
                                p_args(s, ps2, name, seq![])
                            } else {
                                (ps2, Err(stuck()))
                            }
                        },
                    }
                } else {
                    (ps1, Ok(Ast::Identifier { name }))
                }
            },
        },
        Tok::Eof => (ps, Err(ParseErr::UnexpectedEof)),
        _ => {
            if opens_paren(ps.cur) {
                match next_state(s, ps) {
                    Err(e) => (ps, Err(e)),
                    Ok(ps1) => {
                        if measure(s, ps1) < measure(s, ps) {
                            let (ps2, r) = p_assign(s, ps1);
                            match r {
                                Err(e) => (ps2, Err(e)),
                                Ok(inner) => {
                                    if closes_paren(ps2.cur) {
                                        match next_state(s, ps2) {
                                            Err(e) => (ps2, Err(e)),
                                            Ok(ps3) => (
                                                ps3,
                                                Ok(Ast::Parenthesized { expression: Box::new(inner) }),
                                            ),
                                        }
                                    } else {
                                        (
                                            ps2,
                                            Err(
                                                ParseErr::UnexpectedToken {
                                                    expected: "closing parenthesis"@,
                                                    found: ps2.cur,
                                                },
                                            ),
                                        )
                                    }
                                },
                            }
                        } else {
                            (ps1, Err(stuck()))
                        }
                    },
                }
            } else {
                (ps, Err(ParseErr::UnexpectedToken { expected: "expression"@, found: ps.cur }))
            }
        },
    }
}

/// The arguments of a call to `name` after its `(`, with `args` those parsed so far; a
/// comma after an argument is consumed when present.
pub open spec fn p_args(s: Seq<char>, ps: PState, name: Seq<char>, args: Seq<Ast>) -> Parsed
    decreases measure(s, ps), 9nat, 0nat,
{
    if closes_paren(ps.cur) {
        match next_state(s, ps) {
            Err(e) => (ps, Err(e)),
            Ok(ps1) => (ps1, Ok(Ast::FunctionCall { name, arguments: args })),
        }
    } else if ps.cur is Eof {
        (ps, Err(ParseErr::UnexpectedToken { expected: "closing parenthesis"@, found: ps.cur }))
    } else {
        let (ps1, r) = p_assign(s, ps);
        match r {
            Err(e) => (ps1, Err(e)),
            Ok(a) => {
                if is_separator(ps1.cur, ',') {
                    match next_state(s, ps1) {
                        Err(e) => (ps1, Err(e)),
                        Ok(ps2) => {
                            if measure(s, ps2) < measure(s, ps) {
                                p_args(s, ps2, name, args.push(a))
                            } else {
                                (ps2, Err(stuck()))
                            }
                        },
                    }
                } else if measure(s, ps1) < measure(s, ps) {
                    p_args(s, ps1, name, args.push(a))
                } else {
                    (ps1, Err(stuck()))
                }
            },
        }
    }
}

/// The statements from `ps` to the end marker, after `done`: each an expression and an
/// optional `;`.
pub open spec fn p_program(s: Seq<char>, ps: PState, done: Seq<Ast>) -> Result<Ast, ParseErr>
    decreases measure(s, ps),
{
    if ps.cur is Eof {
        Ok(Ast::Program { statements: done })
    } else {
        let (ps1, r) = p_assign(s, ps);
        match r {
            Err(e) => Err(e),
            Ok(e) => {
                let stmt = Ast::ExpressionStatement { expression: Box::new(e) };
                if is_separator(ps1.cur, ';') {
                    match next_state(s, ps1) {
                        Err(err) => Err(err),
                        Ok(ps2) => {
                            if measure(s, ps2) < measure(s, ps) {
                                p_program(s, ps2, done.push(stmt))
                            } else {
                                Err(stuck())
                            }
                        },
                    }
                } else if measure(s, ps1) < measure(s, ps) {
                    p_program(s, ps1, done.push(stmt))
                } else {
                    Err(stuck())
                }
            },
        }
    }
}

/// What parsing the text `s` gives: its program, or the first failure.
pub open spec fn parse_text(s: Seq<char>) -> Result<Ast, ParseErr> {
    let (st, r) = lex_step(s, start());
    match r {
        Err(e) => Err(ParseErr::Lexer(e)),
        Ok(t) => p_program(s, PState { lex: st, cur: t }, seq![]),
    }
}

/// An expression statement.
pub open spec fn p_statement(s: Seq<char>, ps: PState) -> Parsed {
    let (ps1, r) = p_assign(s, ps);
    match r {
        Err(e) => (ps1, Err(e)),
        Ok(e) => (ps1, Ok(Ast::ExpressionStatement { expression: Box::new(e) })),
    }
}

/// A rule's exec result `r`, with the parser moved from `before` to `after`, is what the
/// rule's model `expect` gives; on success the parser moved forward.
pub open spec fn parsed(
    s: Seq<char>,
    before: PState,
    after: PState,
    r: Result<ASTNode, ParseError>,
    expect: Parsed,
) -> bool {
    &&& parse_result(r) == expect.1
    &&& r is Ok ==> after == expect.0 && measure(s, after) < measure(s, before)
}

pub open spec fn views(v: Seq<ASTNode>) -> Seq<Ast> {
    v.map_values(|n: ASTNode| n@)
}

proof fn lemma_view_call(name: String, arguments: Vec<ASTNode>)
    ensures
        (ASTNode::FunctionCall { name, arguments })@ == (Ast::FunctionCall {
            name: name@,
            arguments: views(arguments@),
        }),
{
    assert((ASTNode::FunctionCall { name, arguments })@->arguments =~= views(arguments@));
}

proof fn lemma_view_program(statements: Vec<ASTNode>)
    ensures
        (ASTNode::Program { statements })@ == (Ast::Program { statements: views(statements@) }),
{
    assert((ASTNode::Program { statements })@->statements =~= views(statements@));
}

/// Whether `t` is an operator of the left-associative level `level`.
fn binary_operator(level: u8, t: &TokenType) -> (r: bool)
    requires
        2 <= level <= 7,
    ensures
        r == binary_op_at(t@, level as nat),
{
    match t {
        TokenType::Operator(op) => {
            if level == 7 {
                text_is(op, "||")
            } else if level == 6 {
                text_is(op, "&&")
            } else if level == 5 {
                text_is(op, "==") || text_is(op, "!=")
            } else if level == 4 {
                text_is(op, "<") || text_is(op, ">") || text_is(op, "<=") || text_is(op, ">=")
            } else if level == 3 {
                text_is(op, "+") || text_is(op, "-")
            } else {
                text_is(op, "*") || text_is(op, "/")
            }
        },
        _ => false,
    }
}

fn opens_paren_token(t: &TokenType) -> (r: bool)
    ensures
        r == opens_paren(t@),
{
    match t {
        TokenType::Punctuation { raw, kind: PunctuationKind::Open(_) } => *raw == '(',
        _ => false,
    }
}

fn closes_paren_token(t: &TokenType) -> (r: bool)
    ensures
        r == closes_paren(t@),
{
    match t {
        TokenType::Punctuation { raw, kind: PunctuationKind::Close(_) } => *raw == ')',
        _ => false,
    }
}

fn separator_token(t: &TokenType, c: char) -> (r: bool)
    ensures
        r == is_separator(t@, c),
{
    match t {
        TokenType::Punctuation { raw, kind: PunctuationKind::Separator } => *raw == c,
        _ => false,
    }
}

/// The parser over a text held in memory.
pub struct Parser {
    lexer: Lexer,
    current_token: TokenType,
}

impl Parser {
    /// The text being parsed.
    pub closed spec fn input(&self) -> Seq<char> {
        self.lexer.input()
    }

    /// The abstract parser state.
    pub closed spec fn pstate(&self) -> PState {
        PState { lex: self.lexer.state(), cur: self.current_token@ }
    }

    pub closed spec fn wf(&self) -> bool {
        self.lexer.wf()
    }

    /// A parser over `input`, holding its first token; fails when scanning that token
    /// fails.
    pub fn new(input: &str) -> (r: Result<Parser, ParseError>)
        ensures
            ({
                let (st, first) = lex_step(input@, start());
                match first {
                    Ok(t) => r is Ok && r->Ok_0.wf() && r->Ok_0.input() == input@
                        && r->Ok_0.pstate() == (PState { lex: st, cur: t }),
                    Err(e) => r is Err && r->Err_0@ == ParseErr::Lexer(e),
                }
            }),
    {
        let mut lexer = Lexer::new(input);
        match lexer.next_token() {
            Ok(current_token) => Ok(Parser { lexer, current_token }),
            Err(e) => Err(ParseError::LexerError(e)),
        }
    }

    /// Parses statements up to the end marker into one program node.
    pub fn parse(&mut self) -> (r: Result<ASTNode, ParseError>)
        requires
            old(self).wf(),
        ensures
            final(self).wf(),
            final(self).input() == old(self).input(),
            parse_result(r) == p_program(old(self).input(), old(self).pstate(), seq![]),
    {
        let ghost s = self.input();
        let mut statements: Vec<ASTNode> = Vec::new();
        assert(views(statements@) =~= seq![]);
        loop
            invariant
                self.wf(),
                self.input() == s,
                s == old(self).input(),
                p_program(s, self.pstate(), views(statements@)) == p_program(
                    s,
                    old(self).pstate(),
                    seq![],
                ),
            decreases measure(s, self.pstate()),
        {
            let ghost before = self.pstate();
            if self.current_token.is_eof() {
                proof {
                    lemma_view_program(statements);
                }
                return Ok(ASTNode::Program { statements });
            }
            let stmt = match self.parse_expression_statement() {
                Ok(n) => n,
                Err(e) => {
                    return Err(e);
                },
            };
            let ghost stmts = views(statements@);
            statements.push(stmt);
            assert(views(statements@) =~= stmts.push(stmt@));
            if separator_token(&self.current_token, ';') {
                match self.advance() {
                    Ok(()) => {},
                    Err(e) => {
                        return Err(e);
                    },
                }
            }
        }
    }

    /// Takes the next token from the scanner.
    fn advance(&mut self) -> (r: Result<(), ParseError>)
        requires
            old(self).wf(),
        ensures
            final(self).wf(),
            final(self).input() == old(self).input(),
            match next_state(old(self).input(), old(self).pstate()) {
                Ok(ps) => r is Ok && final(self).pstate() == ps,
                Err(e) => r is Err && r->Err_0@ == e,
            },
            r is Ok && !(old(self).pstate().cur is Eof) ==> measure(
                final(self).input(),
                final(self).pstate(),
            ) < measure(old(self).input(), old(self).pstate()),
    {
        proof {
            self.lexer.lemma_wf();
            crate::lexer::lemma_step_progress(self.lexer.input(), self.lexer.state());
        }
        match self.lexer.next_token() {
            Ok(token) => {
                self.current_token = token;
                Ok(())
            },
            Err(e) => Err(ParseError::LexerError(e)),
        }
    }

    fn parse_expression_statement(&mut self) -> (r: Result<ASTNode, ParseError>)
        requires
            old(self).wf(),
        ensures
            final(self).wf(),
            final(self).input() == old(self).input(),
            parsed(
                old(self).input(),
                old(self).pstate(),
                final(self).pstate(),
                r,
                p_statement(old(self).input(), old(self).pstate()),
            ),
    {
        match self.parse_expression() {
            Ok(expr) => Ok(ASTNode::ExpressionStatement { expression: Box::new(expr) }),
            Err(e) => Err(e),
        }
    }

    fn parse_expression(&mut self) -> (r: Result<ASTNode, ParseError>)
        requires
            old(self).wf(),
        ensures
            final(self).wf(),
            final(self).input() == old(self).input(),
            parsed(
                old(self).input(),
                old(self).pstate(),
                final(self).pstate(),
                r,
                p_assign(old(self).input(), old(self).pstate()),
            ),
        decreases measure(old(self).input(), old(self).pstate()), 9nat, 0nat,
    {
        self.parse_assignment()
    }

    fn parse_assignment(&mut self) -> (r: Result<ASTNode, ParseError>)
        requires
            old(self).wf(),
        ensures
            final(self).wf(),
            final(self).input() == old(self).input(),
            parsed(
                old(self).input(),
                old(self).pstate(),
                final(self).pstate(),
                r,
                p_assign(old(self).input(), old(self).pstate()),
            ),
        decreases measure(old(self).input(), old(self).pstate()), 8nat, 0nat,
    {
        let left = match self.parse_or() {
            Ok(n) => n,
            Err(e) => {
                return Err(e);
            },
        };
        let is_assign = match &self.current_token {
            TokenType::Operator(op) => text_is(op, "="),
            _ => false,
        };
        if is_assign {
            match self.advance() {
                Ok(()) => {},
                Err(e) => {
                    return Err(e);
                },
            }
            match self.parse_assignment() {
                Ok(right) => Ok(ASTNode::Assignment { left: Box::new(left), right: Box::new(right) }),
                Err(e) => Err(e),
            }
        } else {
            Ok(left)
        }
    }

    fn parse_or(&mut self) -> (r: Result<ASTNode, ParseError>)
        requires
            old(self).wf(),
        ensures
            final(self).wf(),
            final(self).input() == old(self).input(),
            parsed(
                old(self).input(),
                old(self).pstate(),
                final(self).pstate(),
                r,
                p_bin(old(self).input(), old(self).pstate(), 7),
            ),
        decreases measure(old(self).input(), old(self).pstate()), 7nat, 1nat,
    {
        self.parse_binary(7)
    }

    fn parse_and(&mut self) -> (r: Result<ASTNode, ParseError>)
        requires
            old(self).wf(),
        ensures
            final(self).wf(),
            final(self).input() == old(self).input(),
            parsed(
                old(self).input(),
                old(self).pstate(),
                final(self).pstate(),
                r,
                p_bin(old(self).input(), old(self).pstate(), 6),
            ),
        decreases measure(old(self).input(), old(self).pstate()), 6nat, 1nat,
    {
        self.parse_binary(6)
    }

    fn parse_equality(&mut self) -> (r: Result<ASTNode, ParseError>)
        requires
            old(self).wf(),
        ensures
            final(self).wf(),
            final(self).input() == old(self).input(),
            parsed(
                old(self).input(),
                old(self).pstate(),
                final(self).pstate(),
                r,
                p_bin(old(self).input(), old(self).pstate(), 5),
            ),
        decreases measure(old(self).input(), old(self).pstate()), 5nat, 1nat,
    {
        self.parse_binary(5)
    }

    fn parse_comparison(&mut self) -> (r: Result<ASTNode, ParseError>)
        requires
            old(self).wf(),
        ensures
            final(self).wf(),
            final(self).input() == old(self).input(),
            parsed(
                old(self).input(),
                old(self).pstate(),
                final(self).pstate(),
                r,
                p_bin(old(self).input(), old(self).pstate(), 4),
            ),
        decreases measure(old(self).input(), old(self).pstate()), 4nat, 1nat,
    {
        self.parse_binary(4)
    }

    fn parse_addition(&mut self) -> (r: Result<ASTNode, ParseError>)
        requires
            old(self).wf(),
        ensures
            final(self).wf(),
            final(self).input() == old(self).input(),
            parsed(
                old(self).input(),
                old(self).pstate(),
                final(self).pstate(),
                r,
                p_bin(old(self).input(), old(self).pstate(), 3),
            ),
        decreases measure(old(self).input(), old(self).pstate()), 3nat, 1nat,
    {
        self.parse_binary(3)
    }

    fn parse_multiplication(&mut self) -> (r: Result<ASTNode, ParseError>)
        requires
            old(self).wf(),
        ensures
            final(self).wf(),
            final(self).input() == old(self).input(),
            parsed(
                old(self).input(),
                old(self).pstate(),
                final(self).pstate(),
                r,
                p_bin(old(self).input(), old(self).pstate(), 2),
            ),
        decreases measure(old(self).input(), old(self).pstate()), 2nat, 1nat,
    {
        self.parse_binary(2)
    }

    /// The rule of `level`, from unary (1) to `&&` (6).
    fn parse_level(&mut self, level: u8) -> (r: Result<ASTNode, ParseError>)
        requires
            old(self).wf(),
            1 <= level <= 6,
        ensures
            final(self).wf(),
            final(self).input() == old(self).input(),
            parsed(
                old(self).input(),
                old(self).pstate(),
                final(self).pstate(),
                r,
                p_next(old(self).input(), old(self).pstate(), level as nat),
            ),
        decreases measure(old(self).input(), old(self).pstate()), level, 2nat,
    {
        if level == 1 {
            self.parse_unary()
        } else if level == 2 {
            self.parse_multiplication()
        } else if level == 3 {
            self.parse_addition()
        } else if level == 4 {
            self.parse_comparison()
        } else if level == 5 {
            self.parse_equality()
        } else {
            self.parse_and()
        }
    }

    /// A left-associative level: operands of the next tighter level joined by the
    /// operators of `level`, folded from the left.
    fn parse_binary(&mut self, level: u8) -> (r: Result<ASTNode, ParseError>)
        requires
            old(self).wf(),
            2 <= level <= 7,
        ensures
            final(self).wf(),
            final(self).input() == old(self).input(),
            parsed(
                old(self).input(),
                old(self).pstate(),
                final(self).pstate(),
                r,
                p_bin(old(self).input(), old(self).pstate(), level as nat),
            ),
        decreases measure(old(self).input(), old(self).pstate()), level, 0nat,
    {
        let ghost s = self.input();
        let ghost ps0 = self.pstate();
        let mut left = match self.parse_level(level - 1) {
            Ok(n) => n,
            Err(e) => {
                return Err(e);
            },
        };
        loop
            invariant
                self.wf(),
                self.input() == s,
                s == old(self).input(),
                ps0 == old(self).pstate(),
                2 <= level <= 7,
                p_rest(s, self.pstate(), level as nat, left@) == p_bin(s, ps0, level as nat),
                measure(s, self.pstate()) < measure(s, ps0),
            decreases measure(s, self.pstate()),
        {
            if !binary_operator(level, &self.current_token) {
                return Ok(left);
            }
            let operator = match &self.current_token {
                TokenType::Operator(op) => op.clone(),
                _ => String::new(),
            };
            match self.advance() {
                Ok(()) => {},
                Err(e) => {
                    return Err(e);
                },
            }
            let right = match self.parse_level(level - 1) {
                Ok(n) => n,
                Err(e) => {
                    return Err(e);
                },
            };
            left = ASTNode::BinaryOp { left: Box::new(left), operator, right: Box::new(right) };
        }
    }

    fn parse_unary(&mut self) -> (r: Result<ASTNode, ParseError>)
        requires
            old(self).wf(),
        ensures
            final(self).wf(),
            final(self).input() == old(self).input(),
            parsed(
                old(self).input(),
                old(self).pstate(),
                final(self).pstate(),
                r,
                p_unary(old(self).input(), old(self).pstate()),
            ),
        decreases measure(old(self).input(), old(self).pstate()), 1nat, 0nat,
    {
        let operator = match &self.current_token {
            TokenType::Operator(op) => {
                if text_is(op, "-") || text_is(op, "!") {
                    Some(op.clone())
                } else {
                    None
                }
            },
            _ => None,
        };
        match operator {
            Some(operator) => {
                match self.advance() {
                    Ok(()) => {},
                    Err(e) => {
                        return Err(e);
                    },
                }
                match self.parse_unary() {
                    Ok(operand) => Ok(ASTNode::UnaryOp { operator, operand: Box::new(operand) }),
                    Err(e) => Err(e),
                }
            },
            None => self.parse_primary(),
        }
    }

    /// A literal, an identifier, a call or a parenthesized expression.
    fn parse_primary(&mut self) -> (r: Result<ASTNode, ParseError>)
        requires
            old(self).wf(),
        ensures
            final(self).wf(),
            final(self).input() == old(self).input(),
            parsed(
                old(self).input(),
                old(self).pstate(),
                final(self).pstate(),
                r,
                p_primary(old(self).input(), old(self).pstate()),
            ),
        decreases measure(old(self).input(), old(self).pstate()), 0nat, 0nat,
    {
        let ghost s = self.input();
        let ghost ps0 = self.pstate();
        match &self.current_token {
            TokenType::Numero { raw, kind } => {
                let value = raw.clone();
                let is_float = match kind {
                    NumericHint::Float => true,
                    NumericHint::Integer => false,
                };
                match self.advance() {
                    Ok(()) => Ok(ASTNode::Number { value, is_float }),
                    Err(e) => Err(e),
                }
            },
            TokenType::Cadena(value) => {
                let value = value.clone();
                match self.advance() {
                    Ok(()) => Ok(ASTNode::String { value }),
                    Err(e) => Err(e),
                }
            },
            TokenType::Boolean(value) => {
                let value = *value;
                match self.advance() {
                    Ok(()) => Ok(ASTNode::Boolean { value }),
                    Err(e) => Err(e),
                }
            },
            TokenType::Identificador(name) => {
                let name = name.clone();
                match self.advance() {
                    Ok(()) => {},
                    Err(e) => {
                        return Err(e);
                    },
                }
                if !opens_paren_token(&self.current_token) {
                    return Ok(ASTNode::Identifier { name });
                }
                match self.advance() {
                    Ok(()) => {},
                    Err(e) => {
                        return Err(e);
                    },
                }
                let mut arguments: Vec<ASTNode> = Vec::new();
                assert(views(arguments@) =~= seq![]);
                loop
                    invariant
                        self.wf(),
                        self.input() == s,
                        s == old(self).input(),
                        ps0 == old(self).pstate(),
                        measure(s, self.pstate()) < measure(s, ps0),
                        p_args(s, self.pstate(), name@, views(arguments@)) == p_primary(s, ps0),
                    decreases measure(s, self.pstate()),
                {
                    if closes_paren_token(&self.current_token) {
                        proof {
                            lemma_view_call(name, arguments);
                        }
                        return match self.advance() {
                            Ok(()) => Ok(ASTNode::FunctionCall { name, arguments }),
                            Err(e) => Err(e),
                        };
                    }
                    if self.current_token.is_eof() {
                        return Err(
                            ParseError::UnexpectedToken {
                                expected: "closing parenthesis".to_string(),
                                found: TokenType::EOF,
                            },
                        );
                    }
                    let arg = match self.parse_expression() {
                        Ok(n) => n,
                        Err(e) => {
                            return Err(e);
                        },
                    };
                    let ghost done = views(arguments@);
                    arguments.push(arg);
                    assert(views(arguments@) =~= done.push(arg@));
                    if separator_token(&self.current_token, ',') {
                        match self.advance() {
                            Ok(()) => {},
                            Err(e) => {
                                return Err(e);
                            },
                        }
                    }
                }
            },
            TokenType::EOF => Err(ParseError::UnexpectedEOF),
            _ => {
                if !opens_paren_token(&self.current_token) {
                    return Err(
                        ParseError::UnexpectedToken {
                            expected: "expression".to_string(),
                            found: self.current_token.duplicate(),
                        },
                    );
                }
                match self.advance() {
                    Ok(()) => {},
                    Err(e) => {
                        return Err(e);
                    },
                }
                let expression = match self.parse_expression() {
                    Ok(n) => n,
                    Err(e) => {
                        return Err(e);
                    },
                };
                if closes_paren_token(&self.current_token) {
                    match self.advance() {
                        Ok(()) => Ok(ASTNode::Parenthesized { expression: Box::new(expression) }),
                        Err(e) => Err(e),
                    }
                } else {
                    Err(
                        ParseError::UnexpectedToken {
                            expected: "closing parenthesis".to_string(),
                            found: self.current_token.duplicate(),
                        },
                    )
                }
            },
        }
    }
}

/// Parses `text` into its program node, or gives the first failure.
pub fn parse_source(text: &str) -> (r: Result<ASTNode, ParseError>)
    ensures
        parse_result(r) == parse_text(text@),
{
    match Parser::new(text) {
        Ok(mut parser) => parser.parse(),
        Err(e) => Err(e),
    }
}

} // verus!
