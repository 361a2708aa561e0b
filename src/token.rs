//! Tokens produced by the scanner, the scanner's errors, and their mathematical views.
use vstd::prelude::*;

verus! {

/// How a bracket or separator token stands in the bracket balance.
///
/// `Open(d)` carries the depth of its bracket family before the opener;
/// `Close(d)` carries the depth that remains after the closer.
#[derive(Debug, Clone, Copy, PartialEq, Eq, Structural)]
pub enum PunctuationKind {
    Open(usize),
    Close(usize),
    Separator,
}

/// A bracket or separator character with its balance kind.
#[derive(Debug, Clone, Copy, PartialEq, Eq, Structural)]
pub struct Punctuation {
    pub raw: char,
    pub kind: PunctuationKind,
}

/// Whether a numeric literal is an integer or a floating-point literal.
#[derive(Debug, Clone, Copy, PartialEq, Eq, Structural)]
pub enum NumericHint {
    Integer,
    Float,
}

/// A numeric literal: its source text and its kind.
#[derive(Debug, Clone, PartialEq)]
pub struct Numeric {
    pub raw: String,
    pub kind: NumericHint,
}

/// A lexical token.
#[derive(Debug, Clone, PartialEq)]
pub enum TokenType {
    EOF,
    Punctuation { raw: char, kind: PunctuationKind },
    Operator(String),
    Identificador(String),
    Char(char),
    Numero { raw: String, kind: NumericHint },
    Cadena(String),
    Boolean(bool),
    Unknown(String),
}

pub type Token = TokenType;

/// What a token denotes, with text as character sequences.
pub enum Tok {
    Eof,
    Punct { raw: char, kind: PunctuationKind },
    Operator(Seq<char>),
    Identifier(Seq<char>),
    Char(char),
    Number { raw: Seq<char>, kind: NumericHint },
    Str(Seq<char>),
    Boolean(bool),
    Unknown(Seq<char>),
}

impl View for TokenType {
    type V = Tok;

    open spec fn view(&self) -> Tok {
        match self {
            TokenType::EOF => Tok::Eof,
            TokenType::Punctuation { raw, kind } => Tok::Punct { raw: *raw, kind: *kind },
            TokenType::Operator(s) => Tok::Operator(s@),
            TokenType::Identificador(s) => Tok::Identifier(s@),
            TokenType::Char(c) => Tok::Char(*c),
            TokenType::Numero { raw, kind } => Tok::Number { raw: raw@, kind: *kind },
            TokenType::Cadena(s) => Tok::Str(s@),
            TokenType::Boolean(b) => Tok::Boolean(*b),
            TokenType::Unknown(s) => Tok::Unknown(s@),
        }
    }
}

impl TokenType {
    /// Whether this is the end marker.
    pub fn is_eof(&self) -> (r: bool)
        ensures
            r == (self@ is Eof),
    {
        match self {
            TokenType::EOF => true,
            _ => false,
        }
    }

    /// A copy of this token.
    pub fn duplicate(&self) -> (r: TokenType)
        ensures
            r@ == self@,
    {
        match self {
            TokenType::EOF => TokenType::EOF,
            TokenType::Punctuation { raw, kind } => TokenType::Punctuation { raw: *raw, kind: *kind },
            TokenType::Operator(s) => TokenType::Operator(s.clone()),
            TokenType::Identificador(s) => TokenType::Identificador(s.clone()),
            TokenType::Char(c) => TokenType::Char(*c),
            TokenType::Numero { raw, kind } => TokenType::Numero { raw: raw.clone(), kind: *kind },
            TokenType::Cadena(s) => TokenType::Cadena(s.clone()),
            TokenType::Boolean(b) => TokenType::Boolean(*b),
            TokenType::Unknown(s) => TokenType::Unknown(s.clone()),
        }
    }
}

/// `std::io::Error`, carried unopened in `LexerError::FileIOError`.
#[verifier::external_type_specification]
#[verifier::external_body]
pub struct ExIoError(std::io::Error);

/// A failure of the scanner.
#[derive(Debug)]
pub enum LexerError {
    FileIOError(std::io::Error),
    MissingExpectedSymbol { expected: TokenType, found: Token },
    InvalidNumeric { raw: String },
    /// A closer met while its family's depth is 0: `symbol` is the closer, `open` the
    /// opener it expected.
    MissbalancedSymbols { symbol: char, open: char },
    UnknownSymbol { symbol: String },
    /// The input ended inside a string literal.
    UnterminatedLiteral,
}

/// What a scanner failure denotes.
pub enum LexError {
    Io,
    MissingExpectedSymbol { expected: Tok, found: Tok },
    InvalidNumeric { raw: Seq<char> },
    Missbalanced { symbol: char, open: char },
    UnknownSymbol { symbol: Seq<char> },
    UnterminatedLiteral,
}

impl View for LexerError {
    type V = LexError;

    open spec fn view(&self) -> LexError {
        match self {
            LexerError::FileIOError(_) => LexError::Io,
            LexerError::MissingExpectedSymbol { expected, found } => LexError::MissingExpectedSymbol {
                expected: expected@,
                found: found@,
            },
            LexerError::InvalidNumeric { raw } => LexError::InvalidNumeric { raw: raw@ },
            LexerError::MissbalancedSymbols { symbol, open } => LexError::Missbalanced {
                symbol: *symbol,
                open: *open,
            },
            LexerError::UnknownSymbol { symbol } => LexError::UnknownSymbol { symbol: symbol@ },
            LexerError::UnterminatedLiteral => LexError::UnterminatedLiteral,
        }
    }
}

/// The view of a scanner result.
pub open spec fn lex_result(r: Result<TokenType, LexerError>) -> Result<Tok, LexError> {
    match r {
        Ok(t) => Ok(t@),
        Err(e) => Err(e@),
    }
}

} // verus!
