//! The scanner: turns a character sequence into tokens, one per call, tracking the
//! source position and the depth of each bracket family.
//!
//! Bracket balance is a counter per family, not a stack: a closer is checked only
//! against the count of open brackets of its own family, so an interleaving such as
//! `([)]` is not detected. Only closing a family more often than it was opened is.
use vstd::prelude::*;
use crate::text::{
    alphabetic, numeric, white_space, ascii_digit, is_whitespace, is_alphabetic,
    is_alphanumeric, is_ascii_digit, chars_of, string_of,
};
use crate::token::{PunctuationKind, NumericHint, TokenType, Tok, LexerError, LexError, lex_result};

verus! {

/// The abstract state of the scanner: the index of the next character and the depth of
/// each bracket family.
pub struct LexState {
    pub pos: nat,
    pub paren: nat,
    pub bracket: nat,
    pub brace: nat,
}

/// The state of a scanner that has read nothing.
pub open spec fn start() -> LexState {
    LexState { pos: 0, paren: 0, bracket: 0, brace: 0 }
}

pub open spec fn is_opener(c: char) -> bool {
    c == '(' || c == '[' || c == '{'
}

pub open spec fn is_closer(c: char) -> bool {
    c == ')' || c == ']' || c == '}'
}

/// The bracket that pairs with `c`.
pub open spec fn matching(c: char) -> char {
    if c == '(' {
        ')'
    } else if c == ')' {
        '('
    } else if c == '[' {
        ']'
    } else if c == ']' {
        '['
    } else if c == '{' {
        '}'
    } else {
        '{'
    }
}

/// The depth of the family of the opener `o`.
pub open spec fn depth_of(st: LexState, o: char) -> nat {
    if o == '(' {
        st.paren
    } else if o == '[' {
        st.bracket
    } else {
        st.brace
    }
}

/// `st` with the depth of the family of the opener `o` set to `d`.
pub open spec fn with_depth(st: LexState, o: char, d: nat) -> LexState {
    if o == '(' {
        LexState { paren: d, ..st }
    } else if o == '[' {
        LexState { bracket: d, ..st }
    } else {
        LexState { brace: d, ..st }
    }
}

pub open spec fn with_pos(st: LexState, p: nat) -> LexState {
    LexState { pos: p, ..st }
}

pub open spec fn is_operator_start(c: char) -> bool {
    c == '+' || c == '-' || c == '*' || c == '/' || c == '=' || c == '<' || c == '>' || c
        == '!' || c == '&' || c == '|'
}

/// The two-character operators.
pub open spec fn is_pair_operator(c: char, n: char) -> bool {
    (c == '=' && n == '=') || (c == '!' && n == '=') || (c == '<' && n == '=') || (c == '>'
        && n == '=') || (c == '&' && n == '&') || (c == '|' && n == '|') || (c == '+' && n
        == '+') || (c == '-' && n == '-')
}

pub open spec fn is_ident_start(c: char) -> bool {
    alphabetic(c) || c == '_'
}

pub open spec fn is_ident_char(c: char) -> bool {
    alphabetic(c) || numeric(c) || c == '_'
}

/// The first index at or after `i` that holds no whitespace.
pub open spec fn skip_ws(s: Seq<char>, i: nat) -> nat
    decreases s.len() - i,
{
    if i < s.len() && white_space(s[i as int]) {
        skip_ws(s, i + 1)
    } else {
        i
    }
}

/// The end of the run of identifier characters that starts at `i`.
pub open spec fn ident_end(s: Seq<char>, i: nat) -> nat
    decreases s.len() - i,
{
    if i < s.len() && is_ident_char(s[i as int]) {
        ident_end(s, i + 1)
    } else {
        i
    }
}

pub open spec fn hint(dot: bool, exp: bool) -> NumericHint {
    if dot || exp {
        NumericHint::Float
    } else {
        NumericHint::Integer
    }
}

/// Scans the rest of a numeric literal that began at `from`, with `i` the next index;
/// gives the index after the last character consumed, and the token or the failure.
pub open spec fn scan_number(s: Seq<char>, from: nat, i: nat, dot: bool, exp: bool) -> (
    nat,
    Result<Tok, LexError>,
)
    decreases s.len() - i,
{
    if i >= s.len() {
        (i, Ok(Tok::Number { raw: s.subrange(from as int, i as int), kind: hint(dot, exp) }))
    } else {
        let n = s[i as int];
        if ascii_digit(n) {
            scan_number(s, from, i + 1, dot, exp)
        } else if n == '.' && !dot && !exp {
            scan_number(s, from, i + 1, true, exp)
        } else if (n == 'e' || n == 'E') && !exp {
            let j: nat = if i + 1 < s.len() && (s[i + 1 as int] == '+' || s[i + 1 as int] == '-') {
                i + 2
            } else {
                i + 1
            };
            if j < s.len() && ascii_digit(s[j as int]) {
                scan_number(s, from, j + 1, dot, true)
            } else {
                (
                    if j < s.len() {
                        j + 1
                    } else {
                        j
                    },
                    Err(LexError::InvalidNumeric { raw: s.subrange(from as int, j as int) }),
                )
            }
        } else if alphabetic(n) {
            (i + 1, Err(LexError::InvalidNumeric { raw: s.subrange(from as int, i + 1 as int) }))
        } else {
            (i, Ok(Tok::Number { raw: s.subrange(from as int, i as int), kind: hint(dot, exp) }))
        }
    }
}

/// Scans the rest of a string literal from index `i`, with `acc` the characters decoded
/// so far: a backslash keeps the character after it, whatever it is.
pub open spec fn scan_string(s: Seq<char>, i: nat, acc: Seq<char>) -> (nat, Result<Tok, LexError>)
    decreases s.len() - i,
{
    if i >= s.len() {
        (i, Err(LexError::UnterminatedLiteral))
    } else if s[i as int] == '"' {
        (i + 1, Ok(Tok::Str(acc)))
    } else if s[i as int] == '\\' {
        if i + 1 < s.len() {
            scan_string(s, i + 2, acc.push(s[i + 1 as int]))
        } else {
            (i + 1, Err(LexError::UnterminatedLiteral))
        }
    } else {
        scan_string(s, i + 1, acc.push(s[i as int]))
    }
}

/// The token for a word of identifier characters.
pub open spec fn word_token(w: Seq<char>) -> Tok {
    if w == seq!['t', 'r', 'u', 'e'] {
        Tok::Boolean(true)
    } else if w == seq!['f', 'a', 'l', 's', 'e'] {
        Tok::Boolean(false)
    } else {
        Tok::Identifier(w)
    }
}

/// Scans the token whose first character `c` has just been consumed; `st.pos` is the
/// index after `c`.
pub open spec fn scan_token(s: Seq<char>, st: LexState, c: char) -> (LexState, Result<Tok, LexError>) {
    if is_opener(c) {
        let d = depth_of(st, c);
        (with_depth(st, c, d + 1), Ok(Tok::Punct { raw: c, kind: PunctuationKind::Open(d as usize) }))
    } else if is_closer(c) {
        let o = matching(c);
        let d = depth_of(st, o);
        if d > 0 {
            (
                with_depth(st, o, (d - 1) as nat),
                Ok(Tok::Punct { raw: c, kind: PunctuationKind::Close((d - 1) as usize) }),
            )
        } else {
            (st, Err(LexError::Missbalanced { symbol: c, open: o }))
        }
    } else if c == ',' || c == ';' {
        (st, Ok(Tok::Punct { raw: c, kind: PunctuationKind::Separator }))
    } else if ascii_digit(c) {
        let (e, r) = scan_number(s, (st.pos - 1) as nat, st.pos, false, false);
        (with_pos(st, e), r)
    } else if c == '"' {
        let (e, r) = scan_string(s, st.pos, seq![]);
        (with_pos(st, e), r)
    } else if is_operator_start(c) {
        if st.pos < s.len() && is_pair_operator(c, s[st.pos as int]) {
            (with_pos(st, st.pos + 1), Ok(Tok::Operator(seq![c, s[st.pos as int]])))
        } else {
            (st, Ok(Tok::Operator(seq![c])))
        }
    } else if is_ident_start(c) {
        let e = ident_end(s, st.pos);
        (with_pos(st, e), Ok(word_token(s.subrange(st.pos - 1, e as int))))
    } else {
        (st, Err(LexError::UnknownSymbol { symbol: seq![c] }))
    }
}

/// One call of the scanner on input `s` from state `st`: the next state and the token
/// or failure.
pub open spec fn lex_step(s: Seq<char>, st: LexState) -> (LexState, Result<Tok, LexError>) {
    let i = skip_ws(s, st.pos);
    if i >= s.len() {
        (with_pos(st, i), Ok(Tok::Eof))
    } else {
        scan_token(s, with_pos(st, i + 1), s[i as int])
    }
}

/// Scanning from `st` until the end marker or the first failure: the final state, and
/// the tokens before the end marker or the failure.
pub open spec fn lex_run(s: Seq<char>, st: LexState) -> (LexState, Result<Seq<Tok>, LexError>)
    decreases s.len() - st.pos,
{
    let (st2, r) = lex_step(s, st);
    match r {
        Err(e) => (st2, Err(e)),
        Ok(t) => {
            if t is Eof {
                (st2, Ok(seq![]))
            } else if st.pos < st2.pos <= s.len() {
                let (st3, rest) = lex_run(s, st2);
                (
                    st3,
                    match rest {
                        Ok(ts) => Ok(seq![t] + ts),
                        Err(e) => Err(e),
                    },
                )
            } else {
                (st2, Ok(seq![t]))
            }
        },
    }
}

pub open spec fn capped(n: nat) -> nat {
    if n > usize::MAX {
        usize::MAX as nat
    } else {
        n
    }
}

/// Line and column after reading `p`: lines count from 1; a newline sets the column to 1,
/// any other character moves it by one.
pub open spec fn line_col(p: Seq<char>) -> (nat, nat)
    decreases p.len(),
{
    if p.len() == 0 {
        (1, 0)
    } else {
        let (l, c) = line_col(p.drop_last());
        if p.last() == '\n' {
            (l + 1, 1)
        } else {
            (l, c + 1)
        }
    }
}

proof fn lemma_line_col_bound(p: Seq<char>)
    ensures
        line_col(p).0 <= p.len() + 1,
        line_col(p).1 <= p.len(),
    decreases p.len(),
{
    if p.len() > 0 {
        lemma_line_col_bound(p.drop_last());
    }
}

proof fn lemma_skip_ws_bounds(s: Seq<char>, i: nat)
    requires
        i <= s.len(),
    ensures
        i <= skip_ws(s, i) <= s.len(),
    decreases s.len() - i,
{
    if i < s.len() && white_space(s[i as int]) {
        lemma_skip_ws_bounds(s, i + 1);
    }
}

proof fn lemma_ident_end_bounds(s: Seq<char>, i: nat)
    requires
        i <= s.len(),
    ensures
        i <= ident_end(s, i) <= s.len(),
    decreases s.len() - i,
{
    if i < s.len() && is_ident_char(s[i as int]) {
        lemma_ident_end_bounds(s, i + 1);
    }
}

proof fn lemma_scan_number_bounds(s: Seq<char>, from: nat, i: nat, dot: bool, exp: bool)
    requires
        i <= s.len(),
    ensures
        i <= scan_number(s, from, i, dot, exp).0 <= s.len(),
    decreases s.len() - i,
{
    if i < s.len() {
        let n = s[i as int];
        if ascii_digit(n) {
            lemma_scan_number_bounds(s, from, i + 1, dot, exp);
        } else if n == '.' && !dot && !exp {
            lemma_scan_number_bounds(s, from, i + 1, true, exp);
        } else if (n == 'e' || n == 'E') && !exp {
            let j: nat = if i + 1 < s.len() && (s[i + 1 as int] == '+' || s[i + 1 as int] == '-') {
                i + 2
            } else {
                i + 1
            };
            if j < s.len() && ascii_digit(s[j as int]) {
                lemma_scan_number_bounds(s, from, j + 1, dot, true);
            }
        }
    }
}

proof fn lemma_scan_string_bounds(s: Seq<char>, i: nat, acc: Seq<char>)
    requires
        i <= s.len(),
    ensures
        i <= scan_string(s, i, acc).0 <= s.len(),
    decreases s.len() - i,
{
    if i < s.len() && s[i as int] != '"' {
        if s[i as int] == '\\' {
            if i + 1 < s.len() {
                lemma_scan_string_bounds(s, i + 2, acc.push(s[i + 1 as int]));
            }
        } else {
            lemma_scan_string_bounds(s, i + 1, acc.push(s[i as int]));
        }
    }
}

/// A scanner step never moves back nor past the end, and every token but the end marker
/// consumes at least one character.
pub proof fn lemma_step_progress(s: Seq<char>, st: LexState)
    requires
        st.pos <= s.len(),
    ensures
        st.pos <= lex_step(s, st).0.pos <= s.len(),
        !(lex_step(s, st).1 == Ok::<Tok, LexError>(Tok::Eof)) ==> st.pos < lex_step(s, st).0.pos,
{
    let i = skip_ws(s, st.pos);
    lemma_skip_ws_bounds(s, st.pos);
    if i < s.len() {
        let c = s[i as int];
        if ascii_digit(c) {
            lemma_scan_number_bounds(s, i, i + 1, false, false);
        } else if c == '"' {
            lemma_scan_string_bounds(s, i + 1, seq![]);
        } else if is_ident_start(c) {
            lemma_ident_end_bounds(s, i + 1);
        }
    }
}

/// The scanner over a text held in memory.
pub struct Lexer {
    pub cur_line: usize,
    pub cur_col: usize,
    pub position_offset: usize,
    chars: Vec<char>,
    pos: usize,
    paren: usize,
    bracket: usize,
    brace: usize,
}

impl Lexer {
    /// The text being scanned.
    pub closed spec fn input(&self) -> Seq<char> {
        self.chars@
    }

    /// The abstract scanner state.
    pub closed spec fn state(&self) -> LexState {
        LexState {
            pos: self.pos as nat,
            paren: self.paren as nat,
            bracket: self.bracket as nat,
            brace: self.brace as nat,
        }
    }

    /// The position counters agree with the characters consumed (the line count stops
    /// at `usize::MAX`), and the depths are bounded by them.
    pub closed spec fn wf(&self) -> bool {
        &&& self.pos <= self.chars.len()
        &&& self.position_offset == self.pos
        &&& self.cur_line == capped(line_col(self.chars@.take(self.pos as int)).0)
        &&& self.cur_col == line_col(self.chars@.take(self.pos as int)).1
        &&& self.paren + self.bracket + self.brace <= self.pos
    }

    pub proof fn lemma_wf(&self)
        requires
            self.wf(),
        ensures
            self.state().pos <= self.input().len(),
    {
    }

    /// A scanner at the start of `input`.
    pub fn new(input: &str) -> (r: Lexer)
        ensures
            r.wf(),
            r.input() == input@,
            r.state() == start(),
    {
        let chars = chars_of(input);
        let r = Lexer {
            cur_line: 1,
            cur_col: 0,
            position_offset: 0,
            chars,
            pos: 0,
            paren: 0,
            bracket: 0,
            brace: 0,
        };
        assert(r.chars@.take(0) =~= Seq::<char>::empty());
        r
    }

    fn peek(&self) -> (r: Option<char>)
        requires
            self.wf(),
        ensures
            self.pos < self.chars.len() ==> r == Some(self.chars@[self.pos as int]),
            self.pos >= self.chars.len() ==> r is None,
    {
        if self.pos < self.chars.len() {
            Some(self.chars[self.pos])
        } else {
            None
        }
    }

    /// Consumes one character, if any is left, and moves the position counters past it.
    pub fn consume_char(&mut self) -> (r: Option<char>)
        requires
            old(self).wf(),
        ensures
            final(self).wf(),
            final(self).input() == old(self).input(),
            old(self).state().pos < old(self).input().len() ==> r == Some(
                old(self).input()[old(self).state().pos as int],
            ) && final(self).state() == with_pos(old(self).state(), old(self).state().pos + 1),
            old(self).state().pos >= old(self).input().len() ==> r is None && final(self).state()
                == old(self).state(),
    {
        if self.pos < self.chars.len() {
            let c = self.chars[self.pos];
            proof {
                lemma_line_col_bound(self.chars@.take(self.pos as int));
            }
            self.pos = self.pos + 1;
            self.position_offset = self.pos;
            if c == '\n' {
                if self.cur_line < usize::MAX {
                    self.cur_line = self.cur_line + 1;
                }
                self.cur_col = 1;
            } else {
                self.cur_col = self.cur_col + 1;
            }
            assert(self.chars@.take(self.pos as int).drop_last() =~= old(self).chars@.take(
                old(self).pos as int,
            ));
            Some(c)
        } else {
            None
        }
    }

    /// Consumes whitespace up to the next other character or the end.
    fn skip_whitespace(&mut self)
        requires
            old(self).wf(),
        ensures
            final(self).wf(),
            final(self).input() == old(self).input(),
            final(self).state() == with_pos(
                old(self).state(),
                skip_ws(old(self).input(), old(self).state().pos),
            ),
    {
        loop
            invariant
                self.wf(),
                self.chars@ == old(self).chars@,
                self.state() == with_pos(old(self).state(), self.pos as nat),
                skip_ws(self.chars@, self.pos as nat) == skip_ws(
                    old(self).chars@,
                    old(self).pos as nat,
                ),
            decreases self.chars.len() - self.pos,
        {
            match self.peek() {
                Some(c) => {
                    if is_whitespace(c) {
                        self.consume_char();
                    } else {
                        return;
                    }
                },
                None => {
                    return;
                },
            }
        }
    }

    /// The bracket that pairs with `c`.
    fn map_balanced_state(c: &char) -> (r: char)
        requires
            is_opener(*c) || is_closer(*c),
        ensures
            r == matching(*c),
    {
        match *c {
            '(' => ')',
            ')' => '(',
            '[' => ']',
            ']' => '[',
            '{' => '}',
            _ => '{',
        }
    }

    /// Opens one more bracket of the family of `c`; gives the depth before.
    fn push_open(&mut self, c: &char) -> (r: usize)
        requires
            old(self).wf(),
            is_opener(*c),
            old(self).paren + old(self).bracket + old(self).brace < old(self).pos,
        ensures
            final(self).wf(),
            final(self).input() == old(self).input(),
            r == depth_of(old(self).state(), *c),
            final(self).state() == with_depth(old(self).state(), *c, (r + 1) as nat),
    {
        if *c == '(' {
            let d = self.paren;
            self.paren = d + 1;
            d
        } else if *c == '[' {
            let d = self.bracket;
            self.bracket = d + 1;
            d
        } else {
            let d = self.brace;
            self.brace = d + 1;
            d
        }
    }

    /// Closes one bracket of the family of the closer `c`, giving the depth that remains,
    /// or fails when that family has no open bracket.
    fn pop_close(&mut self, c: &char) -> (r: Result<usize, LexerError>)
        requires
            old(self).wf(),
            is_closer(*c),
        ensures
            final(self).wf(),
            final(self).input() == old(self).input(),
            ({
                let o = matching(*c);
                let d = depth_of(old(self).state(), o);
                if d > 0 {
                    r == Ok::<usize, LexerError>((d - 1) as usize) && final(self).state()
                        == with_depth(old(self).state(), o, (d - 1) as nat)
                } else {
                    r is Err && r->Err_0@ == (LexError::Missbalanced { symbol: *c, open: o })
                        && final(self).state() == old(self).state()
                }
            }),
    {
        let open = Self::map_balanced_state(c);
        let d = if open == '(' {
            self.paren
        } else if open == '[' {
            self.bracket
        } else {
            self.brace
        };
        if d > 0 {
            if open == '(' {
                self.paren = d - 1;
            } else if open == '[' {
                self.bracket = d - 1;
            } else {
                self.brace = d - 1;
            }
            Ok(d - 1)
        } else {
            Err(LexerError::MissbalancedSymbols { symbol: *c, open })
        }
    }

    /// Consumes one character, which must be a digit; `raw` is the literal so far, for
    /// the failure.
    fn consume_digit(&mut self, raw: &Vec<char>) -> (r: Result<char, LexerError>)
        requires
            old(self).wf(),
        ensures
            final(self).wf(),
            final(self).input() == old(self).input(),
            ({
                let s = old(self).input();
                let p = old(self).state().pos;
                &&& final(self).state() == with_pos(
                    old(self).state(),
                    if p < s.len() {
                        p + 1
                    } else {
                        p
                    },
                )
                &&& if p < s.len() && ascii_digit(s[p as int]) {
                    r == Ok::<char, LexerError>(s[p as int])
                } else {
                    r is Err && r->Err_0@ == (LexError::InvalidNumeric { raw: raw@ })
                }
            }),
    {
        match self.consume_char() {
            Some(c) => {
                if is_ascii_digit(c) {
                    Ok(c)
                } else {
                    Err(LexerError::InvalidNumeric { raw: string_of(raw) })
                }
            },
            None => Err(LexerError::InvalidNumeric { raw: string_of(raw) }),
        }
    }

    /// Scans a numeric literal whose first digit `c` has just been consumed. The raw text
    /// of the token is the literal exactly as it stands in the input.
    fn parse_number(&mut self, c: char) -> (r: Result<TokenType, LexerError>)
        requires
            old(self).wf(),
            old(self).state().pos >= 1,
            old(self).input()[old(self).state().pos - 1] == c,
        ensures
            final(self).wf(),
            final(self).input() == old(self).input(),
            ({
                let (e, res) = scan_number(
                    old(self).input(),
                    (old(self).state().pos - 1) as nat,
                    old(self).state().pos,
                    false,
                    false,
                );
                final(self).state() == with_pos(old(self).state(), e) && lex_result(r) == res
            }),
    {
        let ghost s = self.chars@;
        let ghost from = (self.pos - 1) as nat;
        let ghost goal = scan_number(s, from, self.pos as nat, false, false);
        let mut seen_dot = false;
        let mut seen_e = false;
        let mut number: Vec<char> = Vec::new();
        number.push(c);
        assert(number@ =~= s.subrange(from as int, self.pos as int));
        loop
            invariant
                self.wf(),
                self.chars@ == s,
                s == old(self).chars@,
                from + 1 == old(self).pos,
                goal == scan_number(s, from, old(self).pos as nat, false, false),
                from < self.pos,
                self.state() == with_pos(old(self).state(), self.pos as nat),
                number@ == s.subrange(from as int, self.pos as int),
                scan_number(s, from, self.pos as nat, seen_dot, seen_e) == goal,
            decreases self.chars.len() - self.pos,
        {
            let ghost p = self.pos as nat;
            match self.peek() {
                None => {
                    let kind = if seen_dot || seen_e {
                        NumericHint::Float
                    } else {
                        NumericHint::Integer
                    };
                    return Ok(TokenType::Numero { raw: string_of(&number), kind });
                },
                Some(next) => {
                    if is_ascii_digit(next) {
                        self.consume_char();
                        number.push(next);
                        assert(number@ =~= s.subrange(from as int, self.pos as int));
                    } else if next == '.' && !seen_dot && !seen_e {
                        seen_dot = true;
                        self.consume_char();
                        number.push(next);
                        assert(number@ =~= s.subrange(from as int, self.pos as int));
                    } else if (next == 'e' || next == 'E') && !seen_e {
                        seen_e = true;
                        self.consume_char();
                        number.push(next);
                        match self.peek() {
                            Some(sign) => {
                                if sign == '+' || sign == '-' {
                                    self.consume_char();
                                    number.push(sign);
                                }
                            },
                            None => {},
                        }
                        assert(number@ =~= s.subrange(from as int, self.pos as int));
                        match self.consume_digit(&number) {
                            Ok(d) => {
                                number.push(d);
                                assert(number@ =~= s.subrange(from as int, self.pos as int));
                            },
                            Err(e) => {
                                return Err(e);
                            },
                        }
                    } else if is_alphabetic(next) {
                        self.consume_char();
                        number.push(next);
                        assert(number@ =~= s.subrange(from as int, self.pos as int));
                        return Err(LexerError::InvalidNumeric { raw: string_of(&number) });
                    } else {
                        let kind = if seen_dot || seen_e {
                            NumericHint::Float
                        } else {
                            NumericHint::Integer
                        };
                        return Ok(TokenType::Numero { raw: string_of(&number), kind });
                    }
                },
            }
        }
    }

    /// Scans a string literal whose opening quote has just been consumed, up to the
    /// closing quote; a backslash keeps the character after it and is itself dropped.
    fn parse_string(&mut self, _c: char) -> (r: Result<TokenType, LexerError>)
        requires
            old(self).wf(),
        ensures
            final(self).wf(),
            final(self).input() == old(self).input(),
            ({
                let (e, res) = scan_string(old(self).input(), old(self).state().pos, seq![]);
                final(self).state() == with_pos(old(self).state(), e) && lex_result(r) == res
            }),
    {
        let ghost s = self.chars@;
        let ghost goal = scan_string(s, self.pos as nat, seq![]);
        let mut string: Vec<char> = Vec::new();
        loop
            invariant
                self.wf(),
                self.chars@ == s,
                s == old(self).chars@,
                goal == scan_string(s, old(self).pos as nat, seq![]),
                self.state() == with_pos(old(self).state(), self.pos as nat),
                scan_string(s, self.pos as nat, string@) == goal,
            decreases self.chars.len() - self.pos,
        {
            match self.consume_char() {
                None => {
                    return Err(LexerError::UnterminatedLiteral);
                },
                Some(c) => {
                    if c == '"' {
                        return Ok(TokenType::Cadena(string_of(&string)));
                    } else if c == '\\' {
                        match self.consume_char() {
                            Some(escaped) => {
                                string.push(escaped);
                            },
                            None => {
                                return Err(LexerError::UnterminatedLiteral);
                            },
                        }
                    } else {
                        string.push(c);
                    }
                },
            }
        }
    }

    /// Scans the token whose first character `c` has just been consumed.
    fn transform_to_type(&mut self, c: char) -> (r: Result<TokenType, LexerError>)
        requires
            old(self).wf(),
            old(self).state().pos >= 1,
            old(self).input()[old(self).state().pos - 1] == c,
            old(self).paren + old(self).bracket + old(self).brace < old(self).pos,
        ensures
            final(self).wf(),
            final(self).input() == old(self).input(),
            (final(self).state(), lex_result(r)) == scan_token(old(self).input(), old(self).state(), c),
    {
        let ghost s = self.chars@;
        if c == '(' || c == '[' || c == '{' {
            let d = self.push_open(&c);
            Ok(TokenType::Punctuation { raw: c, kind: PunctuationKind::Open(d) })
        } else if c == ')' || c == ']' || c == '}' {
            match self.pop_close(&c) {
                Ok(d) => Ok(TokenType::Punctuation { raw: c, kind: PunctuationKind::Close(d) }),
                Err(e) => Err(e),
            }
        } else if c == ',' || c == ';' {
            Ok(TokenType::Punctuation { raw: c, kind: PunctuationKind::Separator })
        } else if is_ascii_digit(c) {
            self.parse_number(c)
        } else if c == '"' {
            self.parse_string(c)
        } else if c == '+' || c == '-' || c == '*' || c == '/' || c == '=' || c == '<' || c == '>'
            || c == '!' || c == '&' || c == '|' {
            let mut operator: Vec<char> = Vec::new();
            operator.push(c);
            match self.peek() {
                Some(next) => {
                    if (c == '=' && next == '=') || (c == '!' && next == '=') || (c == '<' && next
                        == '=') || (c == '>' && next == '=') || (c == '&' && next == '&') || (c
                        == '|' && next == '|') || (c == '+' && next == '+') || (c == '-' && next
                        == '-') {
                        self.consume_char();
                        operator.push(next);
                        assert(operator@ =~= seq![c, next]);
                    } else {
                        assert(operator@ =~= seq![c]);
                    }
                },
                None => {
                    assert(operator@ =~= seq![c]);
                },
            }
            Ok(TokenType::Operator(string_of(&operator)))
        } else if is_alphabetic(c) || c == '_' {
            let ghost from = (self.pos - 1) as int;
            let mut ident: Vec<char> = Vec::new();
            ident.push(c);
            assert(ident@ =~= s.subrange(from, self.pos as int));
            loop
                invariant
                    self.wf(),
                    self.chars@ == s,
                    s == old(self).chars@,
                    from + 1 == old(self).pos,
                    0 <= from,
                    old(self).pos <= self.pos,
                    self.state() == with_pos(old(self).state(), self.pos as nat),
                    ident@ == s.subrange(from, self.pos as int),
                    ident_end(s, self.pos as nat) == ident_end(s, old(self).pos as nat),
                ensures
                    self.wf(),
                    self.chars@ == s,
                    old(self).pos <= self.pos,
                    self.state() == with_pos(old(self).state(), self.pos as nat),
                    ident@ == s.subrange(from, self.pos as int),
                    ident_end(s, old(self).pos as nat) == self.pos,
                decreases self.chars.len() - self.pos,
            {
                match self.peek() {
                    Some(next) => {
                        if is_alphanumeric(next) || next == '_' {
                            self.consume_char();
                            ident.push(next);
                            assert(ident@ =~= s.subrange(from, self.pos as int));
                        } else {
                            break;
                        }
                    },
                    None => {
                        break;
                    },
                }
            }
            if ident.len() == 4 && ident[0] == 't' && ident[1] == 'r' && ident[2] == 'u' && ident[3]
                == 'e' {
                assert(ident@ =~= seq!['t', 'r', 'u', 'e']);
                Ok(TokenType::Boolean(true))
            } else if ident.len() == 5 && ident[0] == 'f' && ident[1] == 'a' && ident[2] == 'l'
                && ident[3] == 's' && ident[4] == 'e' {
                assert(ident@ =~= seq!['f', 'a', 'l', 's', 'e']);
                Ok(TokenType::Boolean(false))
            } else {
                assert(ident@ != seq!['t', 'r', 'u', 'e'] && ident@ != seq!['f', 'a', 'l', 's', 'e'])
                    by {
                    if ident@ == seq!['t', 'r', 'u', 'e'] {
                        assert(ident@[1] == 'r');
                    }
                    if ident@ == seq!['f', 'a', 'l', 's', 'e'] {
                        assert(ident@[1] == 'a');
                    }
                }
                Ok(TokenType::Identificador(string_of(&ident)))
            }
        } else {
            let mut symbol: Vec<char> = Vec::new();
            symbol.push(c);
            assert(symbol@ =~= seq![c]);
            Err(LexerError::UnknownSymbol { symbol: string_of(&symbol) })
        }
    }

    /// Gives the next token, or the end marker once the input is exhausted (and on every
    /// call after that).
    pub fn next_token(&mut self) -> (r: Result<TokenType, LexerError>)
        requires
            old(self).wf(),
        ensures
            final(self).wf(),
            final(self).input() == old(self).input(),
            (final(self).state(), lex_result(r)) == lex_step(old(self).input(), old(self).state()),
    {
        self.skip_whitespace();
        match self.consume_char() {
            Some(c) => self.transform_to_type(c),
            None => Ok(TokenType::EOF),
        }
    }

    /// Gives the token that the next call of `next_token` will give, and leaves the
    /// scanner as it was.
    pub fn peek_token(&mut self) -> (r: Result<TokenType, LexerError>)
        requires
            old(self).wf(),
        ensures
            final(self).wf(),
            final(self).input() == old(self).input(),
            final(self).state() == old(self).state(),
            lex_result(r) == lex_step(old(self).input(), old(self).state()).1,
    {
        let saved = (
            self.cur_line,
            self.cur_col,
            self.position_offset,
            self.pos,
            self.paren,
            self.bracket,
            self.brace,
        );
        let r = self.next_token();
        self.cur_line = saved.0;
        self.cur_col = saved.1;
        self.position_offset = saved.2;
        self.pos = saved.3;
        self.paren = saved.4;
        self.bracket = saved.5;
        self.brace = saved.6;
        r
    }

    /// Scans up to the end marker and gives the tokens before it, or the first failure.
    pub fn tokenize_all(&mut self) -> (r: Result<Vec<TokenType>, LexerError>)
        requires
            old(self).wf(),
        ensures
            final(self).wf(),
            final(self).input() == old(self).input(),
            (final(self).state(), lex_results(r)) == lex_run(old(self).input(), old(self).state()),
    {
        let ghost s = self.chars@;
        let mut tokens: Vec<TokenType> = Vec::new();
        loop
            invariant
                self.wf(),
                self.chars@ == s,
                s == old(self).chars@,
                lex_run(s, old(self).state()) == prepend(
                    tokens@.map_values(|t: TokenType| t@),
                    lex_run(s, self.state()),
                ),
            decreases self.chars.len() - self.pos,
        {
            let ghost before = self.state();
            let ghost done = tokens@.map_values(|t: TokenType| t@);
            proof {
                lemma_step_progress(s, before);
            }
            match self.next_token() {
                Ok(token) => {
                    if token.is_eof() {
                        assert(done + seq![] =~= done);
                        return Ok(tokens);
                    }
                    tokens.push(token);
                    assert(tokens@.map_values(|t: TokenType| t@) =~= done + seq![token@]);
                    assert(prepend(done, lex_run(s, before)) == prepend(
                        tokens@.map_values(|t: TokenType| t@),
                        lex_run(s, self.state()),
                    )) by {
                        match lex_run(s, self.state()).1 {
                            Ok(ts) => {
                                assert(done + (seq![token@] + ts) =~= (done + seq![token@]) + ts);
                            },
                            Err(_) => {},
                        }
                    }
                },
                Err(e) => {
                    return Err(e);
                },
            }
        }
    }
}


/// `ts` put in front of the tokens of a run; a failure stays as it is.
pub open spec fn prepend(ts: Seq<Tok>, run: (LexState, Result<Seq<Tok>, LexError>)) -> (
    LexState,
    Result<Seq<Tok>, LexError>,
) {
    (
        run.0,
        match run.1 {
            Ok(rest) => Ok(ts + rest),
            Err(e) => Err(e),
        },
    )
}

/// The view of the result of a whole scan.
pub open spec fn lex_results(r: Result<Vec<TokenType>, LexerError>) -> Result<Seq<Tok>, LexError> {
    match r {
        Ok(v) => Ok(v@.map_values(|t: TokenType| t@)),
        Err(e) => Err(e@),
    }
}

/// The tokens of `text` before the end marker, or the first failure, from a fresh
/// scanner.
pub fn tokenize(text: &str) -> (r: Result<Vec<TokenType>, LexerError>)
    ensures
        lex_results(r) == lex_run(text@, start()).1,
{
    let mut lexer = Lexer::new(text);
    lexer.tokenize_all()
}

} // verus!
