//! Properties of the scanner model: bracket balance over one family, the numeric
//! literal grammar, the string escape round trip, and determinism.
use vstd::prelude::*;
use crate::lexer::{
    LexState, start, is_opener, matching, depth_of, with_depth, with_pos, lex_step, lex_run,
    scan_token, skip_ws, scan_string, scan_number, hint,
};
use crate::text::ascii_digit;
use crate::token::NumericHint;
use crate::token::{Tok, LexError};

verus! {

/// Openers of the family of `o` minus its closers, among the first `k` characters.
pub open spec fn balance(s: Seq<char>, o: char, k: int) -> int
    decreases k,
{
    if k <= 0 {
        0
    } else {
        balance(s, o, k - 1) + if s[k - 1] == o {
            1int
        } else if s[k - 1] == matching(o) {
            -1int
        } else {
            0int
        }
    }
}

/// Every character of `s` is the opener `o` or its closer.
pub open spec fn one_family(s: Seq<char>, o: char) -> bool {
    &&& is_opener(o)
    &&& forall|i: int| 0 <= i < s.len() ==> s[i] == o || s[i] == matching(o)
}

/// One step over a bracket of the family: the depth follows the balance.
proof fn lemma_bracket_step(s: Seq<char>, o: char, st: LexState)
    requires
        one_family(s, o),
        st.pos < s.len(),
        depth_of(st, o) == balance(s, o, st.pos as int),
        balance(s, o, st.pos + 1 as int) >= 0,
    ensures
        lex_step(s, st) == (
            with_depth(with_pos(st, st.pos + 1), o, balance(s, o, st.pos + 1 as int) as nat),
            Ok::<Tok, LexError>(
                Tok::Punct {
                    raw: s[st.pos as int],
                    kind: if s[st.pos as int] == o {
                        crate::token::PunctuationKind::Open(depth_of(st, o) as usize)
                    } else {
                        crate::token::PunctuationKind::Close(
                            balance(s, o, st.pos + 1 as int) as usize,
                        )
                    },
                },
            ),
        ),
{
    let c = s[st.pos as int];
    assert(skip_ws(s, st.pos) == st.pos);
    assert(matching(matching(o)) == o);
}

proof fn lemma_balanced_run(s: Seq<char>, o: char, st: LexState)
    requires
        one_family(s, o),
        st.pos <= s.len(),
        depth_of(st, o) == balance(s, o, st.pos as int),
        forall|j: int| st.pos <= j <= s.len() ==> balance(s, o, j) >= 0,
    ensures
        lex_run(s, st).1 is Ok,
        lex_run(s, st).0 == with_depth(with_pos(st, s.len()), o, balance(s, o, s.len() as int) as nat),
    decreases s.len() - st.pos,
{
    if st.pos == s.len() {
        assert(skip_ws(s, st.pos) == st.pos);
    } else {
        assert(balance(s, o, st.pos + 1 as int) >= 0);
        lemma_bracket_step(s, o, st);
        let st2 = lex_step(s, st).0;
        lemma_balanced_run(s, o, st2);
    }
}

proof fn lemma_failing_run(s: Seq<char>, o: char, st: LexState, k: int)
    requires
        one_family(s, o),
        st.pos <= k < s.len(),
        depth_of(st, o) == balance(s, o, st.pos as int),
        balance(s, o, k + 1) < 0,
        forall|j: int| st.pos <= j <= k ==> balance(s, o, j) >= 0,
    ensures
        lex_run(s, st) == (
            with_depth(with_pos(st, (k + 1) as nat), o, 0),
            Err::<Seq<Tok>, LexError>(LexError::Missbalanced { symbol: matching(o), open: o }),
        ),
    decreases k - st.pos,
{
    assert(balance(s, o, st.pos as int) >= 0);
    if st.pos == k {
        assert(skip_ws(s, st.pos) == st.pos);
        assert(s[k] == matching(o));
        assert(matching(matching(o)) == o);
    } else {
        assert(balance(s, o, st.pos + 1 as int) >= 0);
        lemma_bracket_step(s, o, st);
        let st2 = lex_step(s, st).0;
        lemma_failing_run(s, o, st2, k);
    }
}

/// Over a text made of one bracket family only, in which no prefix closes more brackets
/// than it opens and the whole text closes all it opens, scanning to the end succeeds and
/// leaves that family at depth 0.
pub proof fn lemma_balanced_family_ends_at_zero(s: Seq<char>, o: char)
    requires
        one_family(s, o),
        forall|k: int| 0 <= k <= s.len() ==> balance(s, o, k) >= 0,
        balance(s, o, s.len() as int) == 0,
    ensures
        lex_run(s, start()).1 is Ok,
        lex_run(s, start()).0.pos == s.len(),
        depth_of(lex_run(s, start()).0, o) == 0,
{
    lemma_balanced_run(s, o, start());
}

/// Over a text made of one bracket family only, when the closer at index `k` is the first
/// to close more brackets than were opened, scanning fails with a bracket mismatch for
/// that closer, right after it and not at the end of the input.
pub proof fn lemma_extra_closer_fails_at_it(s: Seq<char>, o: char, k: int)
    requires
        one_family(s, o),
        0 <= k < s.len(),
        balance(s, o, k + 1) < 0,
        forall|j: int| 0 <= j <= k ==> balance(s, o, j) >= 0,
    ensures
        lex_run(s, start()).1 == Err::<Seq<Tok>, LexError>(
            LexError::Missbalanced { symbol: matching(o), open: o },
        ),
        lex_run(s, start()).0.pos == k + 1,
{
    lemma_failing_run(s, o, start(), k);
}

/// Once only whitespace is left, the scanner gives the end marker, and calling it again
/// gives the same marker from the same state.
pub proof fn lemma_end_marker_repeats(s: Seq<char>, st: LexState)
    requires
        skip_ws(s, st.pos) >= s.len(),
    ensures
        lex_step(s, st).1 == Ok::<Tok, LexError>(Tok::Eof),
        lex_step(s, lex_step(s, st).0) == lex_step(s, st),
{
    let i = skip_ws(s, st.pos);
    assert(skip_ws(s, i) == i);
}

/// Scanning is a function of the text alone: two scanners made fresh over the same text
/// and run to the end (two calls of `tokenize`) give the same tokens, or the same failure.
pub proof fn lemma_tokenize_is_deterministic(a: Seq<char>, b: Seq<char>)
    requires
        a == b,
    ensures
        lex_run(a, start()) == lex_run(b, start()),
{
}

/// A string literal's body for `content`: each character, preceded by a backslash where
/// `escaped` says so.
pub open spec fn encode_chars(content: Seq<char>, escaped: Seq<bool>) -> Seq<char>
    decreases content.len(),
{
    if content.len() == 0 {
        seq![]
    } else {
        (if escaped[0] {
            seq!['\\', content[0]]
        } else {
            seq![content[0]]
        }) + encode_chars(content.drop_first(), escaped.drop_first())
    }
}

/// Each quote and each backslash of `content` is escaped.
pub open spec fn escapes_ok(content: Seq<char>, escaped: Seq<bool>) -> bool {
    &&& escaped.len() == content.len()
    &&& forall|i: int|
        0 <= i < content.len() && (content[i] == '"' || content[i] == '\\') ==> escaped[i]
}

proof fn lemma_scan_encoded(
    s: Seq<char>,
    i: int,
    acc: Seq<char>,
    content: Seq<char>,
    escaped: Seq<bool>,
)
    requires
        escapes_ok(content, escaped),
        0 <= i,
        i + encode_chars(content, escaped).len() < s.len(),
        s.subrange(i, i + encode_chars(content, escaped).len() + 1) == encode_chars(
            content,
            escaped,
        ) + seq!['"'],
    ensures
        scan_string(s, i as nat, acc) == (
            (i + encode_chars(content, escaped).len() + 1) as nat,
            Ok::<Tok, LexError>(Tok::Str(acc + content)),
        ),
    decreases content.len(),
{
    let e = encode_chars(content, escaped);
    let w = s.subrange(i, i + e.len() + 1);
    if content.len() == 0 {
        assert(s[i] == w[0]);
        assert(acc + content =~= acc);
    } else {
        let c0 = content[0];
        let rest = encode_chars(content.drop_first(), escaped.drop_first());
        assert(escapes_ok(content.drop_first(), escaped.drop_first())) by {
            assert forall|k: int|
                0 <= k < content.drop_first().len() && (content.drop_first()[k] == '"'
                    || content.drop_first()[k] == '\\') implies escaped.drop_first()[k] by {
                assert(content.drop_first()[k] == content[k + 1]);
            }
        }
        assert(acc.push(c0) + content.drop_first() =~= acc + content);
        if escaped[0] {
            assert(s[i] == w[0]);
            assert(s[i + 1] == w[1]);
            assert(s.subrange(i + 2, i + 2 + rest.len() + 1) =~= rest + seq!['"']) by {
                assert forall|k: int| 0 <= k < rest.len() + 1 implies s.subrange(
                    i + 2,
                    i + 2 + rest.len() + 1,
                )[k] == (rest + seq!['"'])[k] by {
                    assert(w[k + 2] == (e + seq!['"'])[k + 2]);
                }
            }
            lemma_scan_encoded(s, i + 2, acc.push(c0), content.drop_first(), escaped.drop_first());
        } else {
            assert(s[i] == w[0]);
            assert(s.subrange(i + 1, i + 1 + rest.len() + 1) =~= rest + seq!['"']) by {
                assert forall|k: int| 0 <= k < rest.len() + 1 implies s.subrange(
                    i + 1,
                    i + 1 + rest.len() + 1,
                )[k] == (rest + seq!['"'])[k] by {
                    assert(w[k + 1] == (e + seq!['"'])[k + 1]);
                }
            }
            lemma_scan_encoded(s, i + 1, acc.push(c0), content.drop_first(), escaped.drop_first());
        }
    }
}

/// A string literal whose quotes and backslashes inside are escaped (other characters may
/// be escaped too) scans to exactly its content, and the whole literal is consumed.
pub proof fn lemma_string_literal_round_trip(content: Seq<char>, escaped: Seq<bool>)
    requires
        escapes_ok(content, escaped),
    ensures
        ({
            let s = seq!['"'] + encode_chars(content, escaped) + seq!['"'];
            lex_step(s, start()) == (with_pos(start(), s.len()), Ok::<Tok, LexError>(
                Tok::Str(content),
            ))
        }),
{
    let e = encode_chars(content, escaped);
    let s = seq!['"'] + e + seq!['"'];
    assert(skip_ws(s, 0) == 0);
    assert(s.subrange(1, 1 + e.len() + 1 as int) =~= e + seq!['"']);
    lemma_scan_encoded(s, 1, seq![], content, escaped);
    assert(seq![] + content =~= content);
}

/// A non-empty run of ASCII digits.
pub open spec fn all_digits(d: Seq<char>) -> bool {
    &&& d.len() > 0
    &&& forall|i: int| 0 <= i < d.len() ==> ascii_digit(d[i])
}

/// The text `digits(.digits)?([eE][+-]?digits)?` made of its parts: the integer digits, the
/// fraction digits if any, and the exponent (marker, sign, digits) if any.
pub open spec fn numeric_text(
    int_part: Seq<char>,
    frac: Option<Seq<char>>,
    exp: Option<(char, Seq<char>, Seq<char>)>,
) -> Seq<char> {
    int_part + match frac {
        Some(f) => seq!['.'] + f,
        None => seq![],
    } + match exp {
        Some((m, sign, d)) => seq![m] + sign + d,
        None => seq![],
    }
}

/// The parts form a literal of `digits(.digits)?([eE][+-]?digits)?`.
pub open spec fn numeric_parts_ok(
    int_part: Seq<char>,
    frac: Option<Seq<char>>,
    exp: Option<(char, Seq<char>, Seq<char>)>,
) -> bool {
    &&& all_digits(int_part)
    &&& (frac matches Some(f) ==> all_digits(f))
    &&& (exp matches Some((m, sign, d)) ==> {
        &&& m == 'e' || m == 'E'
        &&& sign.len() <= 1
        &&& (sign.len() == 1 ==> sign[0] == '+' || sign[0] == '-')
        &&& all_digits(d)
    })
}

proof fn lemma_digit_run(s: Seq<char>, from: nat, i: nat, j: nat, dot: bool, exp: bool)
    requires
        i <= j <= s.len(),
        forall|k: int| i <= k < j ==> ascii_digit(s[k]),
    ensures
        scan_number(s, from, i, dot, exp) == scan_number(s, from, j, dot, exp),
    decreases j - i,
{
    if i < j {
        lemma_digit_run(s, from, i + 1, j, dot, exp);
    }
}

/// A text of the numeric literal grammar scans, whole, as one number token whose raw text
/// is the text itself; it is a float exactly when it has a fraction or an exponent.
pub proof fn lemma_numeric_literal_scans(
    int_part: Seq<char>,
    frac: Option<Seq<char>>,
    exp: Option<(char, Seq<char>, Seq<char>)>,
)
    requires
        numeric_parts_ok(int_part, frac, exp),
    ensures
        ({
            let s = numeric_text(int_part, frac, exp);
            lex_step(s, start()) == (with_pos(start(), s.len()), Ok::<Tok, LexError>(
                Tok::Number {
                    raw: s,
                    kind: if frac is Some || exp is Some {
                        NumericHint::Float
                    } else {
                        NumericHint::Integer
                    },
                },
            ))
        }),
{
    let ft: Seq<char> = match frac {
        Some(f) => seq!['.'] + f,
        None => seq![],
    };
    let et: Seq<char> = match exp {
        Some((m, sign, d)) => seq![m] + sign + d,
        None => seq![],
    };
    let s = numeric_text(int_part, frac, exp);
    assert(s == int_part + ft + et);
    let a = int_part.len();
    let b = a + ft.len();
    assert forall|k: int| 0 <= k < a implies s[k] == int_part[k] by {}
    assert(skip_ws(s, 0) == 0);
    lemma_digit_run(s, 0, 1, a, false, false);
    if let Some(f) = frac {
        assert(s[a as int] == '.');
        assert forall|k: int| a + 1 <= k < b implies ascii_digit(s[k]) by {
            assert(s[k] == f[k - a - 1]);
        }
        lemma_digit_run(s, 0, a + 1, b, true, false);
    }
    let dot = frac is Some;
    if let Some((m, sign, d)) = exp {
        assert(s[b as int] == m);
        let j = b + 1 + sign.len();
        if sign.len() == 1 {
            assert(s[b + 1 as int] == sign[0]);
        } else {
            assert(s[b + 1 as int] == d[0]);
        }
        assert(s[j as int] == d[0]);
        assert forall|k: int| j + 1 <= k < s.len() implies ascii_digit(s[k]) by {
            assert(s[k] == d[k - j]);
        }
        lemma_digit_run(s, 0, j + 1, s.len(), dot, true);
    }
    assert(s.subrange(0, s.len() as int) =~= s);
}

} // verus!
