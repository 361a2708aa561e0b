//! Best-effort type inference over expressions, against a table of known symbols.
//! It is no part of the language's semantics: it only labels expressions for display.
use vstd::prelude::*;
use crate::ast::{ASTNode, Ast};
use crate::text::text_is;

verus! {

/// A symbol recorded while analysing a program.
#[derive(Debug, Clone)]
pub struct SymbolInfo {
    pub name: String,
    pub symbol_type: String,
    pub data_type: String,
    pub scope: String,
    pub line: usize,
}

/// What a symbol records, as character sequences.
pub struct SymView {
    pub name: Seq<char>,
    pub symbol_type: Seq<char>,
    pub data_type: Seq<char>,
    pub scope: Seq<char>,
    pub line: nat,
}

pub open spec fn sym_view(s: SymbolInfo) -> SymView {
    SymView {
        name: s.name@,
        symbol_type: s.symbol_type@,
        data_type: s.data_type@,
        scope: s.scope@,
        line: s.line as nat,
    }
}

pub open spec fn table_view(t: Seq<SymbolInfo>) -> Seq<SymView> {
    t.map_values(|s: SymbolInfo| sym_view(s))
}

/// The data type of the first symbol of `table` named `name`, if any.
pub open spec fn lookup_type(table: Seq<SymView>, name: Seq<char>) -> Option<Seq<char>>
    decreases table.len(),
{
    if table.len() == 0 {
        None
    } else if table[0].name == name {
        Some(table[0].data_type)
    } else {
        lookup_type(table.drop_first(), name)
    }
}

pub open spec fn arithmetic_op(op: Seq<char>) -> bool {
    op == "+"@ || op == "-"@ || op == "*"@ || op == "/"@ || op == "%"@
}

pub open spec fn boolean_op(op: Seq<char>) -> bool {
    op == "=="@ || op == "!="@ || op == "<"@ || op == ">"@ || op == "<="@ || op == ">="@ || op
        == "&&"@ || op == "||"@
}

/// The type inferred for `n`: literals by kind, identifiers from the table, arithmetic as
/// `float64` when either side is, comparisons and logic as `bool`; `unknown` otherwise.
pub open spec fn inferred_type(n: Ast, table: Seq<SymView>) -> Seq<char>
    decreases n,
{
    match n {
        Ast::Number { is_float, .. } => if is_float {
            "float64"@
        } else {
            "int"@
        },
        Ast::Str { .. } => "string"@,
        Ast::Boolean { .. } => "bool"@,
        Ast::Identifier { name } => match lookup_type(table, name) {
            Some(t) => t,
            None => "unknown"@,
        },
        Ast::BinaryOp { left, operator, right } => {
            let lt = inferred_type(*left, table);
            let rt = inferred_type(*right, table);
            if arithmetic_op(operator) {
                if lt == "float64"@ || rt == "float64"@ {
                    "float64"@
                } else {
                    "int"@
                }
            } else if boolean_op(operator) {
                "bool"@
            } else {
                "unknown"@
            }
        },
        Ast::UnaryOp { operator, operand } => {
            let ot = inferred_type(*operand, table);
            if operator == "!"@ {
                if ot == "bool"@ {
                    "bool"@
                } else {
                    "unknown"@
                }
            } else if operator == "-"@ || operator == "+"@ {
                if ot == "int"@ || ot == "float64"@ {
                    ot
                } else {
                    "unknown"@
                }
            } else {
                "unknown"@
            }
        },
        Ast::Parenthesized { expression } => inferred_type(*expression, table),
        _ => "unknown"@,
    }
}

/// The data type recorded for `name`, or `unknown`.
fn find_symbol_type(name: &String, symbol_table: &[SymbolInfo]) -> (r: String)
    ensures
        r@ == match lookup_type(table_view(symbol_table@), name@) {
            Some(t) => t,
            None => "unknown"@,
        },
{
    let mut i: usize = 0;
    assert(table_view(symbol_table@).skip(0) =~= table_view(symbol_table@));
    while i < symbol_table.len()
        invariant
            i <= symbol_table@.len(),
            lookup_type(table_view(symbol_table@), name@) == lookup_type(
                table_view(symbol_table@).skip(i as int),
                name@,
            ),
        decreases symbol_table.len() - i,
    {
        let sym = &symbol_table[i];
        assert(table_view(symbol_table@).skip(i as int)[0] == sym_view(symbol_table@[i as int]));
        if sym.name == *name {
            return sym.data_type.clone();
        }
        assert(table_view(symbol_table@).skip(i as int).drop_first() =~= table_view(
            symbol_table@,
        ).skip(i + 1 as int));
        i = i + 1;
    }
    "unknown".to_string()
}

/// Infers the type of the expression `node` against `symbol_table`.
pub fn infer_type_from_node(node: &ASTNode, symbol_table: &[SymbolInfo]) -> (r: String)
    ensures
        r@ == inferred_type(node@, table_view(symbol_table@)),
    decreases node,
{
    match node {
        ASTNode::Number { is_float, .. } => {
            if *is_float {
                "float64".to_string()
            } else {
                "int".to_string()
            }
        },
        ASTNode::String { .. } => "string".to_string(),
        ASTNode::Boolean { .. } => "bool".to_string(),
        ASTNode::Identifier { name } => find_symbol_type(name, symbol_table),
        ASTNode::BinaryOp { operator, left, right } => {
            let left_type = infer_type_from_node(left, symbol_table);
            let right_type = infer_type_from_node(right, symbol_table);
            if text_is(operator, "+") || text_is(operator, "-") || text_is(operator, "*")
                || text_is(operator, "/") || text_is(operator, "%") {
                if text_is(&left_type, "float64") || text_is(&right_type, "float64") {
                    "float64".to_string()
                } else {
                    "int".to_string()
                }
            } else if text_is(operator, "==") || text_is(operator, "!=") || text_is(operator, "<")
                || text_is(operator, ">") || text_is(operator, "<=") || text_is(operator, ">=")
                || text_is(operator, "&&") || text_is(operator, "||") {
                "bool".to_string()
            } else {
                "unknown".to_string()
            }
        },
        ASTNode::UnaryOp { operator, operand } => {
            let operand_type = infer_type_from_node(operand, symbol_table);
            if text_is(operator, "!") {
                if text_is(&operand_type, "bool") {
                    "bool".to_string()
                } else {
                    "unknown".to_string()
                }
            } else if text_is(operator, "-") || text_is(operator, "+") {
                if text_is(&operand_type, "int") || text_is(&operand_type, "float64") {
                    operand_type
                } else {
                    "unknown".to_string()
                }
            } else {
                "unknown".to_string()
            }
        },
        ASTNode::Parenthesized { expression } => infer_type_from_node(expression, symbol_table),
        _ => "unknown".to_string(),
    }
}

pub open spec fn numeric_type(t: Seq<char>) -> bool {
    t == "int"@ || t == "float64"@ || t == "float32"@
}

pub open spec fn comparable_type(t: Seq<char>) -> bool {
    numeric_type(t) || t == "string"@ || t == "bool"@
}

/// Whether operands of types `lt` and `rt` suit the binary operator `op`: arithmetic
/// wants a number on one side, a comparison a number, string or bool on one side, `&&`
/// and `||` a bool on both; any other operator passes.
pub open spec fn binary_valid(op: Seq<char>, lt: Seq<char>, rt: Seq<char>) -> bool {
    if arithmetic_op(op) {
        numeric_type(lt) || numeric_type(rt)
    } else if op == "=="@ || op == "!="@ || op == "<"@ || op == ">"@ || op == "<="@ || op
        == ">="@ {
        comparable_type(lt) || comparable_type(rt)
    } else if op == "&&"@ || op == "||"@ {
        lt == "bool"@ && rt == "bool"@
    } else {
        true
    }
}

/// Whether an operand of type `ot` suits the unary operator `op`: `!` wants a bool,
/// `-` and `+` an `int` or `float64`; any other operator passes.
pub open spec fn unary_valid(op: Seq<char>, ot: Seq<char>) -> bool {
    if op == "!"@ {
        ot == "bool"@
    } else if op == "-"@ || op == "+"@ {
        ot == "int"@ || ot == "float64"@
    } else {
        true
    }
}

fn is_numeric_type(t: &String) -> (r: bool)
    ensures
        r == numeric_type(t@),
{
    text_is(t, "int") || text_is(t, "float64") || text_is(t, "float32")
}

fn is_comparable_type(t: &String) -> (r: bool)
    ensures
        r == comparable_type(t@),
{
    is_numeric_type(t) || text_is(t, "string") || text_is(t, "bool")
}

/// Checks the operand types of a binary operator.
pub fn binary_types_valid(op: &String, left: &String, right: &String) -> (r: bool)
    ensures
        r == binary_valid(op@, left@, right@),
{
    if text_is(op, "+") || text_is(op, "-") || text_is(op, "*") || text_is(op, "/") || text_is(
        op,
        "%",
    ) {
        is_numeric_type(left) || is_numeric_type(right)
    } else if text_is(op, "==") || text_is(op, "!=") || text_is(op, "<") || text_is(op, ">")
        || text_is(op, "<=") || text_is(op, ">=") {
        is_comparable_type(left) || is_comparable_type(right)
    } else if text_is(op, "&&") || text_is(op, "||") {
        text_is(left, "bool") && text_is(right, "bool")
    } else {
        true
    }
}

/// Checks the operand type of a unary operator.
pub fn unary_type_valid(op: &String, operand: &String) -> (r: bool)
    ensures
        r == unary_valid(op@, operand@),
{
    if text_is(op, "!") {
        text_is(operand, "bool")
    } else if text_is(op, "-") || text_is(op, "+") {
        text_is(operand, "int") || text_is(operand, "float64")
    } else {
        true
    }
}

/// The index of the first symbol of `table` named `name`, if any.
pub open spec fn first_named(table: Seq<SymView>, name: Seq<char>) -> Option<nat>
    decreases table.len(),
{
    if table.len() == 0 {
        None
    } else if table[0].name == name {
        Some(0)
    } else {
        match first_named(table.drop_first(), name) {
            Some(i) => Some(i + 1),
            None => None,
        }
    }
}

/// Finds the first symbol named `name`.
pub fn find_symbol(symbol_table: &[SymbolInfo], name: &String) -> (r: Option<usize>)
    ensures
        r matches Some(i) ==> first_named(table_view(symbol_table@), name@) == Some(i as nat) && i
            < symbol_table@.len(),
        r is None ==> first_named(table_view(symbol_table@), name@) is None,
{
    let mut i: usize = 0;
    while i < symbol_table.len()
        invariant
            i <= symbol_table@.len(),
            forall|j: int| 0 <= j < i ==> symbol_table@[j].name@ != name@,
        decreases symbol_table.len() - i,
    {
        if symbol_table[i].name == *name {
            proof {
                lemma_first_named(table_view(symbol_table@), name@, i as int);
            }
            return Some(i);
        }
        i = i + 1;
    }
    proof {
        lemma_first_named(table_view(symbol_table@), name@, symbol_table@.len() as int);
    }
    None
}

/// When no symbol before `k` is named `name`, the first one named so is at `k`, or there
/// is none when `k` is the end.
proof fn lemma_first_named(table: Seq<SymView>, name: Seq<char>, k: int)
    requires
        0 <= k <= table.len(),
        forall|j: int| 0 <= j < k ==> table[j].name != name,
        k < table.len() ==> table[k].name == name,
    ensures
        k < table.len() ==> first_named(table, name) == Some(k as nat),
        k == table.len() ==> first_named(table, name) is None,
    decreases k,
{
    if k > 0 {
        lemma_first_named(table.drop_first(), name, k - 1);
    }
}

} // verus!
