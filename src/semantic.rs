//! A step-by-step analysis report over a parsed program, for display: it records a
//! symbol per assigned identifier (typed by `analysis::inferred_type` of the value), a
//! step per visited node, and an operand-type check per operator. It is no part of the
//! language's semantics.
use vstd::prelude::*;
use crate::analysis::{
    SymbolInfo, SymView, sym_view, table_view, first_named, inferred_type, binary_valid,
    unary_valid, infer_type_from_node, binary_types_valid, unary_type_valid, find_symbol,
};
use crate::ast::{ASTNode, Ast, kind_name};
use crate::graphviz::succ;
use crate::text::{push_str, push_all, chars_of, string_of, text_is};

verus! {

/// One step of the report.
#[derive(Debug, Clone)]
pub struct SemanticStep {
    pub step_number: usize,
    pub description: String,
    pub node_type: String,
    pub action: String,
    pub symbol_added: Option<String>,
    pub type_check: Option<String>,
    pub error: Option<String>,
}

/// The check of an operator's operand types.
#[derive(Debug, Clone)]
pub struct TypeCheck {
    pub expression: String,
    pub expected_type: String,
    pub actual_type: String,
    pub is_valid: bool,
    pub error_message: Option<String>,
}

pub open spec fn opt(o: Option<String>) -> Option<Seq<char>> {
    match o {
        Some(s) => Some(s@),
        None => None,
    }
}

pub struct StepView {
    pub number: nat,
    pub description: Seq<char>,
    pub node_type: Seq<char>,
    pub action: Seq<char>,
    pub symbol_added: Option<Seq<char>>,
    pub type_check: Option<Seq<char>>,
    pub error: Option<Seq<char>>,
}

pub struct CheckView {
    pub expression: Seq<char>,
    pub expected_type: Seq<char>,
    pub actual_type: Seq<char>,
    pub is_valid: bool,
    pub error_message: Option<Seq<char>>,
}

pub open spec fn step_view(s: SemanticStep) -> StepView {
    StepView {
        number: s.step_number as nat,
        description: s.description@,
        node_type: s.node_type@,
        action: s.action@,
        symbol_added: opt(s.symbol_added),
        type_check: opt(s.type_check),
        error: opt(s.error),
    }
}

pub open spec fn check_view(c: TypeCheck) -> CheckView {
    CheckView {
        expression: c.expression@,
        expected_type: c.expected_type@,
        actual_type: c.actual_type@,
        is_valid: c.is_valid,
        error_message: opt(c.error_message),
    }
}

/// The report so far: steps, symbols, checks, and the number of the next step.
pub struct ReportView {
    pub steps: Seq<StepView>,
    pub symbols: Seq<SymView>,
    pub checks: Seq<CheckView>,
    pub next: nat,
}

pub open spec fn add_step(
    r: ReportView,
    description: Seq<char>,
    node_type: Seq<char>,
    action: Seq<char>,
    symbol_added: Option<Seq<char>>,
    type_check: Option<Seq<char>>,
    error: Option<Seq<char>>,
) -> ReportView {
    ReportView {
        steps: r.steps.push(
            StepView {
                number: r.next,
                description,
                node_type,
                action,
                symbol_added,
                type_check,
                error,
            },
        ),
        next: succ(r.next),
        ..r
    }
}

/// How an operand is shown in a check: its name or value, or `expr`.
pub open spec fn shown(n: Ast, booleans: bool) -> Seq<char> {
    match n {
        Ast::Identifier { name } => name,
        Ast::Number { value, .. } => value,
        Ast::Boolean { value } => if !booleans {
            "expr"@
        } else if value {
            "true"@
        } else {
            "false"@
        },
        _ => "expr"@,
    }
}

/// The report after visiting `n`.
pub open spec fn analyze(n: Ast, r: ReportView) -> ReportView
    decreases n, 1nat, 0nat,
{
    match n {
        Ast::Identifier { name } => match first_named(r.symbols, name) {
            None => add_step(
                r,
                "Variable '"@ + name + "' no declarada"@,
                "Identifier"@,
                "Verificar declaración"@,
                None,
                None,
                Some("Variable '"@ + name + "' no está declarada"@),
            ),
            Some(i) => add_step(
                r,
                "Variable '"@ + name + "' encontrada en tabla de símbolos"@,
                "Identifier"@,
                "Verificar declaración"@,
                None,
                Some(r.symbols[i as int].data_type),
                None,
            ),
        },
        Ast::Assignment { left, right } => {
            let r1 = add_step(
                r,
                "Analizando asignación"@,
                "Assignment"@,
                "Verificar tipos de asignación"@,
                None,
                Some("Assignment check"@),
                None,
            );
            let r2 = match *left {
                Ast::Identifier { name } => {
                    let t = inferred_type(*right, r1.symbols);
                    match first_named(r1.symbols, name) {
                        None => add_step(
                            ReportView {
                                symbols: r1.symbols.push(
                                    SymView {
                                        name,
                                        symbol_type: "Variable"@,
                                        data_type: t,
                                        scope: "Global"@,
                                        line: 1,
                                    },
                                ),
                                ..r1
                            },
                            "Variable '"@ + name + "' agregada a tabla de símbolos con tipo "@ + t,
                            "Identifier"@,
                            "Agregar a tabla de símbolos"@,
                            Some(name),
                            Some(t),
                            None,
                        ),
                        Some(i) => if r1.symbols[i as int].data_type == "Unknown"@ {
                            add_step(
                                ReportView {
                                    symbols: r1.symbols.update(
                                        i as int,
                                        SymView { data_type: t, ..r1.symbols[i as int] },
                                    ),
                                    ..r1
                                },
                                "Tipo de variable '"@ + name + "' actualizado a "@ + t,
                                "Identifier"@,
                                "Actualizar tipo en tabla de símbolos"@,
                                None,
                                Some(t),
                                None,
                            )
                        } else {
                            r1
                        },
                    }
                },
                _ => r1,
            };
            analyze(*right, r2)
        },
        Ast::UnaryOp { operator, operand } => {
            let ot = inferred_type(*operand, r.symbols);
            let res = inferred_type(n, r.symbols);
            let valid = unary_valid(operator, ot);
            let r1 = add_step(
                r,
                "Analizando operación unaria: "@ + operator + " (operando: "@ + ot + ")"@,
                "UnaryOp"@,
                "Verificar tipo de operando"@,
                None,
                Some("Resultado: "@ + res),
                None,
            );
            let check = CheckView {
                expression: operator + shown(*operand, true),
                expected_type: res,
                actual_type: res,
                is_valid: valid,
                error_message: if valid {
                    None
                } else {
                    Some("Operación "@ + operator + " no válida para tipo "@ + ot)
                },
            };
            analyze(*operand, ReportView { checks: r1.checks.push(check), ..r1 })
        },
        Ast::BinaryOp { left, operator, right } => {
            let lt = inferred_type(*left, r.symbols);
            let rt = inferred_type(*right, r.symbols);
            let res = inferred_type(n, r.symbols);
            let valid = binary_valid(operator, lt, rt);
            let r1 = add_step(
                r,
                "Analizando operación binaria: "@ + operator + " ("@ + lt + " "@ + operator + " "@
                    + rt + ")"@,
                "BinaryOp"@,
                "Verificar tipos de operandos"@,
                None,
                Some("Resultado: "@ + res),
                None,
            );
            let check = CheckView {
                expression: shown(*left, false) + " "@ + operator + " "@ + shown(*right, false),
                expected_type: res,
                actual_type: res,
                is_valid: valid,
                error_message: if valid {
                    None
                } else {
                    Some("Tipos incompatibles: "@ + lt + " "@ + operator + " "@ + rt)
                },
            };
            let r2 = analyze(*left, ReportView { checks: r1.checks.push(check), ..r1 });
            analyze(*right, r2)
        },
        Ast::Number { value, is_float } => {
            let t = if is_float {
                "float64"@
            } else {
                "int"@
            };
            add_step(
                r,
                "Literal numérico: "@ + value + " (tipo: "@ + t + ")"@,
                "Number"@,
                "Verificar tipo numérico"@,
                None,
                Some(t),
                None,
            )
        },
        Ast::Str { value } => add_step(
            r,
            "Literal de cadena: \""@ + value + "\" (tipo: string)"@,
            "String"@,
            "Verificar tipo string"@,
            None,
            Some("string"@),
            None,
        ),
        Ast::Boolean { value } => add_step(
            r,
            "Literal booleano: "@ + (if value {
                "true"@
            } else {
                "false"@
            }) + " (tipo: bool)"@,
            "Boolean"@,
            "Verificar tipo booleano"@,
            None,
            Some("bool"@),
            None,
        ),
        Ast::Program { .. } => analyze_list(n, 0, r),
        Ast::ExpressionStatement { expression } => analyze(*expression, r),
        _ => add_step(r, "Analizando nodo"@, kind_name(n), "Procesar nodo"@, None, None, None),
    }
}

/// The report after visiting the statements of the program `n` from the `i`-th.
pub open spec fn analyze_list(n: Ast, i: nat, r: ReportView) -> ReportView
    decreases n, 0nat, (match n {
        Ast::Program { statements } => statements.len(),
        _ => 0,
    }) - i,
{
    match n {
        Ast::Program { statements } => {
            if i < statements.len() {
                analyze_list(n, i + 1, analyze(statements[i as int], r))
            } else {
                r
            }
        },
        _ => r,
    }
}

/// The whole report on `ast`: an opening step, the steps of the tree, a closing step.
pub open spec fn report(ast: Ast) -> ReportView {
    let r0 = ReportView { steps: seq![], symbols: seq![], checks: seq![], next: 1 };
    let r1 = add_step(
        r0,
        "Iniciando análisis semántico"@,
        "Program"@,
        "Crear tabla de símbolos global"@,
        None,
        None,
        None,
    );
    let r2 = analyze(ast, r1);
    add_step(r2, "Análisis semántico completado"@, "Program"@, "Validación final"@, None, None, None)
}

struct Report {
    steps: Vec<SemanticStep>,
    symbols: Vec<SymbolInfo>,
    checks: Vec<TypeCheck>,
    next: usize,
}

impl Report {
    spec fn view(&self) -> ReportView {
        ReportView {
            steps: self.steps@.map_values(|s: SemanticStep| step_view(s)),
            symbols: table_view(self.symbols@),
            checks: self.checks@.map_values(|c: TypeCheck| check_view(c)),
            next: self.next as nat,
        }
    }

    fn step(
        &mut self,
        description: Vec<char>,
        node_type: &str,
        action: &str,
        symbol_added: Option<String>,
        type_check: Option<String>,
        error: Option<String>,
    )
        ensures
            final(self).view() == add_step(
                old(self).view(),
                description@,
                node_type@,
                action@,
                opt(symbol_added),
                opt(type_check),
                opt(error),
            ),
    {
        let ghost before = self.view();
        let s = SemanticStep {
            step_number: self.next,
            description: string_of(&description),
            node_type: node_type.to_string(),
            action: action.to_string(),
            symbol_added,
            type_check,
            error,
        };
        self.steps.push(s);
        if self.next < usize::MAX {
            self.next = self.next + 1;
        }
        assert(self.view().steps =~= before.steps.push(step_view(s)));
    }

    fn check(&mut self, c: TypeCheck)
        ensures
            final(self).view() == (ReportView {
                checks: old(self).view().checks.push(check_view(c)),
                ..old(self).view()
            }),
    {
        let ghost before = self.view();
        self.checks.push(c);
        assert(self.view().checks =~= before.checks.push(check_view(c)));
    }
}

fn text(parts: &str) -> (r: Vec<char>)
    ensures
        r@ == parts@,
{
    chars_of(parts)
}

fn shown_of(n: &ASTNode, booleans: bool) -> (r: String)
    ensures
        r@ == shown(n@, booleans),
{
    match n {
        ASTNode::Identifier { name } => name.clone(),
        ASTNode::Number { value, .. } => value.clone(),
        ASTNode::Boolean { value } => if !booleans {
            "expr".to_string()
        } else if *value {
            "true".to_string()
        } else {
            "false".to_string()
        },
        _ => "expr".to_string(),
    }
}

fn analyze_identifier(node: &ASTNode, r: &mut Report)
    requires
        node is Identifier,
    ensures
        final(r).view() == analyze(node@, old(r).view()),
{
    let name = match node {
        ASTNode::Identifier { name } => name,
        _ => {
            return;
        },
    };
    let mut d = text("Variable '");
    push_all(&mut d, &chars_of(name.as_str()));
    match find_symbol(&r.symbols, name) {
        None => {
            push_str(&mut d, "' no declarada");
            let mut e = text("Variable '");
            push_all(&mut e, &chars_of(name.as_str()));
            push_str(&mut e, "' no está declarada");
            r.step(d, "Identifier", "Verificar declaración", None, None, Some(string_of(&e)));
        },
        Some(i) => {
            push_str(&mut d, "' encontrada en tabla de símbolos");
            let t = r.symbols[i].data_type.clone();
            r.step(d, "Identifier", "Verificar declaración", None, Some(t), None);
        },
    }
}

fn analyze_assignment(node: &ASTNode, r: &mut Report)
    requires
        node is Assignment,
    ensures
        final(r).view() == analyze(node@, old(r).view()),
    decreases node, 0nat,
{
    let (left, right) = match node {
        ASTNode::Assignment { left, right } => (left, right),
        _ => {
            return;
        },
    };
    r.step(
        text("Analizando asignación"),
        "Assignment",
        "Verificar tipos de asignación",
        None,
        Some("Assignment check".to_string()),
        None,
    );
    match &**left {
        ASTNode::Identifier { name } => {
            assert(left@ == (Ast::Identifier { name: name@ }));
            let right_type = infer_type_from_node(right, &r.symbols);
            match find_symbol(&r.symbols, name) {
                None => {
                    let ghost before = r.view();
                    r.symbols.push(
                        SymbolInfo {
                            name: name.clone(),
                            symbol_type: "Variable".to_string(),
                            data_type: right_type.clone(),
                            scope: "Global".to_string(),
                            line: 1,
                        },
                    );
                    assert(r.view().symbols =~= before.symbols.push(
                        SymView {
                            name: name@,
                            symbol_type: "Variable"@,
                            data_type: right_type@,
                            scope: "Global"@,
                            line: 1,
                        },
                    ));
                    let mut d = text("Variable '");
                    push_all(&mut d, &chars_of(name.as_str()));
                    push_str(&mut d, "' agregada a tabla de símbolos con tipo ");
                    push_all(&mut d, &chars_of(right_type.as_str()));
                    r.step(
                        d,
                        "Identifier",
                        "Agregar a tabla de símbolos",
                        Some(name.clone()),
                        Some(right_type),
                        None,
                    );
                },
                Some(i) => {
                    if text_is(&r.symbols[i].data_type, "Unknown") {
                        let ghost before = r.view();
                        let updated = SymbolInfo {
                            name: r.symbols[i].name.clone(),
                            symbol_type: r.symbols[i].symbol_type.clone(),
                            data_type: right_type.clone(),
                            scope: r.symbols[i].scope.clone(),
                            line: r.symbols[i].line,
                        };
                        r.symbols.set(i, updated);
                        assert(r.view().symbols =~= before.symbols.update(
                            i as int,
                            SymView { data_type: right_type@, ..before.symbols[i as int] },
                        ));
                        let mut d = text("Tipo de variable '");
                        push_all(&mut d, &chars_of(name.as_str()));
                        push_str(&mut d, "' actualizado a ");
                        push_all(&mut d, &chars_of(right_type.as_str()));
                        r.step(
                            d,
                            "Identifier",
                            "Actualizar tipo en tabla de símbolos",
                            None,
                            Some(right_type),
                            None,
                        );
                    }
                },
            }
        },
        _ => {
            assert(!(left@ is Identifier));
        },
    }
    analyze_node(right, r);
}

fn analyze_unary(node: &ASTNode, r: &mut Report)
    requires
        node is UnaryOp,
    ensures
        final(r).view() == analyze(node@, old(r).view()),
    decreases node, 0nat,
{
    let (operator, operand) = match node {
        ASTNode::UnaryOp { operator, operand } => (operator, operand),
        _ => {
            return;
        },
    };
    let operand_type = infer_type_from_node(operand, &r.symbols);
    let result_type = infer_type_from_node(node, &r.symbols);
    let is_valid = unary_type_valid(operator, &operand_type);
    let mut d = text("Analizando operación unaria: ");
    push_all(&mut d, &chars_of(operator.as_str()));
    push_str(&mut d, " (operando: ");
    push_all(&mut d, &chars_of(operand_type.as_str()));
    push_str(&mut d, ")");
    let mut t = text("Resultado: ");
    push_all(&mut t, &chars_of(result_type.as_str()));
    r.step(d, "UnaryOp", "Verificar tipo de operando", None, Some(string_of(&t)), None);
    let mut x = chars_of(operator.as_str());
    push_all(&mut x, &chars_of(shown_of(operand, true).as_str()));
    let error_message = if is_valid {
        None
    } else {
        let mut m = text("Operación ");
        push_all(&mut m, &chars_of(operator.as_str()));
        push_str(&mut m, " no válida para tipo ");
        push_all(&mut m, &chars_of(operand_type.as_str()));
        Some(string_of(&m))
    };
    r.check(
        TypeCheck {
            expression: string_of(&x),
            expected_type: result_type.clone(),
            actual_type: result_type,
            is_valid,
            error_message,
        },
    );
    analyze_node(operand, r);
}

fn analyze_binary(node: &ASTNode, r: &mut Report)
    requires
        node is BinaryOp,
    ensures
        final(r).view() == analyze(node@, old(r).view()),
    decreases node, 0nat,
{
    let (left, operator, right) = match node {
        ASTNode::BinaryOp { left, operator, right } => (left, operator, right),
        _ => {
            return;
        },
    };
    let left_type = infer_type_from_node(left, &r.symbols);
    let right_type = infer_type_from_node(right, &r.symbols);
    let result_type = infer_type_from_node(node, &r.symbols);
    let is_valid = binary_types_valid(operator, &left_type, &right_type);
    let op = chars_of(operator.as_str());
    let lt = chars_of(left_type.as_str());
    let rt = chars_of(right_type.as_str());
    let mut d = text("Analizando operación binaria: ");
    push_all(&mut d, &op);
    push_str(&mut d, " (");
    push_all(&mut d, &lt);
    push_str(&mut d, " ");
    push_all(&mut d, &op);
    push_str(&mut d, " ");
    push_all(&mut d, &rt);
    push_str(&mut d, ")");
    let mut t = text("Resultado: ");
    push_all(&mut t, &chars_of(result_type.as_str()));
    r.step(d, "BinaryOp", "Verificar tipos de operandos", None, Some(string_of(&t)), None);
    let mut x = chars_of(shown_of(left, false).as_str());
    push_str(&mut x, " ");
    push_all(&mut x, &op);
    push_str(&mut x, " ");
    push_all(&mut x, &chars_of(shown_of(right, false).as_str()));
    let error_message = if is_valid {
        None
    } else {
        let mut m = text("Tipos incompatibles: ");
        push_all(&mut m, &lt);
        push_str(&mut m, " ");
        push_all(&mut m, &op);
        push_str(&mut m, " ");
        push_all(&mut m, &rt);
        Some(string_of(&m))
    };
    r.check(
        TypeCheck {
            expression: string_of(&x),
            expected_type: result_type.clone(),
            actual_type: result_type,
            is_valid,
            error_message,
        },
    );
    analyze_node(left, r);
    analyze_node(right, r);
}

fn analyze_literal(node: &ASTNode, r: &mut Report)
    requires
        node is Number || node is String || node is Boolean,
    ensures
        final(r).view() == analyze(node@, old(r).view()),
{
    match node {
        ASTNode::Number { value, is_float } => {
            let t = if *is_float {
                "float64"
            } else {
                "int"
            };
            let mut d = text("Literal numérico: ");
            push_all(&mut d, &chars_of(value.as_str()));
            push_str(&mut d, " (tipo: ");
            push_str(&mut d, t);
            push_str(&mut d, ")");
            r.step(d, "Number", "Verificar tipo numérico", None, Some(t.to_string()), None);
        },
        ASTNode::String { value } => {
            let mut d = text("Literal de cadena: \"");
            push_all(&mut d, &chars_of(value.as_str()));
            push_str(&mut d, "\" (tipo: string)");
            r.step(d, "String", "Verificar tipo string", None, Some("string".to_string()), None);
        },
        ASTNode::Boolean { value } => {
            let mut d = text("Literal booleano: ");
            if *value {
                push_str(&mut d, "true");
            } else {
                push_str(&mut d, "false");
            }
            push_str(&mut d, " (tipo: bool)");
            r.step(d, "Boolean", "Verificar tipo booleano", None, Some("bool".to_string()), None);
        },
        _ => {},
    }
}

fn analyze_node(node: &ASTNode, r: &mut Report)
    ensures
        final(r).view() == analyze(node@, old(r).view()),
    decreases node, 1nat,
{
    match node {
        ASTNode::Identifier { .. } => analyze_identifier(node, r),
        ASTNode::Assignment { .. } => analyze_assignment(node, r),
        ASTNode::UnaryOp { .. } => analyze_unary(node, r),
        ASTNode::BinaryOp { .. } => analyze_binary(node, r),
        ASTNode::Number { .. } | ASTNode::String { .. } | ASTNode::Boolean { .. } => {
            analyze_literal(node, r)
        },
        ASTNode::Program { statements } => {
            let ghost n = node@;
            let mut i: usize = 0;
            while i < statements.len()
                invariant
                    decreases_to!(*node => *statements),
                    n == node@,
                    n is Program,
                    i <= statements.len(),
                    n->Program_statements.len() == statements.len(),
                    forall|j: int|
                        0 <= j < statements.len() ==> n->Program_statements[j] == statements@[j]@,
                    analyze_list(n, i as nat, r.view()) == analyze_list(n, 0, old(r).view()),
                decreases statements.len() - i,
            {
                proof {
                    vstd::std_specs::vec::axiom_vec_index_decreases(*statements, i as int);
                }
                analyze_node(&statements[i], r);
                i = i + 1;
            }
        },
        ASTNode::ExpressionStatement { expression } => analyze_node(expression, r),
        _ => {
            r.step(text("Analizando nodo"), node.node_type(), "Procesar nodo", None, None, None);
        },
    }
}

/// The report on `ast`: its steps, the symbols it recorded, and its operand-type checks.
pub fn semantic_report(ast: &ASTNode) -> (r: (Vec<SemanticStep>, Vec<SymbolInfo>, Vec<TypeCheck>))
    ensures
        r.0@.map_values(|s: SemanticStep| step_view(s)) == report(ast@).steps,
        table_view(r.1@) == report(ast@).symbols,
        r.2@.map_values(|c: TypeCheck| check_view(c)) == report(ast@).checks,
{
    let mut rep = Report { steps: Vec::new(), symbols: Vec::new(), checks: Vec::new(), next: 1 };
    assert(rep.view().steps =~= seq![]);
    assert(rep.view().symbols =~= seq![]);
    assert(rep.view().checks =~= seq![]);
    rep.step(
        text("Iniciando análisis semántico"),
        "Program",
        "Crear tabla de símbolos global",
        None,
        None,
        None,
    );
    analyze_node(ast, &mut rep);
    rep.step(text("Análisis semántico completado"), "Program", "Validación final", None, None, None);
    (rep.steps, rep.symbols, rep.checks)
}

} // verus!
