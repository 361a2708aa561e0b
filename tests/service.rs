use compiler_core::analysis::{binary_types_valid, find_symbol, infer_type_from_node, unary_type_valid, SymbolInfo};
use compiler_core::ast::ASTNode;
use compiler_core::parser::Parser;
use compiler_core::semantic::semantic_report;
use compiler_core::visual::generate_visualization_data;

fn expr(text: &str) -> ASTNode {
    match Parser::new(text).unwrap().parse().unwrap() {
        ASTNode::Program { mut statements } => match statements.remove(0) {
            ASTNode::ExpressionStatement { expression } => *expression,
            other => panic!("unexpected {:?}", other),
        },
        other => panic!("unexpected {:?}", other),
    }
}

fn symbol(name: &str, data_type: &str) -> SymbolInfo {
    SymbolInfo {
        name: name.to_string(),
        symbol_type: "Variable".to_string(),
        data_type: data_type.to_string(),
        scope: "Global".to_string(),
        line: 1,
    }
}

#[test]
fn literal_types() {
    let none: Vec<SymbolInfo> = vec![];
    assert_eq!(infer_type_from_node(&expr("1"), &none), "int");
    assert_eq!(infer_type_from_node(&expr("1.0"), &none), "float64");
    assert_eq!(infer_type_from_node(&expr("\"s\""), &none), "string");
    assert_eq!(infer_type_from_node(&expr("false"), &none), "bool");
    assert_eq!(infer_type_from_node(&expr("f(1)"), &none), "unknown");
}

#[test]
fn operator_types() {
    let none: Vec<SymbolInfo> = vec![];
    assert_eq!(infer_type_from_node(&expr("1 + 2"), &none), "int");
    assert_eq!(infer_type_from_node(&expr("1 * (2.5)"), &none), "float64");
    assert_eq!(infer_type_from_node(&expr("1 < 2"), &none), "bool");
    assert_eq!(infer_type_from_node(&expr("a && b"), &none), "bool");
    assert_eq!(infer_type_from_node(&expr("!true"), &none), "bool");
    assert_eq!(infer_type_from_node(&expr("!1"), &none), "unknown");
    assert_eq!(infer_type_from_node(&expr("-2.0"), &none), "float64");
    assert_eq!(infer_type_from_node(&expr("-\"s\""), &none), "unknown");
}

#[test]
fn identifiers_take_the_first_recorded_type() {
    let table = vec![symbol("y", "string"), symbol("x", "float64"), symbol("x", "int")];
    assert_eq!(infer_type_from_node(&expr("x"), &table), "float64");
    assert_eq!(infer_type_from_node(&expr("y"), &table), "string");
    assert_eq!(infer_type_from_node(&expr("z"), &table), "unknown");
    assert_eq!(infer_type_from_node(&expr("x + 1"), &table), "float64");
}

#[test]
fn visualization_lists_nodes_in_preorder() {
    let ast = Parser::new("f(x) = \"a\"").unwrap().parse().unwrap();
    let (nodes, edges) = generate_visualization_data(&ast);
    let got: Vec<(String, String, String, String)> = nodes
        .into_iter()
        .map(|n| (n.id, n.label, n.node_type, n.color))
        .collect();
    let want = vec![
        ("node_0", "Program", "Program", "#FFA07A"),
        ("node_1", "Statement", "ExpressionStatement", "#20B2AA"),
        ("node_2", "=", "Assignment", "#98FB98"),
        ("node_3", "f()", "FunctionCall", "#F0E68C"),
        ("node_4", "x", "Identifier", "#B0E0E6"),
        ("node_5", "\"a\"", "String", "#E6E6FA"),
    ];
    let want: Vec<(String, String, String, String)> = want
        .into_iter()
        .map(|(a, b, c, d)| (a.to_string(), b.to_string(), c.to_string(), d.to_string()))
        .collect();
    assert_eq!(got, want);
    let got_edges: Vec<(String, String)> = edges.into_iter().map(|e| (e.from, e.to)).collect();
    let want_edges: Vec<(String, String)> = vec![("0", "1"), ("1", "2"), ("2", "3"), ("3", "4"), ("2", "5")]
        .into_iter()
        .map(|(a, b)| (format!("node_{}", a), format!("node_{}", b)))
        .collect();
    assert_eq!(got_edges, want_edges);
}

#[test]
fn operand_type_rules() {
    let s = |x: &str| x.to_string();
    assert!(binary_types_valid(&s("+"), &s("string"), &s("int")));
    assert!(!binary_types_valid(&s("*"), &s("string"), &s("bool")));
    assert!(binary_types_valid(&s("<"), &s("unknown"), &s("string")));
    assert!(!binary_types_valid(&s("=="), &s("unknown"), &s("unknown")));
    assert!(!binary_types_valid(&s("&&"), &s("bool"), &s("int")));
    assert!(binary_types_valid(&s("||"), &s("bool"), &s("bool")));
    assert!(binary_types_valid(&s("="), &s("x"), &s("y")));
    assert!(unary_type_valid(&s("!"), &s("bool")));
    assert!(!unary_type_valid(&s("-"), &s("bool")));
    assert!(unary_type_valid(&s("-"), &s("float64")));
    assert!(!unary_type_valid(&s("+"), &s("float32")));
    let table = vec![symbol("a", "int"), symbol("b", "bool"), symbol("a", "string")];
    assert_eq!(find_symbol(&table, &s("a")), Some(0));
    assert_eq!(find_symbol(&table, &s("b")), Some(1));
    assert_eq!(find_symbol(&table, &s("c")), None);
}

#[test]
fn report_records_symbols_steps_and_checks() {
    let ast = Parser::new("x = 1 + 2.5; y = !x; z").unwrap().parse().unwrap();
    let (steps, symbols, checks) = semantic_report(&ast);
    let described: Vec<(usize, &str, &str)> = steps
        .iter()
        .map(|s| (s.step_number, s.description.as_str(), s.node_type.as_str()))
        .collect();
    assert_eq!(
        described,
        vec![
            (1, "Iniciando análisis semántico", "Program"),
            (2, "Analizando asignación", "Assignment"),
            (3, "Variable 'x' agregada a tabla de símbolos con tipo float64", "Identifier"),
            (4, "Analizando operación binaria: + (int + float64)", "BinaryOp"),
            (5, "Literal numérico: 1 (tipo: int)", "Number"),
            (6, "Literal numérico: 2.5 (tipo: float64)", "Number"),
            (7, "Analizando asignación", "Assignment"),
            (8, "Variable 'y' agregada a tabla de símbolos con tipo unknown", "Identifier"),
            (9, "Analizando operación unaria: ! (operando: float64)", "UnaryOp"),
            (10, "Variable 'x' encontrada en tabla de símbolos", "Identifier"),
            (11, "Variable 'z' no declarada", "Identifier"),
            (12, "Análisis semántico completado", "Program"),
        ]
    );
    assert_eq!(steps[9].type_check.as_deref(), Some("float64"));
    assert_eq!(steps[10].error.as_deref(), Some("Variable 'z' no está declarada"));
    assert_eq!(steps[2].symbol_added.as_deref(), Some("x"));
    let table: Vec<(&str, &str)> = symbols.iter().map(|s| (s.name.as_str(), s.data_type.as_str())).collect();
    assert_eq!(table, vec![("x", "float64"), ("y", "unknown")]);
    assert_eq!(checks.len(), 2);
    assert_eq!(checks[0].expression, "1 + 2.5");
    assert_eq!(checks[0].expected_type, "float64");
    assert!(checks[0].is_valid);
    assert_eq!(checks[1].expression, "!x");
    assert!(!checks[1].is_valid);
    assert_eq!(checks[1].error_message.as_deref(), Some("Operación ! no válida para tipo float64"));
}

#[test]
fn report_on_mismatched_logic_operands() {
    let ast = Parser::new("true && 1").unwrap().parse().unwrap();
    let (_, _, checks) = semantic_report(&ast);
    assert_eq!(checks[0].expression, "expr && 1");
    assert_eq!(checks[0].error_message.as_deref(), Some("Tipos incompatibles: bool && int"));
}
