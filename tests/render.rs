use compiler_core::ast::ASTNode;
use compiler_core::graphviz::GraphvizRenderer;
use compiler_core::parser::Parser;

fn tree(text: &str) -> ASTNode {
    Parser::new(text).unwrap().parse().unwrap()
}

const HEADER: &str = "digraph AST {\n  node [shape=rectangle, style=\"rounded,filled\", fillcolor=lightblue];\n  rankdir=TB;\n\n";

#[test]
fn node_types_name_each_kind() {
    let t = tree("f(1, \"s\", true, -x, (y))");
    assert_eq!(t.node_type(), "Program");
    let ASTNode::Program { statements } = &t else { panic!() };
    assert_eq!(statements[0].node_type(), "ExpressionStatement");
    let ASTNode::ExpressionStatement { expression } = &statements[0] else { panic!() };
    assert_eq!(expression.node_type(), "FunctionCall");
    let ASTNode::FunctionCall { arguments, .. } = &**expression else { panic!() };
    let kinds: Vec<&str> = arguments.iter().map(|a| a.node_type()).collect();
    assert_eq!(kinds, vec!["Number", "String", "Boolean", "UnaryOp", "Parenthesized"]);
}

#[test]
fn labels_hold_kind_and_value() {
    assert_eq!(ASTNode::Number { value: "2.5".to_string(), is_float: true }.label(), "Number\n2.5 (float)");
    assert_eq!(ASTNode::Number { value: "7".to_string(), is_float: false }.label(), "Number\n7 (int)");
    assert_eq!(ASTNode::String { value: "hi".to_string() }.label(), "String\n\"hi\"");
    assert_eq!(ASTNode::Boolean { value: false }.label(), "Boolean\nfalse");
    assert_eq!(ASTNode::Identifier { name: "abc".to_string() }.label(), "Identifier\nabc");
    let x = || Box::new(ASTNode::Identifier { name: "x".to_string() });
    assert_eq!(
        ASTNode::BinaryOp { left: x(), operator: "<=".to_string(), right: x() }.label(),
        "BinaryOp\n<="
    );
    assert_eq!(ASTNode::UnaryOp { operator: "!".to_string(), operand: x() }.label(), "UnaryOp\n!");
    assert_eq!(ASTNode::Assignment { left: x(), right: x() }.label(), "Assignment\n=");
    assert_eq!(
        ASTNode::FunctionCall { name: "g".to_string(), arguments: vec![] }.label(),
        "FunctionCall\ng"
    );
    assert_eq!(ASTNode::Parenthesized { expression: x() }.label(), "Parenthesized\n( )");
    assert_eq!(ASTNode::Program { statements: vec![] }.label(), "Program");
    assert_eq!(ASTNode::ExpressionStatement { expression: x() }.label(), "ExpressionStatement");
}

#[test]
fn renders_assignment_graph() {
    let mut r = GraphvizRenderer::new();
    let dot = r.render_to_dot(&tree("x = 1"));
    let expected = String::from(HEADER)
        + "  node_0 [label=\"Program\", fillcolor=\"lightgray\"];\n"
        + "  node_1 [label=\"ExpressionStatement\", fillcolor=\"wheat\"];\n"
        + "  node_2 [label=\"Assignment\\n=\", fillcolor=\"orange\"];\n"
        + "  node_3 [label=\"Identifier\\nx\", fillcolor=\"lightcyan\"];\n"
        + "  node_4 [label=\"Number\\n1 (int)\", fillcolor=\"lightgreen\"];\n"
        + "  node_2 -> node_3 [label=\"left\"];\n"
        + "  node_2 -> node_4 [label=\"right\"];\n"
        + "  node_1 -> node_2 [label=\"expr\"];\n"
        + "  node_0 -> node_1 [label=\"stmt0\"];\n"
        + "}\n";
    assert_eq!(dot, expected);
}

#[test]
fn escapes_quotes_and_backslashes_in_labels() {
    let mut r = GraphvizRenderer::default();
    let dot = r.render_to_dot(&ASTNode::String { value: "a\"b\\c\td".to_string() });
    let expected = String::from(HEADER)
        + "  node_0 [label=\"String\\n\\\"a\\\"b\\\\c\\td\\\"\", fillcolor=\"lightyellow\"];\n"
        + "}\n";
    assert_eq!(dot, expected);
}

#[test]
fn numbering_continues_across_renders() {
    let mut r = GraphvizRenderer::new();
    let first = r.render_to_dot(&tree("a"));
    assert!(first.contains("node_2 [label=\"Identifier\\na\""));
    let second = r.render_to_dot(&tree("-b"));
    assert!(second.contains("  node_3 [label=\"Program\", fillcolor=\"lightgray\"];\n"));
    assert!(second.contains("  node_5 [label=\"UnaryOp\\n-\", fillcolor=\"lightpink\"];\n"));
    assert!(second.contains("  node_5 -> node_6 [label=\"operand\"];\n"));
}

#[test]
fn call_arguments_get_indexed_edges() {
    let mut r = GraphvizRenderer::new();
    let dot = r.render_to_dot(&tree("f(a,b,c,d,e,g,h,i,j,k,l,m)"));
    assert!(dot.contains("  node_2 -> node_3 [label=\"arg0\"];\n"));
    assert!(dot.contains("  node_2 -> node_13 [label=\"arg10\"];\n"));
    assert!(dot.contains("  node_2 -> node_14 [label=\"arg11\"];\n"));
    assert!(dot.contains("  node_14 [label=\"Identifier\\nm\", fillcolor=\"lightcyan\"];\n"));
}
