//! Renders a finished syntax tree as a Graphviz `digraph`: one box per node, labelled and
//! coloured by kind, and one labelled edge from each node to each of its children.
use vstd::prelude::*;
use crate::ast::{ASTNode, Ast, label_of};
use crate::text::{decimal, push_str, push_all, push_decimal, chars_of, string_of};

verus! {

/// The characters that stand for `c` inside a double-quoted Graphviz string.
pub open spec fn escape_char(c: char) -> Seq<char> {
    if c == '\\' {
        "\\\\"@
    } else if c == '"' {
        "\\\""@
    } else if c == '\n' {
        "\\n"@
    } else if c == '\t' {
        "\\t"@
    } else {
        seq![c]
    }
}

/// `s` with each backslash, double quote, newline and tab escaped.
pub open spec fn escape(s: Seq<char>) -> Seq<char>
    decreases s.len(),
{
    if s.len() == 0 {
        seq![]
    } else {
        escape(s.drop_last()) + escape_char(s.last())
    }
}

/// The fill colour of a node's kind.
pub open spec fn color_of(n: Ast) -> Seq<char> {
    match n {
        Ast::Number { .. } => "lightgreen"@,
        Ast::Str { .. } => "lightyellow"@,
        Ast::Boolean { .. } => "lightblue"@,
        Ast::Identifier { .. } => "lightcyan"@,
        Ast::BinaryOp { .. } => "lightcoral"@,
        Ast::UnaryOp { .. } => "lightpink"@,
        Ast::Assignment { .. } => "orange"@,
        Ast::FunctionCall { .. } => "lightsteelblue"@,
        Ast::Parenthesized { .. } => "lavender"@,
        Ast::Program { .. } => "lightgray"@,
        Ast::ExpressionStatement { .. } => "wheat"@,
    }
}

pub open spec fn node_line(id: nat, n: Ast) -> Seq<char> {
    "  node_"@ + decimal(id) + " [label=\""@ + escape(label_of(n)) + "\", fillcolor=\""@
        + color_of(n) + "\"];\n"@
}

pub open spec fn edge_line(from: nat, to: nat, label: Seq<char>) -> Seq<char> {
    "  node_"@ + decimal(from) + " -> node_"@ + decimal(to) + " [label=\""@ + label + "\"];\n"@
}

/// The number after `id`; numbering stops at `usize::MAX`.
pub open spec fn succ(id: nat) -> nat {
    if id < usize::MAX {
        id + 1
    } else {
        id
    }
}

/// The lines for node `n` and its subtree, numbered in preorder from `id`, and the next
/// free number.
pub open spec fn render(n: Ast, id: nat) -> (Seq<char>, nat)
    decreases n, 1nat, 0nat,
{
    let head = node_line(id, n);
    match n {
        Ast::BinaryOp { left, right, .. } => {
            let (lt, a) = render(*left, succ(id));
            let (rt, b) = render(*right, a);
            (head + lt + rt + edge_line(id, succ(id), "left"@) + edge_line(id, a, "right"@), b)
        },
        Ast::Assignment { left, right } => {
            let (lt, a) = render(*left, succ(id));
            let (rt, b) = render(*right, a);
            (head + lt + rt + edge_line(id, succ(id), "left"@) + edge_line(id, a, "right"@), b)
        },
        Ast::UnaryOp { operand, .. } => {
            let (t, a) = render(*operand, succ(id));
            (head + t + edge_line(id, succ(id), "operand"@), a)
        },
        Ast::Parenthesized { expression } => {
            let (t, a) = render(*expression, succ(id));
            (head + t + edge_line(id, succ(id), "expr"@), a)
        },
        Ast::ExpressionStatement { expression } => {
            let (t, a) = render(*expression, succ(id));
            (head + t + edge_line(id, succ(id), "expr"@), a)
        },
        Ast::FunctionCall { .. } => {
            let (t, a) = render_list(n, 0, id, succ(id), "arg"@);
            (head + t, a)
        },
        Ast::Program { .. } => {
            let (t, a) = render_list(n, 0, id, succ(id), "stmt"@);
            (head + t, a)
        },
        _ => (head, succ(id)),
    }
}

/// The children of a call (its arguments) or of a program (its statements).
pub open spec fn list_children(n: Ast) -> Seq<Ast> {
    match n {
        Ast::FunctionCall { arguments, .. } => arguments,
        Ast::Program { statements } => statements,
        _ => seq![],
    }
}

/// The subtrees of the children of `n` from the `k`-th, numbered from `next`, each
/// followed by its edge from `parent` labelled `prefix` and the child's index.
pub open spec fn render_list(n: Ast, k: nat, parent: nat, next: nat, prefix: Seq<char>) -> (
    Seq<char>,
    nat,
)
    decreases n, 0nat, list_children(n).len() - k,
{
    match n {
        Ast::FunctionCall { arguments: kids, .. } => {
            if k < kids.len() {
                let (t, a) = render(kids[k as int], next);
                let (rest, b) = render_list(n, k + 1, parent, a, prefix);
                (t + edge_line(parent, next, prefix + decimal(k)) + rest, b)
            } else {
                (seq![], next)
            }
        },
        Ast::Program { statements: kids } => {
            if k < kids.len() {
                let (t, a) = render(kids[k as int], next);
                let (rest, b) = render_list(n, k + 1, parent, a, prefix);
                (t + edge_line(parent, next, prefix + decimal(k)) + rest, b)
            } else {
                (seq![], next)
            }
        },
        _ => (seq![], next),
    }
}

/// The lines that open the graph, before the nodes.
pub open spec fn dot_header() -> Seq<char> {
    "digraph AST {\n"@ + "  node [shape=rectangle, style=\"rounded,filled\", fillcolor=lightblue];\n"@
        + "  rankdir=TB;\n"@ + "\n"@
}

fn push_edge(dot: &mut Vec<char>, from: usize, to: usize, label: &Vec<char>)
    ensures
        final(dot)@ == old(dot)@ + edge_line(from as nat, to as nat, label@),
{
    push_str(dot, "  node_");
    push_decimal(dot, from);
    push_str(dot, " -> node_");
    push_decimal(dot, to);
    push_str(dot, " [label=\"");
    push_all(dot, label);
    push_str(dot, "\"];\n");
    assert(dot@ =~= old(dot)@ + edge_line(from as nat, to as nat, label@));
}

fn text_of(s: &str) -> (r: Vec<char>)
    ensures
        r@ == s@,
{
    chars_of(s)
}

/// Numbers the nodes of the trees it renders in one sequence over its life.
pub struct GraphvizRenderer {
    node_counter: usize,
}

impl GraphvizRenderer {
    /// The number the next rendered node gets.
    pub closed spec fn next_id(&self) -> nat {
        self.node_counter as nat
    }

    pub fn new() -> (r: Self)
        ensures
            r.next_id() == 0,
    {
        GraphvizRenderer { node_counter: 0 }
    }

    /// The Graphviz description of the tree `ast`, its nodes numbered in preorder from
    /// `next_id()`.
    pub fn render_to_dot(&mut self, ast: &ASTNode) -> (r: String)
        ensures
            r@ == dot_header() + render(ast@, old(self).next_id()).0 + "}\n"@,
            final(self).next_id() == render(ast@, old(self).next_id()).1,
    {
        let mut dot: Vec<char> = Vec::new();
        push_str(&mut dot, "digraph AST {\n");
        push_str(&mut dot, "  node [shape=rectangle, style=\"rounded,filled\", fillcolor=lightblue];\n");
        push_str(&mut dot, "  rankdir=TB;\n");
        push_str(&mut dot, "\n");
        self.render_node(ast, &mut dot);
        push_str(&mut dot, "}\n");
        assert(dot@ =~= dot_header() + render(ast@, old(self).next_id()).0 + "}\n"@);
        string_of(&dot)
    }

    /// Takes the next node number.
    fn get_node_id(&mut self) -> (r: usize)
        ensures
            r == old(self).node_counter,
            final(self).node_counter == succ(old(self).node_counter as nat),
    {
        let id = self.node_counter;
        if id < usize::MAX {
            self.node_counter = id + 1;
        }
        id
    }

    /// Appends the lines of `node` and its subtree to `dot`; gives the node's number.
    #[verifier::spinoff_prover]
    #[verifier::rlimit(60)]
    fn render_node(&mut self, node: &ASTNode, dot: &mut Vec<char>) -> (r: usize)
        ensures
            r == old(self).node_counter,
            final(dot)@ == old(dot)@ + render(node@, old(self).node_counter as nat).0,
            final(self).node_counter == render(node@, old(self).node_counter as nat).1,
        decreases node,
    {
        let ghost n = node@;
        let ghost id0 = self.node_counter as nat;
        let node_id = self.get_node_id();
        let (label, color) = self.get_node_style(node);
        push_str(dot, "  node_");
        push_decimal(dot, node_id);
        push_str(dot, " [label=\"");
        push_all(dot, &chars_of(label.as_str()));
        push_str(dot, "\", fillcolor=\"");
        push_str(dot, color);
        push_str(dot, "\"];\n");
        assert(dot@ =~= old(dot)@ + node_line(id0, n));
        let ghost after_head = dot@;
        match node {
            ASTNode::BinaryOp { left, right, .. } => {
                let left_id = self.render_node(left, dot);
                let right_id = self.render_node(right, dot);
                push_edge(dot, node_id, left_id, &text_of("left"));
                push_edge(dot, node_id, right_id, &text_of("right"));
                assert(dot@ =~= old(dot)@ + render(n, id0).0);
            },
            ASTNode::Assignment { left, right } => {
                let left_id = self.render_node(left, dot);
                let right_id = self.render_node(right, dot);
                push_edge(dot, node_id, left_id, &text_of("left"));
                push_edge(dot, node_id, right_id, &text_of("right"));
                assert(dot@ =~= old(dot)@ + render(n, id0).0);
            },
            ASTNode::UnaryOp { operand, .. } => {
                let operand_id = self.render_node(operand, dot);
                push_edge(dot, node_id, operand_id, &text_of("operand"));
                assert(dot@ =~= old(dot)@ + render(n, id0).0);
            },
            ASTNode::Parenthesized { expression } => {
                let expr_id = self.render_node(expression, dot);
                push_edge(dot, node_id, expr_id, &text_of("expr"));
                assert(dot@ =~= old(dot)@ + render(n, id0).0);
            },
            ASTNode::ExpressionStatement { expression } => {
                let expr_id = self.render_node(expression, dot);
                push_edge(dot, node_id, expr_id, &text_of("expr"));
                assert(dot@ =~= old(dot)@ + render(n, id0).0);
            },
            ASTNode::FunctionCall { arguments: kids, .. } | ASTNode::Program { statements: kids } => {
                let prefix = if matches!(node, ASTNode::FunctionCall { .. }) {
                    "arg"
                } else {
                    "stmt"
                };
                let ghost pre = prefix@;
                let ghost total = render_list(n, 0, id0, succ(id0), pre);
                assert(forall|k: int| 0 <= k < kids.len() ==> list_children(n)[k] == kids@[k]@);
                let mut i: usize = 0;
                assert(dot@ =~= after_head + seq![]);
                while i < kids.len()
                    invariant
                        decreases_to!(*node => *kids),
                        n == node@,
                        pre == prefix@,
                        pre == "arg"@ || pre == "stmt"@,
                        total == render_list(n, 0, id0, succ(id0), pre),
                        node_id == id0,
                        i <= kids.len(),
                        list_children(n).len() == kids.len(),
                        forall|k: int| 0 <= k < kids.len() ==> list_children(n)[k] == kids@[k]@,
                        n is FunctionCall || n is Program,
                        render_list(n, i as nat, id0, self.node_counter as nat, pre).1 == total.1,
                        exists|done: Seq<char>|
                            dot@ == after_head + done && total.0 == done + render_list(
                                n,
                                i as nat,
                                id0,
                                self.node_counter as nat,
                                pre,
                            ).0,
                    decreases kids.len() - i,
                {
                    let ghost c = self.node_counter as nat;
                    let ghost done = choose|done: Seq<char>|
                        dot@ == after_head + done && total.0 == done + render_list(
                            n,
                            i as nat,
                            id0,
                            c,
                            pre,
                        ).0;
                    proof {
                        vstd::std_specs::vec::axiom_vec_index_decreases(*kids, i as int);
                    }
                    let kid_id = self.render_node(&kids[i], dot);
                    let mut label = text_of(prefix);
                    push_decimal(&mut label, i);
                    push_edge(dot, node_id, kid_id, &label);
                    proof {
                        let (t, a) = render(kids@[i as int]@, c);
                        let e = edge_line(id0, c, pre + decimal(i as nat));
                        let rest = render_list(n, (i + 1) as nat, id0, a, pre).0;
                        assert(render_list(n, i as nat, id0, c, pre).0 == t + e + rest);
                        assert(dot@ =~= after_head + (done + t + e));
                        assert(total.0 =~= (done + t + e) + rest);
                    }
                    i = i + 1;
                }
                assert(render_list(n, i as nat, id0, self.node_counter as nat, pre).0 == Seq::<char>::empty());
                assert(dot@ =~= old(dot)@ + render(n, id0).0);
            },
            _ => {
                assert(dot@ =~= old(dot)@ + render(n, id0).0);
            },
        }
        node_id
    }

    /// The escaped label and the fill colour of `node`.
    fn get_node_style(&self, node: &ASTNode) -> (r: (String, &'static str))
        ensures
            r.0@ == escape(label_of(node@)),
            r.1@ == color_of(node@),
    {
        let label = self.escape_label(node.label().as_str());
        let color = match node {
            ASTNode::Number { .. } => "lightgreen",
            ASTNode::String { .. } => "lightyellow",
            ASTNode::Boolean { .. } => "lightblue",
            ASTNode::Identifier { .. } => "lightcyan",
            ASTNode::BinaryOp { .. } => "lightcoral",
            ASTNode::UnaryOp { .. } => "lightpink",
            ASTNode::Assignment { .. } => "orange",
            ASTNode::FunctionCall { .. } => "lightsteelblue",
            ASTNode::Parenthesized { .. } => "lavender",
            ASTNode::Program { .. } => "lightgray",
            ASTNode::ExpressionStatement { .. } => "wheat",
        };
        (label, color)
    }

    /// `label` with each backslash, double quote, newline and tab escaped.
    fn escape_label(&self, label: &str) -> (r: String)
        ensures
            r@ == escape(label@),
    {
        let chars = chars_of(label);
        let mut out: Vec<char> = Vec::new();
        let mut i: usize = 0;
        while i < chars.len()
            invariant
                i <= chars.len(),
                out@ == escape(chars@.take(i as int)),
            decreases chars.len() - i,
        {
            let c = chars[i];
            if c == '\\' {
                push_str(&mut out, "\\\\");
            } else if c == '"' {
                push_str(&mut out, "\\\"");
            } else if c == '\n' {
                push_str(&mut out, "\\n");
            } else if c == '\t' {
                push_str(&mut out, "\\t");
            } else {
                out.push(c);
            }
            assert(chars@.take(i + 1 as int).drop_last() =~= chars@.take(i as int));
            i = i + 1;
            assert(out@ =~= escape(chars@.take(i as int)));
        }
        assert(chars@.take(i as int) =~= label@);
        string_of(&out)
    }
}

impl Default for GraphvizRenderer {
    fn default() -> (r: Self)
        ensures
            r.next_id() == 0,
    {
        Self::new()
    }
}

} // verus!
