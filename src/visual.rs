//! Flat node and edge lists of a syntax tree, for drawing it: nodes in preorder, each
//! numbered `node_<k>`, and an edge from each node to each of its children.
use vstd::prelude::*;
use crate::ast::{ASTNode, Ast, kind_name};
use crate::graphviz::succ;
use crate::text::{decimal, push_str, push_all, push_decimal, chars_of, string_of};

verus! {

/// A node to draw.
#[derive(Debug, Clone)]
pub struct NodeData {
    pub id: String,
    pub label: String,
    pub node_type: String,
    pub color: String,
}

/// An edge to draw, from a node to one of its children.
#[derive(Debug, Clone)]
pub struct EdgeData {
    pub from: String,
    pub to: String,
}

/// What a drawn node holds, as character sequences.
pub struct VizNode {
    pub id: Seq<char>,
    pub label: Seq<char>,
    pub node_type: Seq<char>,
    pub color: Seq<char>,
}

pub open spec fn node_view(d: NodeData) -> VizNode {
    VizNode { id: d.id@, label: d.label@, node_type: d.node_type@, color: d.color@ }
}

pub open spec fn edge_view(e: EdgeData) -> (Seq<char>, Seq<char>) {
    (e.from@, e.to@)
}

/// The name of node number `k`.
pub open spec fn node_name(k: nat) -> Seq<char> {
    "node_"@ + decimal(k)
}

/// The short label drawn for a node.
pub open spec fn short_label(n: Ast) -> Seq<char> {
    match n {
        Ast::Number { value, .. } => value,
        Ast::Str { value } => "\""@ + value + "\""@,
        Ast::Boolean { value } => if value {
            "true"@
        } else {
            "false"@
        },
        Ast::Identifier { name } => name,
        Ast::BinaryOp { operator, .. } => operator,
        Ast::UnaryOp { operator, .. } => operator,
        Ast::Assignment { .. } => "="@,
        Ast::FunctionCall { name, .. } => name + "()"@,
        Ast::Parenthesized { .. } => "( )"@,
        Ast::Program { .. } => "Program"@,
        Ast::ExpressionStatement { .. } => "Statement"@,
    }
}

/// The colour drawn for a node's kind.
pub open spec fn short_color(n: Ast) -> Seq<char> {
    match n {
        Ast::Number { .. } => "#FFE4B5"@,
        Ast::Str { .. } => "#E6E6FA"@,
        Ast::Boolean { .. } => "#90EE90"@,
        Ast::Identifier { .. } => "#B0E0E6"@,
        Ast::BinaryOp { .. } => "#FFB6C1"@,
        Ast::UnaryOp { .. } => "#DDA0DD"@,
        Ast::Assignment { .. } => "#98FB98"@,
        Ast::FunctionCall { .. } => "#F0E68C"@,
        Ast::Parenthesized { .. } => "#D3D3D3"@,
        Ast::Program { .. } => "#FFA07A"@,
        Ast::ExpressionStatement { .. } => "#20B2AA"@,
    }
}

pub type Drawing = (Seq<VizNode>, Seq<(Seq<char>, Seq<char>)>, nat);

/// The nodes and edges of the subtree `n`, numbered in preorder from `k`, with an edge
/// from `parent` when there is one; and the next free number.
pub open spec fn viz(n: Ast, parent: Option<nat>, k: nat) -> Drawing
    decreases n, 1nat, 0nat,
{
    let me = VizNode {
        id: node_name(k),
        label: short_label(n),
        node_type: kind_name(n),
        color: short_color(n),
    };
    let up: Seq<(Seq<char>, Seq<char>)> = match parent {
        Some(p) => seq![(node_name(p), node_name(k))],
        None => seq![],
    };
    let (ns, es, next) = match n {
        Ast::BinaryOp { left, right, .. } => {
            let (a, b, c) = viz(*left, Some(k), succ(k));
            let (d, e, f) = viz(*right, Some(k), c);
            (a + d, b + e, f)
        },
        Ast::Assignment { left, right } => {
            let (a, b, c) = viz(*left, Some(k), succ(k));
            let (d, e, f) = viz(*right, Some(k), c);
            (a + d, b + e, f)
        },
        Ast::UnaryOp { operand, .. } => viz(*operand, Some(k), succ(k)),
        Ast::Parenthesized { expression } => viz(*expression, Some(k), succ(k)),
        Ast::ExpressionStatement { expression } => viz(*expression, Some(k), succ(k)),
        Ast::FunctionCall { .. } => viz_list(n, 0, k, succ(k)),
        Ast::Program { .. } => viz_list(n, 0, k, succ(k)),
        _ => (seq![], seq![], succ(k)),
    };
    (seq![me] + ns, up + es, next)
}

pub open spec fn viz_children(n: Ast) -> Seq<Ast> {
    match n {
        Ast::FunctionCall { arguments, .. } => arguments,
        Ast::Program { statements } => statements,
        _ => seq![],
    }
}

/// The subtrees of the children of `n` from the `i`-th, numbered from `next`.
pub open spec fn viz_list(n: Ast, i: nat, parent: nat, next: nat) -> Drawing
    decreases n, 0nat, viz_children(n).len() - i,
{
    match n {
        Ast::FunctionCall { arguments: kids, .. } => {
            if i < kids.len() {
                let (a, b, c) = viz(kids[i as int], Some(parent), next);
                let (d, e, f) = viz_list(n, i + 1, parent, c);
                (a + d, b + e, f)
            } else {
                (seq![], seq![], next)
            }
        },
        Ast::Program { statements: kids } => {
            if i < kids.len() {
                let (a, b, c) = viz(kids[i as int], Some(parent), next);
                let (d, e, f) = viz_list(n, i + 1, parent, c);
                (a + d, b + e, f)
            } else {
                (seq![], seq![], next)
            }
        },
        _ => (seq![], seq![], next),
    }
}

pub open spec fn parent_view(p: Option<usize>) -> Option<nat> {
    match p {
        Some(q) => Some(q as nat),
        None => None,
    }
}

fn name_of(k: usize) -> (r: String)
    ensures
        r@ == node_name(k as nat),
{
    let mut out: Vec<char> = Vec::new();
    push_str(&mut out, "node_");
    push_decimal(&mut out, k);
    string_of(&out)
}

fn short_label_of(node: &ASTNode) -> (r: String)
    ensures
        r@ == short_label(node@),
{
    match node {
        ASTNode::Number { value, .. } => value.clone(),
        ASTNode::String { value } => {
            let mut out: Vec<char> = Vec::new();
            push_str(&mut out, "\"");
            push_all(&mut out, &chars_of(value.as_str()));
            push_str(&mut out, "\"");
            string_of(&out)
        },
        ASTNode::Boolean { value } => if *value {
            "true".to_string()
        } else {
            "false".to_string()
        },
        ASTNode::Identifier { name } => name.clone(),
        ASTNode::BinaryOp { operator, .. } => operator.clone(),
        ASTNode::UnaryOp { operator, .. } => operator.clone(),
        ASTNode::Assignment { .. } => "=".to_string(),
        ASTNode::FunctionCall { name, .. } => {
            let mut out = chars_of(name.as_str());
            push_str(&mut out, "()");
            string_of(&out)
        },
        ASTNode::Parenthesized { .. } => "( )".to_string(),
        ASTNode::Program { .. } => "Program".to_string(),
        ASTNode::ExpressionStatement { .. } => "Statement".to_string(),
    }
}

fn short_color_of(node: &ASTNode) -> (r: String)
    ensures
        r@ == short_color(node@),
{
    let c = match node {
        ASTNode::Number { .. } => "#FFE4B5",
        ASTNode::String { .. } => "#E6E6FA",
        ASTNode::Boolean { .. } => "#90EE90",
        ASTNode::Identifier { .. } => "#B0E0E6",
        ASTNode::BinaryOp { .. } => "#FFB6C1",
        ASTNode::UnaryOp { .. } => "#DDA0DD",
        ASTNode::Assignment { .. } => "#98FB98",
        ASTNode::FunctionCall { .. } => "#F0E68C",
        ASTNode::Parenthesized { .. } => "#D3D3D3",
        ASTNode::Program { .. } => "#FFA07A",
        ASTNode::ExpressionStatement { .. } => "#20B2AA",
    };
    c.to_string()
}

pub open spec fn nodes_view(v: Seq<NodeData>) -> Seq<VizNode> {
    v.map_values(|d: NodeData| node_view(d))
}

pub open spec fn edges_view(v: Seq<EdgeData>) -> Seq<(Seq<char>, Seq<char>)> {
    v.map_values(|e: EdgeData| edge_view(e))
}

/// Appends the drawing of `node` (numbered from `*counter`, below `parent_id`) to
/// `nodes` and `edges`; gives the node's name.
#[verifier::spinoff_prover]
#[verifier::rlimit(60)]
fn traverse_ast(
    node: &ASTNode,
    parent_id: Option<usize>,
    nodes: &mut Vec<NodeData>,
    edges: &mut Vec<EdgeData>,
    counter: &mut usize,
) -> (r: String)
    ensures
        ({
            let (ns, es, next) = viz(node@, parent_view(parent_id), *old(counter) as nat);
            &&& nodes_view(final(nodes)@) == nodes_view(old(nodes)@) + ns
            &&& edges_view(final(edges)@) == edges_view(old(edges)@) + es
            &&& *final(counter) == next
            &&& r@ == node_name(*old(counter) as nat)
        }),
    decreases node,
{
    let ghost n = node@;
    let ghost k = *counter as nat;
    let ghost pv = parent_view(parent_id);
    let id = *counter;
    if id < usize::MAX {
        *counter = id + 1;
    }
    let node_id = name_of(id);
    let ghost nodes0 = nodes_view(nodes@);
    let ghost edges0 = edges_view(edges@);
    let me = NodeData {
        id: name_of(id),
        label: short_label_of(node),
        node_type: node.node_type().to_string(),
        color: short_color_of(node),
    };
    nodes.push(me);
    assert(nodes_view(nodes@) =~= nodes0 + seq![viz(n, pv, k).0[0]]);
    match parent_id {
        Some(p) => {
            edges.push(EdgeData { from: name_of(p), to: name_of(id) });
        },
        None => {},
    }
    let ghost up: Seq<(Seq<char>, Seq<char>)> = match pv {
        Some(p) => seq![(node_name(p), node_name(k))],
        None => seq![],
    };
    assert(edges_view(edges@) =~= edges0 + up);
    let ghost nodes1 = nodes_view(nodes@);
    let ghost edges1 = edges_view(edges@);
    match node {
        ASTNode::BinaryOp { left, right, .. } | ASTNode::Assignment { left, right } => {
            traverse_ast(left, Some(id), nodes, edges, counter);
            traverse_ast(right, Some(id), nodes, edges, counter);
            assert(nodes_view(nodes@) =~= nodes0 + viz(n, pv, k).0);
            assert(edges_view(edges@) =~= edges0 + viz(n, pv, k).1);
        },
        ASTNode::UnaryOp { operand: child, .. } | ASTNode::Parenthesized { expression: child }
        | ASTNode::ExpressionStatement { expression: child } => {
            traverse_ast(child, Some(id), nodes, edges, counter);
            assert(nodes_view(nodes@) =~= nodes0 + viz(n, pv, k).0);
            assert(edges_view(edges@) =~= edges0 + viz(n, pv, k).1);
        },
        ASTNode::FunctionCall { arguments: kids, .. } | ASTNode::Program { statements: kids } => {
            let ghost total = viz_list(n, 0, k, succ(k));
            assert(forall|j: int| 0 <= j < kids.len() ==> viz_children(n)[j] == kids@[j]@);
            let mut i: usize = 0;
            assert(nodes_view(nodes@) =~= nodes1 + Seq::<VizNode>::empty());
            assert(edges_view(edges@) =~= edges1 + Seq::<(Seq<char>, Seq<char>)>::empty());
            assert(total.0 =~= Seq::<VizNode>::empty() + total.0);
            assert(total.1 =~= Seq::<(Seq<char>, Seq<char>)>::empty() + total.1);
            while i < kids.len()
                invariant
                    decreases_to!(*node => *kids),
                    n == node@,
                    n is FunctionCall || n is Program,
                    id == k,
                    total == viz_list(n, 0, k, succ(k)),
                    i <= kids.len(),
                    viz_children(n).len() == kids.len(),
                    forall|j: int| 0 <= j < kids.len() ==> viz_children(n)[j] == kids@[j]@,
                    viz_list(n, i as nat, k, *counter as nat).2 == total.2,
                    exists|dn: Seq<VizNode>, de: Seq<(Seq<char>, Seq<char>)>|
                        nodes_view(nodes@) == nodes1 + dn && edges_view(edges@) == edges1 + de
                            && total.0 == dn + viz_list(n, i as nat, k, *counter as nat).0
                            && total.1 == de + viz_list(n, i as nat, k, *counter as nat).1,
                decreases kids.len() - i,
            {
                let ghost c = *counter as nat;
                let ghost (dn, de) = choose|dn: Seq<VizNode>, de: Seq<(Seq<char>, Seq<char>)>|
                    nodes_view(nodes@) == nodes1 + dn && edges_view(edges@) == edges1 + de
                        && total.0 == dn + viz_list(n, i as nat, k, c).0 && total.1 == de
                        + viz_list(n, i as nat, k, c).1;
                proof {
                    vstd::std_specs::vec::axiom_vec_index_decreases(*kids, i as int);
                }
                traverse_ast(&kids[i], Some(id), nodes, edges, counter);
                proof {
                    let (a, b, cc) = viz(kids@[i as int]@, Some(k), c);
                    let (d, e, f) = viz_list(n, (i + 1) as nat, k, cc);
                    assert(viz_list(n, i as nat, k, c) == (a + d, b + e, f));
                    assert(nodes_view(nodes@) =~= nodes1 + (dn + a));
                    assert(edges_view(edges@) =~= edges1 + (de + b));
                    assert(total.0 =~= (dn + a) + d);
                    assert(total.1 =~= (de + b) + e);
                }
                i = i + 1;
            }
            assert(nodes_view(nodes@) =~= nodes0 + viz(n, pv, k).0);
            assert(edges_view(edges@) =~= edges0 + viz(n, pv, k).1);
        },
        _ => {
            assert(nodes_view(nodes@) =~= nodes0 + viz(n, pv, k).0);
            assert(edges_view(edges@) =~= edges0 + viz(n, pv, k).1);
        },
    }
    node_id
}

/// The nodes of `ast` in preorder, numbered from 0, and the edges from each node to its
/// children.
pub fn generate_visualization_data(ast: &ASTNode) -> (r: (Vec<NodeData>, Vec<EdgeData>))
    ensures
        nodes_view(r.0@) == viz(ast@, None, 0).0,
        edges_view(r.1@) == viz(ast@, None, 0).1,
{
    let mut nodes: Vec<NodeData> = Vec::new();
    let mut edges: Vec<EdgeData> = Vec::new();
    let mut node_counter: usize = 0;
    assert(nodes_view(nodes@) =~= seq![]);
    assert(edges_view(edges@) =~= seq![]);
    traverse_ast(ast, None, &mut nodes, &mut edges, &mut node_counter);
    assert(nodes_view(nodes@) =~= viz(ast@, None, 0).0);
    assert(edges_view(edges@) =~= viz(ast@, None, 0).1);
    (nodes, edges)
}

} // verus!
