//! The syntax tree built by the parser, and its mathematical view.
use vstd::prelude::*;
use crate::text::{push_str, push_all, chars_of, string_of};

verus! {

/// A node of the syntax tree. Each child is owned by exactly one parent.
#[derive(Debug, PartialEq)]
pub enum ASTNode {
    Number { value: String, is_float: bool },
    String { value: String },
    Boolean { value: bool },
    Identifier { name: String },
    BinaryOp { left: Box<ASTNode>, operator: String, right: Box<ASTNode> },
    UnaryOp { operator: String, operand: Box<ASTNode> },
    Assignment { left: Box<ASTNode>, right: Box<ASTNode> },
    FunctionCall { name: String, arguments: Vec<ASTNode> },
    Parenthesized { expression: Box<ASTNode> },
    Program { statements: Vec<ASTNode> },
    ExpressionStatement { expression: Box<ASTNode> },
}

/// What a syntax tree node denotes: the same shape, with text as character sequences.
pub enum Ast {
    Number { value: Seq<char>, is_float: bool },
    Str { value: Seq<char> },
    Boolean { value: bool },
    Identifier { name: Seq<char> },
    BinaryOp { left: Box<Ast>, operator: Seq<char>, right: Box<Ast> },
    UnaryOp { operator: Seq<char>, operand: Box<Ast> },
    Assignment { left: Box<Ast>, right: Box<Ast> },
    FunctionCall { name: Seq<char>, arguments: Seq<Ast> },
    Parenthesized { expression: Box<Ast> },
    Program { statements: Seq<Ast> },
    ExpressionStatement { expression: Box<Ast> },
}

pub open spec fn view_node(n: ASTNode) -> Ast
    decreases n,
{
    match n {
        ASTNode::Number { value, is_float } => Ast::Number { value: value@, is_float },
        ASTNode::String { value } => Ast::Str { value: value@ },
        ASTNode::Boolean { value } => Ast::Boolean { value },
        ASTNode::Identifier { name } => Ast::Identifier { name: name@ },
        ASTNode::BinaryOp { left, operator, right } => Ast::BinaryOp {
            left: Box::new(view_node(*left)),
            operator: operator@,
            right: Box::new(view_node(*right)),
        },
        ASTNode::UnaryOp { operator, operand } => Ast::UnaryOp {
            operator: operator@,
            operand: Box::new(view_node(*operand)),
        },
        ASTNode::Assignment { left, right } => Ast::Assignment {
            left: Box::new(view_node(*left)),
            right: Box::new(view_node(*right)),
        },
        ASTNode::FunctionCall { name, arguments } => Ast::FunctionCall {
            name: name@,
            arguments: Seq::new(
                arguments@.len(),
                |i: int|
                    if 0 <= i < arguments@.len() {
                        view_node(arguments@[i])
                    } else {
                        Ast::Boolean { value: false }
                    },
            ),
        },
        ASTNode::Parenthesized { expression } => Ast::Parenthesized {
            expression: Box::new(view_node(*expression)),
        },
        ASTNode::Program { statements } => Ast::Program {
            statements: Seq::new(
                statements@.len(),
                |i: int|
                    if 0 <= i < statements@.len() {
                        view_node(statements@[i])
                    } else {
                        Ast::Boolean { value: false }
                    },
            ),
        },
        ASTNode::ExpressionStatement { expression } => Ast::ExpressionStatement {
            expression: Box::new(view_node(*expression)),
        },
    }
}

impl View for ASTNode {
    type V = Ast;

    open spec fn view(&self) -> Ast {
        view_node(*self)
    }
}

/// The name of a node's kind.
pub open spec fn kind_name(n: Ast) -> Seq<char> {
    match n {
        Ast::Number { .. } => "Number"@,
        Ast::Str { .. } => "String"@,
        Ast::Boolean { .. } => "Boolean"@,
        Ast::Identifier { .. } => "Identifier"@,
        Ast::BinaryOp { .. } => "BinaryOp"@,
        Ast::UnaryOp { .. } => "UnaryOp"@,
        Ast::Assignment { .. } => "Assignment"@,
        Ast::FunctionCall { .. } => "FunctionCall"@,
        Ast::Parenthesized { .. } => "Parenthesized"@,
        Ast::Program { .. } => "Program"@,
        Ast::ExpressionStatement { .. } => "ExpressionStatement"@,
    }
}

/// A node's label: its kind name and, on a second line, what it holds.
pub open spec fn label_of(n: Ast) -> Seq<char> {
    match n {
        Ast::Number { value, is_float } => "Number\n"@ + value + " ("@ + (if is_float {
            "float"@
        } else {
            "int"@
        }) + ")"@,
        Ast::Str { value } => "String\n\""@ + value + "\""@,
        Ast::Boolean { value } => "Boolean\n"@ + if value {
            "true"@
        } else {
            "false"@
        },
        Ast::Identifier { name } => "Identifier\n"@ + name,
        Ast::BinaryOp { operator, .. } => "BinaryOp\n"@ + operator,
        Ast::UnaryOp { operator, .. } => "UnaryOp\n"@ + operator,
        Ast::Assignment { .. } => "Assignment\n="@,
        Ast::FunctionCall { name, .. } => "FunctionCall\n"@ + name,
        Ast::Parenthesized { .. } => "Parenthesized\n( )"@,
        Ast::Program { .. } => "Program"@,
        Ast::ExpressionStatement { .. } => "ExpressionStatement"@,
    }
}

impl ASTNode {
    /// The name of this node's kind, for generic tree walkers.
    pub fn node_type(&self) -> (r: &'static str)
        ensures
            r@ == kind_name(self@),
    {
        match self {
            ASTNode::Number { .. } => "Number",
            ASTNode::String { .. } => "String",
            ASTNode::Boolean { .. } => "Boolean",
            ASTNode::Identifier { .. } => "Identifier",
            ASTNode::BinaryOp { .. } => "BinaryOp",
            ASTNode::UnaryOp { .. } => "UnaryOp",
            ASTNode::Assignment { .. } => "Assignment",
            ASTNode::FunctionCall { .. } => "FunctionCall",
            ASTNode::Parenthesized { .. } => "Parenthesized",
            ASTNode::Program { .. } => "Program",
            ASTNode::ExpressionStatement { .. } => "ExpressionStatement",
        }
    }

    /// A human-readable label: the kind name and, on a second line, the literal value,
    /// name or operator the node holds.
    pub fn label(&self) -> (r: String)
        ensures
            r@ == label_of(self@),
    {
        let mut out: Vec<char> = Vec::new();
        match self {
            ASTNode::Number { value, is_float } => {
                push_str(&mut out, "Number\n");
                push_all(&mut out, &chars_of(value.as_str()));
                push_str(&mut out, " (");
                if *is_float {
                    push_str(&mut out, "float");
                } else {
                    push_str(&mut out, "int");
                }
                push_str(&mut out, ")");
            },
            ASTNode::String { value } => {
                push_str(&mut out, "String\n\"");
                push_all(&mut out, &chars_of(value.as_str()));
                push_str(&mut out, "\"");
            },
            ASTNode::Boolean { value } => {
                push_str(&mut out, "Boolean\n");
                if *value {
                    push_str(&mut out, "true");
                } else {
                    push_str(&mut out, "false");
                }
            },
            ASTNode::Identifier { name } => {
                push_str(&mut out, "Identifier\n");
                push_all(&mut out, &chars_of(name.as_str()));
            },
            ASTNode::BinaryOp { operator, .. } => {
                push_str(&mut out, "BinaryOp\n");
                push_all(&mut out, &chars_of(operator.as_str()));
            },
            ASTNode::UnaryOp { operator, .. } => {
                push_str(&mut out, "UnaryOp\n");
                push_all(&mut out, &chars_of(operator.as_str()));
            },
            ASTNode::Assignment { .. } => {
                push_str(&mut out, "Assignment\n=");
            },
            ASTNode::FunctionCall { name, .. } => {
                push_str(&mut out, "FunctionCall\n");
                push_all(&mut out, &chars_of(name.as_str()));
            },
            ASTNode::Parenthesized { .. } => {
                push_str(&mut out, "Parenthesized\n( )");
            },
            ASTNode::Program { .. } => {
                push_str(&mut out, "Program");
            },
            ASTNode::ExpressionStatement { .. } => {
                push_str(&mut out, "ExpressionStatement");
            },
        }
        proof {
            assert(out@ =~= label_of(self@));
        }
        string_of(&out)
    }
}

} // verus!
