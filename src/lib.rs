//! Scanner and recursive-descent parser for a small expression language, with the
//! tree renderers built on them. Each stage is specified by a model in spec code
//! (`lexer::lex_step`, `parser::p_program`, `graphviz::render`, ...) and proved to
//! follow it.

pub mod analysis;
pub mod ast;
pub mod graphviz;
pub mod lexer;
pub mod lexer_lemmas;
pub mod parser;
pub mod semantic;
pub mod text;
pub mod token;
pub mod visual;
