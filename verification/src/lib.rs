//! A small embeddable scripting-language engine: a lexer, a recursive-descent
//! parser, and a tree-walking evaluator for a minimal dynamically-typed
//! prefix-call language, together with the runtime data model they operate on
//! (tokens, AST nodes, runtime values, and the lexically-chained environment).

pub mod text;
pub mod numbers;
pub mod types;
pub mod scope;
pub mod lexer;
pub mod parser;
pub mod fs;
pub mod console;
pub mod stdlib;
pub mod runner;
pub mod repl;
