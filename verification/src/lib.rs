//! A small ahead-of-time compiler: a recursive-descent parser over lexed
//! tokens, and a backend that lowers typed programs to a machine-level module.

pub mod ast;
pub mod backend;
pub mod lexer;
pub mod parser;
pub mod text;
pub mod thin;
pub mod typer;
