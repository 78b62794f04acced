//! A transpiler from a Vim9-flavoured scripting language to Lua.
//!
//! Source text is cut into tokens ([`lexer`]), the tokens are parsed into a
//! tree of commands and expressions ([`parser`]), and the tree is written
//! out as Lua ([`emit`]), which a formatter then tidies ([`format`]).
//!
//! Each stage computes a function that is stated over the mathematical
//! model of its data: [`lexer::lex`] for the tokens of a text,
//! [`grammar::parse_program`] for the tree of a token sequence, and
//! [`target::gen_program`] for the Lua text of a tree. The models of tokens
//! and trees are in [`token`] and [`ast`]; what holds of every run is in
//! [`laws`] and [`occurs`].

pub mod token;
pub mod lexer;
pub mod ast;
pub mod grammar;
pub mod parser;
pub mod target;
pub mod format;
pub mod emit;
pub mod gen;
pub mod laws;
pub mod occurs;
