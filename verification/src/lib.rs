//! Abstract syntax of the Steel scheme dialect: the tokens that source text
//! is cut into, the reader that turns tokens into expressions, the
//! expression tree, the special forms that turn a parenthesised list into a
//! typed node, and the written form of every node.
pub mod ast;
pub mod display;
pub mod form_laws;
pub mod forms;
pub mod laws;
pub mod lexer;
pub mod reader;
pub mod round_trip;
pub mod text;
pub mod tokens;
pub mod written_laws;
