//! Front end of the Fragment language: a pull-based tokenizer over a byte
//! buffer and a recursive-descent parser with precedence climbing, both
//! specified over mathematical models of the token stream and the syntax tree.

pub mod token;
pub mod error;
pub mod operator_precedence;
pub mod char_reader;
pub mod lexis;
pub mod lexer;
pub mod ast_nodes;
pub mod grammar;
pub mod ast;
