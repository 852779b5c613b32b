//! A lexer for a lightweight markup language: it turns text into a flat,
//! positioned sequence of tokens through a priority-ordered set of rules.
pub mod context;
pub mod handlers;
pub mod inline;
pub mod lexer;
pub mod position;
pub mod redirect;
pub mod registry;
pub mod stream;
pub mod text;
pub mod token;
