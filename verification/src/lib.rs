//! A small symbolic-differentiation library: algebraic expressions are
//! parsed from text by a tokenizer and a fixed-priority reduction parser,
//! differentiated with respect to a variable, simplified by a single
//! bottom-up pass, and rendered in standard or LaTeX notation.

pub mod derivative;
pub mod expr;
pub mod out;
pub mod parser;
pub mod simplify;
pub mod subexpr;
pub mod text;
pub mod token;

pub use expr::Expr;

