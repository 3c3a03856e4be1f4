//! Comparisons of several values with one right-hand side, written once:
//! `all_of({x, y, z} < a)` in place of `x < a && y < a && z < a`.
//!
//! The crate has two halves. One reads the fluent form and writes the chain
//! of comparisons that it stands for: [`token`] and [`input`] divide a text
//! into tokens, [`transform`], [`comparison`] and [`number`] hold the grammar,
//! [`rust_syntax`] asks a parser of Rust what is an expression, and [`expand`]
//! writes the expansion. The other half says what the chain computes:
//! [`operator`] holds the six comparison operators, [`quantifier`] the four
//! quantifiers, evaluated from left to right and no further than needed,
//! [`chain`] shows that Rust evaluates the expansion in just that way, and
//! [`laws`] says what holds between the quantifiers. [`samples`] works through
//! a few comparisons.

pub mod chain;
pub mod comparison;
pub mod error;
pub mod expand;
pub mod input;
pub mod laws;
pub mod number;
pub mod operator;
pub mod quantifier;
pub mod rust_syntax;
pub mod samples;
pub mod token;
pub mod transform;
