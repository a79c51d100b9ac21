//! Token model for a small functional/proof language.
//!
//! This crate defines the closed vocabulary of lexical units produced by a
//! scanner and consumed by a recursive-descent parser: the [`token::Token`]
//! sum type, a coarse variant-level comparison used for parser lookahead,
//! narrow classification predicates for branch decisions, and a canonical
//! human-readable rendering used in diagnostics.

pub mod render;
pub mod token;

pub use token::SyntaxDiagnostic;
pub use token::Token;
