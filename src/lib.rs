//! A small lint framework: a syntax tree model, a pre-order visitor
//! dispatch over it, a diagnostics context, and the `no-delete-var` rule.
pub mod ast;
pub mod context;
pub mod visit;
pub mod rule;
pub mod no_delete_var;
