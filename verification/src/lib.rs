//! Intermediate-representation layer of a distributed graph-query engine.
//!
//! A client incrementally constructs a logical query plan: a directed acyclic
//! graph of relational/graph operators, each carrying a payload built through
//! the operator catalog's setters. Predicate and projection strings are
//! compiled into a stack-evaluable postfix token sequence by the expression
//! compiler. The finished plan is handed to a downstream executor.

pub mod catalog;
pub mod common;
pub mod expr;
pub mod lexer;
pub mod parser;
pub mod plan;
