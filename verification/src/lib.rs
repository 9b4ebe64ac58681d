//! Code generation for the vesti markup language: a parsed document is
//! rendered into LaTeX source.
//!
//! [`ast`] holds the tree that a parser produces. [`semantics`] says what
//! each node of it renders to, and [`evaluator`] and [`codegen`] compute
//! just that: [`evaluator::Evaluator`] renders nodes, and
//! [`codegen::Codegen`] renders a whole document under a file header.
//! [`theorems`] holds what is proved of rendering in general.
//!
//! A document may hold scripts, which are run by an interpreter that this
//! library does not know. A pass over the document stops at the first
//! script whose result it has not been given and hands out the script to
//! run ([`script::Halt::RunScript`]). The caller runs it, gives the result
//! to [`codegen::Codegen::supply`] and starts the pass again, until a pass
//! ends with the text or with an error.

pub mod ast;
pub mod codegen;
pub mod engine;
pub mod error;
pub mod evaluator;
pub mod location;
pub mod registry;
pub mod script;
pub mod semantics;
pub mod text;
pub mod theorems;
