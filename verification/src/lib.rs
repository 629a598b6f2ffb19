//! Typed, screened access to task fields that may hold template expressions.
//!
//! A field of a task is written as text that may embed expressions between
//! double braces. Before a module uses such a field, [`Template`] renders it
//! for one host, screens the result and coerces it to the type that the module
//! asks for. In a syntax-only run a field that holds an expression is not
//! evaluated: the accessor answers with a fixed placeholder instead.

pub mod collaborators;
pub mod laws;
pub mod literal;
pub mod lookup;
pub mod message;
pub mod outcomes;
pub mod template;
pub mod text;

pub use collaborators::{BlendTarget, Collaborators, Response, RunState, Safety, Screening};
pub use template::Template;
