//! A derivation engine for the destructure pattern.
//!
//! Given the declaration of a record type, the engine derives up to three
//! companion record types and the methods that convert between a record and
//! its companions:
//!
//! * `Destructure`: an owning companion `Destruct{N}` whose fields are public,
//!   with `into_destruct`, `reconstruct`, `try_reconstruct` and `freeze`;
//! * `DestructureRef`: a borrowing companion `Destruct{N}Ref` with `as_destruct`;
//! * `Mutation`: a mutable view `{N}Mut` with `substitute` and `try_substitute`.
//!
//! The engine is a pure function from a declaration to an expansion. Both are
//! plain data, so a front end may build the one from any syntax tree and turn
//! the other into tokens.
pub mod model;
pub mod directive;
pub mod names;
pub mod error;
pub mod output;
pub mod emit;
pub mod destructure;
pub mod destructure_ref;
pub mod mutation;
pub mod text;
pub mod render;
pub mod book;
pub mod domain;
pub mod meaning;
pub mod laws;
