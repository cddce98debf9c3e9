//! Naming-phase checks on type-parameter declarations and interface
//! declarations of a Hack-like front end.
pub mod ast;
pub mod errors;
pub mod names;
pub mod validate_hint_habstr;
pub mod validate_interface;
pub mod scope_lemmas;
