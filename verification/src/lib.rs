//! A dual front-end form library: an interactive command is described once as
//! a list of typed, validated input fields, and that description serves both a
//! flag-parsing command line and an interactive full-screen terminal form.
//!
//! The crate holds the shared core: the value model, the validator pipeline,
//! the field and form abstractions, and the submit/cancel event protocol.
//! Rendering widgets on a terminal and reading process arguments belong to the
//! surrounding program; the core exchanges plain values with it.

pub mod field;
pub mod flags;
pub mod form;
pub mod validator;
pub mod value;
