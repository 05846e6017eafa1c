//! The compiler's model of programs: source spans, qualified names, tokens, types and
//! module manifests.
pub mod infra;
pub mod frontend;
pub mod model;
pub mod interpret;
pub mod backend;
