//! A typed arena with checked handles.
pub mod typed_arena;
