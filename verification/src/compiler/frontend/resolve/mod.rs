//! Name resolution: assignability of types, the checks of resolved expressions and
//! module manifests.
pub mod type_checker;
pub mod module_manifest;
pub mod resolver;
