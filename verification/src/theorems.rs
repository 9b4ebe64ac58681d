//! What holds of rendering in general, proved from the definitions in
//! [`crate::semantics`].

pub mod nodes;
pub mod passes;
pub mod scripts;
