//! Field classification and builder synthesis for record types with named
//! fields, together with a description-driven builder that follows the
//! synthesized rules at run time.

pub mod type_expr;
pub mod synth;
pub mod runtime;
pub mod laws;
