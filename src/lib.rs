//! The conditional block helpers of a template engine: a total truthiness
//! rule over dynamic values, and the `if` / `unless` dispatcher that picks one
//! of two sub-templates and hands it back to the host renderer.
pub mod error;
pub mod helper_if;
pub mod invocation;
pub mod render;
pub mod value;
