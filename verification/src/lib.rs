//! Template rendering for a web application's view layer: a template
//! environment over a directory, rendered by name against a data value, kept
//! either as it was first made or made anew when the directory changes.

pub mod engine;
pub mod error;
pub mod initializer;
pub mod view;

pub use crate::error::{FailureKind, ViewError};
pub use crate::initializer::{
    MinijinjaViewEngineConfigurableInitializer, MinijinjaViewEngineInitializer,
};
pub use crate::view::{MinijinjaView, ReloadMode};
