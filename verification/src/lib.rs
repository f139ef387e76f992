//! Derivation of `status` / `reason` dispatch tables for sum types.
//!
//! Given the declaration of a sum type and the configuration entries attached
//! to each of its variants, [`derive::derive`] resolves the entries, checks them
//! against the shape of their variant, and builds two ordered lists of match
//! arms: one that yields the HTTP status of a value, one that yields its
//! reason phrase. [`eval`] gives the arms their meaning on run-time values,
//! and [`laws`] states what follows for every derivation.

pub mod config;
pub mod derive;
pub mod dispatch;
pub mod error;
pub mod eval;
pub mod laws;
pub mod registry;
pub mod response;
pub mod schema;
pub mod text;
pub mod validate;

pub use crate::config::{Sources, Target, ValueSpec};
pub use crate::dispatch::{Arm, DispatchTable, Extraction, Pattern};
pub use crate::error::DeriveError;
pub use crate::eval::{FieldValue, Value};
pub use crate::registry::{status_from_u16, LookupError};
pub use crate::response::{EnumResponse, Response};
pub use crate::schema::{
    ConfigEntry, ConfigValue, Field, Schema, ShapeKind, TypeBody, Variant, VariantShape,
};
