//! Derive-style code generators for plain structs (`Builder`, `Getters`, `New`),
//! together with an executable model of the code they generate.
//!
//! A generator reads a [`descriptor::TypeDescriptor`] (the type's name, its
//! generic parameters and its fields) and returns the generated Rust source
//! text, or refuses an item that is not a struct with named fields. The
//! `record` module is a separate executable model of what that code does at
//! run time (constructor, accessors, builder), and `laws` proves its
//! properties of that model.
pub mod builder;
pub mod descriptor;
pub mod generics;
pub mod getters;
pub mod laws;
pub mod new;
pub mod pieces;
pub mod record;
pub mod text;

pub use builder::derive_builder;
pub use getters::derive_getters;
pub use new::derive_new;
