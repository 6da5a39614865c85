//! Machine-readable descriptions of the shape of configuration types.
//!
//! A [`TypeDescription`] is a tree that says what a configuration value looks
//! like: a scalar, a wrapper, a sequence, a string-keyed table, a record or a
//! tagged choice. A type offers its tree through [`AsTypeDescription`].
//!
//! - [`description`] holds the tree, its model and its structural equality.
//! - [`capability`] holds the trait and the rules for optional values,
//!   sequences and string-keyed tables.
//! - [`scalars`] holds the fixed descriptions of the built-in scalars.

pub mod capability;
pub mod description;
pub mod scalars;

pub use capability::AsTypeDescription;
pub use description::{EnumVariantRepresentation, TypeDescription, TypeEnumKind, TypeKind};
pub use scalars::Scalar;
