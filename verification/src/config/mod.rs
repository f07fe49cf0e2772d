//! Configuration: the layered settings file, its defaults and accessors.
pub mod types;
pub mod defaults;
pub mod base;
pub mod env;
pub mod registry;
pub mod rules;
pub mod schema;
pub mod resolver;
pub mod tree;
