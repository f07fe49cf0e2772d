pub mod text;
pub mod error;
pub mod enforcement;
pub mod policy;
pub mod check;
pub mod git;
pub mod versioning;
pub mod config;
pub mod runtime;
pub mod ordered;
pub mod stage;
pub mod push;
pub mod lists;
pub use lists::{string_vec_map, strings};
pub mod paths;
pub mod state;
pub mod settings;
pub mod repo;
