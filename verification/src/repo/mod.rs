//! The logic of the Git operations: the working-tree status, staging, tags
//! and the texts and errors of the commands.
pub mod status;
pub mod commands;
