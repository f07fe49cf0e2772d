//! The settings commands: showing, editing and creating settings files.
pub mod show;
pub mod edit;
pub mod init;
