//! The desktop shell's settings, status and credential logic.
pub mod commands;
pub mod keychain;
pub mod settings;
pub mod status;
pub mod validation;
