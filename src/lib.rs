//! Binds a separately built guest program into a host build: locates the
//! artifact from a crate reference, derives its image identifier, and renders
//! a module that exposes both as constants.

pub mod path;
pub mod toml_doc;
pub mod manifest;
pub mod digest;
pub mod binding;
pub mod render;
pub mod locate;
pub mod session;
