//! Core of an SDK version manager: version tokens, the release catalog,
//! the on-disk layout, the content-addressed engine cache and the install
//! protocol, each stated as verified contracts. Everything that touches the
//! network, git or the file system runs outside this library and reports
//! back plain values.

mod text;
pub mod version;
pub mod error;
pub mod layout;
pub mod engine;
pub mod gc;
pub mod releases;
pub mod config;
pub mod install;
pub mod session;
pub mod repo;
pub mod inventory;
pub mod commands;
