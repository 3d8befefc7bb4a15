//! Build core of an ESM-only JavaScript/TypeScript package manager.
//!
//! Given one resolved package, the library classifies its `src` tree,
//! plans the concurrent compilation stages (assets, modules, type
//! declarations), enforces the ESM-only output contract at the syntax
//! level, and computes the content-addressed paths and decisions of the
//! lock-protected local tool store.

pub mod asset;
pub mod compiler;
pub mod declarations;
pub mod errors;
pub mod globs;
pub mod manifest_settings;
pub mod module;
pub mod package;
pub mod package_name;
pub mod paths;
pub mod plugins;
pub mod source_files;
pub mod store;
pub mod target;
pub mod text;
pub mod tsconfig;
