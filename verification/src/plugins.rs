//! The two mandatory transform passes every module runs through, in a
//! fixed order: the CommonJS-use detector, then the specifier-extension
//! normalizer. Their decisions are plain functions over the strings the
//! syntax tree carries; the embedding that walks the tree hands each
//! identifier, call and specifier here.

pub mod add_mjs_ext;
pub mod detect_cjs;
