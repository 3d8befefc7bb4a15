//! The structured, file/URL-scoped errors of the build core. Every stage
//! returns one of these rather than crashing the process; the layer that
//! renders them is outside this library.

use vstd::prelude::*;
use vstd::string::StringExecFns;

verus! {

/// Errors of one package build.
#[derive(Debug)]
pub enum CompilerError {
    /// An asset could not be read or written.
    AssetFailedCopy { path: String, error: String },
    /// A PNG re-encode failed.
    AssetFailedPngOptimize { path: String, error: String },
    /// The transform engine rejected a module.
    ModuleTransformFailed { path: String, error: String },
    /// TypeScript declarations could not be generated.
    DeclGenerateFailed,
    /// A transformed module could not be written.
    ModuleWriteFailed { path: String, error: String },
    /// No supported JavaScript runtime was found.
    NoRuntime,
}

impl CompilerError {
    /// The message the command line renders for this error.
    pub fn message(&self) -> (r: String)
        ensures
            match self {
                CompilerError::AssetFailedCopy { path, .. } => r@ == "Failed to copy asset "@
                    + path@ + "."@,
                CompilerError::AssetFailedPngOptimize { path, .. } => r@
                    == "Failed to optimize asset "@ + path@ + "."@,
                CompilerError::ModuleTransformFailed { path, .. } => r@
                    == "Failed to transform module "@ + path@ + "."@,
                CompilerError::DeclGenerateFailed => r@
                    == "Failed to generate TypeScript declarations."@,
                CompilerError::ModuleWriteFailed { path, .. } => r@ == "Failed to create module "@
                    + path@ + "."@,
                CompilerError::NoRuntime => r@
                    == "Failed to detect a JavaScript runtime. Please install Node or Bun."@,
            },
    {
        match self {
            CompilerError::AssetFailedCopy { path, .. } => "Failed to copy asset ".to_owned()
                .concat(path.as_str()).concat("."),
            CompilerError::AssetFailedPngOptimize { path, .. } => "Failed to optimize asset "
                .to_owned().concat(path.as_str()).concat("."),
            CompilerError::ModuleTransformFailed { path, .. } => "Failed to transform module "
                .to_owned().concat(path.as_str()).concat("."),
            CompilerError::DeclGenerateFailed => "Failed to generate TypeScript declarations."
                .to_owned(),
            CompilerError::ModuleWriteFailed { path, .. } => "Failed to create module ".to_owned()
                .concat(path.as_str()).concat("."),
            CompilerError::NoRuntime =>
                "Failed to detect a JavaScript runtime. Please install Node or Bun.".to_owned(),
        }
    }
}

/// Errors of loading a package and its source tree.
#[derive(Debug)]
pub enum PackageError {
    /// No package stands at the given path.
    MissingPackage { path: String },
    /// The package has no `src` directory.
    MissingSourceDir { name: String, src_dir: String },
    /// A source file is written in a CommonJS format, which the system
    /// refuses entirely.
    NoCommonJS { path: String },
    /// An exclude glob could not be compiled.
    InvalidExcludeGlob { pattern: String },
}

impl PackageError {
    /// The message the command line renders for this error.
    pub fn message(&self) -> (r: String)
        ensures
            match self {
                PackageError::MissingPackage { path } => r@ == "No package was found at "@ + path@
                    + "."@,
                PackageError::MissingSourceDir { name, src_dir } => r@
                    == "No src directory found in package "@ + name@
                    + ". Please create a directory at "@ + src_dir@ + "."@,
                PackageError::NoCommonJS { path } => r@
                    == "CommonJS is not supported, please use ECMAScript modules instead. Found "@
                    + path@ + " written in a CJS format."@,
                PackageError::InvalidExcludeGlob { pattern } => r@
                    == "Invalid exclude pattern "@ + pattern@ + "."@,
            },
    {
        match self {
            PackageError::MissingPackage { path } => "No package was found at ".to_owned().concat(
                path.as_str(),
            ).concat("."),
            PackageError::MissingSourceDir { name, src_dir } =>
                "No src directory found in package ".to_owned().concat(name.as_str()).concat(
                ". Please create a directory at ",
            ).concat(src_dir.as_str()).concat("."),
            PackageError::NoCommonJS { path } =>
                "CommonJS is not supported, please use ECMAScript modules instead. Found "
                .to_owned().concat(path.as_str()).concat(" written in a CJS format."),
            PackageError::InvalidExcludeGlob { pattern } => "Invalid exclude pattern ".to_owned()
                .concat(pattern.as_str()).concat("."),
        }
    }
}

/// Errors of the tool store.
#[derive(Debug)]
pub enum StoreError {
    /// The request itself failed.
    Http { error: String },
    /// The archive does not exist at the URL: the response was 404.
    DownloadNotFound { url: String },
    /// The response carried some other non-success status.
    DownloadFailed { url: String, status: String },
}

impl StoreError {
    /// The message the command line renders for this error.
    pub fn message(&self) -> (r: String)
        ensures
            match self {
                StoreError::Http { .. } => r@ == "Failed to make request."@,
                StoreError::DownloadNotFound { url } => r@
                    == "Unable to download package. Archive does not exist at "@ + url@ + "."@,
                StoreError::DownloadFailed { url, status } => r@
                    == "Failed to download package from "@ + url@ + " ("@ + status@ + ")."@,
            },
    {
        match self {
            StoreError::Http { .. } => "Failed to make request.".to_owned(),
            StoreError::DownloadNotFound { url } =>
                "Unable to download package. Archive does not exist at ".to_owned().concat(
                url.as_str(),
            ).concat("."),
            StoreError::DownloadFailed { url, status } => "Failed to download package from "
                .to_owned().concat(url.as_str()).concat(" (").concat(status.as_str()).concat(")."),
        }
    }
}

} // verus!
