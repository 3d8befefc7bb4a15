//! One asset of a package: a non-code file copied to the output tree,
//! with PNGs optionally re-encoded losslessly on the way.

use vstd::prelude::*;
use vstd::string::StringExecFns;

use crate::errors::CompilerError;
use crate::manifest_settings::ManifestBuild;
use crate::paths::has_extension;
use crate::paths::spec_has_extension;

verus! {

/// What the lossless PNG re-encoder makes of these bytes at this
/// compression level: a function of the two alone.
pub uninterp spec fn optimized_png(bytes: Seq<u8>, level: u8) -> Seq<u8>;

/// Whether the re-encoder accepts these bytes at this level: like the
/// result itself, a function of the two alone (it fails exactly on input
/// that does not decode as a PNG).
pub uninterp spec fn png_encode_ok(bytes: Seq<u8>, level: u8) -> bool;

/// Relies on oxipng::optimize_from_memory, with options taken from
/// oxipng::Options::from_preset (which sets no timeout): the losslessly
/// re-encoded PNG, or an error for bytes that are no valid PNG. Both
/// the outcome and the bytes answered are functions of the input bytes
/// and the level alone.
#[verifier::external_body]
fn oxipng_optimize(bytes: &Vec<u8>, level: u8) -> (r: Result<Vec<u8>, String>)
    ensures
        r is Ok <==> png_encode_ok(bytes@, level),
        r matches Ok(v) ==> v@ == optimized_png(bytes@, level),
{
    oxipng::optimize_from_memory(bytes, &oxipng::Options::from_preset(level)).map_err(|error| {
        error.to_string()
    })
}

/// An asset: where it is read from, where it is written, and the build
/// settings that apply.
pub struct Asset {
    pub build_settings: ManifestBuild,
    pub out_path: String,
    pub src_path: String,
}

impl Asset {
    pub fn new(src_path: String, out_path: String, build_settings: ManifestBuild) -> (r: Asset)
        ensures
            r.src_path == src_path,
            r.out_path == out_path,
            r.build_settings == build_settings,
    {
        Asset { build_settings, out_path, src_path }
    }

    pub open spec fn spec_is_jpg(&self) -> bool {
        spec_has_extension(self.src_path@, seq!["jpg", "jpeg"])
    }

    pub fn is_jpg(&self) -> (r: bool)
        ensures
            r == self.spec_is_jpg(),
    {
        let exts: [&str; 2] = ["jpg", "jpeg"];
        let r = has_extension(self.src_path.as_str(), &exts);
        proof {
            assert(exts@ =~= seq!["jpg", "jpeg"]);
        }
        r
    }

    pub open spec fn spec_is_png(&self) -> bool {
        spec_has_extension(self.src_path@, seq!["png"])
    }

    pub fn is_png(&self) -> (r: bool)
        ensures
            r == self.spec_is_png(),
    {
        let exts: [&str; 1] = ["png"];
        let r = has_extension(self.src_path.as_str(), &exts);
        proof {
            assert(exts@ =~= seq!["png"]);
        }
        r
    }

    /// Re-encodes PNG bytes losslessly at the level the build settings
    /// call for. Succeeds exactly when the re-encoder accepts the bytes.
    pub fn optimize_png(&self, bytes: &Vec<u8>) -> (r: Result<Vec<u8>, CompilerError>)
        ensures
            r is Ok <==> png_encode_ok(bytes@, self.build_settings.optimize_png.spec_level()),
            match r {
                Ok(out) => out@ == optimized_png(
                    bytes@,
                    self.build_settings.optimize_png.spec_level(),
                ),
                Err(e) => e matches CompilerError::AssetFailedPngOptimize { path, .. } && path@
                    == self.src_path@,
            },
    {
        let level = self.build_settings.optimize_png.get_level();
        match oxipng_optimize(bytes, level) {
            Ok(out) => Ok(out),
            Err(error) => Err(
                CompilerError::AssetFailedPngOptimize { path: self.src_path.clone(), error },
            ),
        }
    }

    /// The compute part of copying one asset: the bytes written out for
    /// the bytes read in. A PNG is re-encoded losslessly when the build
    /// settings enable it; every other file — and every PNG when
    /// optimization is off or at level 0 — passes through byte for
    /// byte.
    pub fn process_bytes(&self, bytes: Vec<u8>) -> (r: Result<Vec<u8>, CompilerError>)
        ensures
            !(self.spec_is_png() && self.build_settings.optimize_png.spec_enabled()) ==> (
            r matches Ok(out) && out@ == bytes@),
            self.spec_is_png() && self.build_settings.optimize_png.spec_enabled() ==> match r {
                Ok(out) => png_encode_ok(bytes@, self.build_settings.optimize_png.spec_level())
                    && out@ == optimized_png(
                    bytes@,
                    self.build_settings.optimize_png.spec_level(),
                ),
                Err(e) => !png_encode_ok(bytes@, self.build_settings.optimize_png.spec_level()) && (
                e matches CompilerError::AssetFailedPngOptimize { path, .. } && path@
                    == self.src_path@),
            },
    {
        if self.is_png() && self.build_settings.optimize_png.is_enabled() {
            self.optimize_png(&bytes)
        } else {
            Ok(bytes)
        }
    }

    pub open spec fn spec_is_svg(&self) -> bool {
        spec_has_extension(self.src_path@, seq!["svg"])
    }

    pub fn is_svg(&self) -> (r: bool)
        ensures
            r == self.spec_is_svg(),
    {
        let exts: [&str; 1] = ["svg"];
        let r = has_extension(self.src_path.as_str(), &exts);
        proof {
            assert(exts@ =~= seq!["svg"]);
        }
        r
    }
}

} // verus!
