//! One JS/TS module to transform, and the exact parse/emit options the
//! transform engine is handed for it.

use vstd::prelude::*;

use crate::manifest_settings::BuildDecorators;
use crate::manifest_settings::ManifestBuild;
use crate::paths::has_extension;
use crate::paths::spec_file_name;
use crate::paths::spec_has_extension;
use crate::paths::file_name;
use crate::target::EsTarget;

verus! {

/// The options one module is transformed with. Every field is decided
/// here; the engine that consumes them adds nothing of its own.
pub struct TransformOptions {
    /// TypeScript (with TSX) syntax; otherwise ECMAScript (with JSX).
    pub syntax_typescript: bool,
    /// TypeScript constructs that read ambiguously against JSX are
    /// rejected rather than guessed at.
    pub disallow_ambiguous_jsx_like: bool,
    /// The parser accepts decorator syntax.
    pub decorators: bool,
    /// Decorator metadata is emitted.
    pub decorator_metadata: bool,
    /// The 2021-12 decorator proposal version is pinned.
    pub decorator_version_2021_12: bool,
    /// The legacy decorator transform runs.
    pub legacy_decorator: bool,
    /// Class fields lower through `define` semantics.
    pub use_define_for_class_fields: bool,
    pub keep_class_names: bool,
    pub preserve_all_comments: bool,
    pub external_helpers: bool,
    pub loose: bool,
    pub minify: bool,
    /// The ECMAScript version lowered to.
    pub target: EsTarget,
    /// Output is always an ECMAScript module; there is no dual-format
    /// emission.
    pub module_es6: bool,
    pub is_module: bool,
    pub swcrc: bool,
    /// The file name the engine reports errors under.
    pub filename: String,
    pub output_path: String,
}

/// One module of a package: where it is read from, where its transformed
/// form is written, and the build settings that apply.
pub struct Module {
    pub build_settings: ManifestBuild,
    pub out_path: String,
    pub src_path: String,
}

impl Module {
    pub fn new(src_path: String, out_path: String, build_settings: ManifestBuild) -> (r: Module)
        ensures
            r.src_path == src_path,
            r.out_path == out_path,
            r.build_settings == build_settings,
    {
        Module { build_settings, out_path, src_path }
    }

    /// The source is TypeScript, by its extension.
    pub open spec fn spec_is_typescript(&self) -> bool {
        spec_has_extension(self.src_path@, seq!["ts", "tsx", "mts"])
    }

    pub fn is_typescript(&self) -> (r: bool)
        ensures
            r == self.spec_is_typescript(),
    {
        let exts: [&str; 3] = ["ts", "tsx", "mts"];
        let r = has_extension(self.src_path.as_str(), &exts);
        proof {
            assert(exts@ =~= seq!["ts", "tsx", "mts"]);
        }
        r
    }

    /// Legacy decorators apply when the package asks for them, and for
    /// every TypeScript module that uses decorators at all.
    pub open spec fn spec_is_legacy_decorators(&self) -> bool {
        self.build_settings.decorators matches Some(BuildDecorators::Legacy)
            || (self.build_settings.decorators is Some && self.spec_is_typescript())
    }

    pub fn is_legacy_decorators(&self) -> (r: bool)
        ensures
            r == self.spec_is_legacy_decorators(),
    {
        let legacy = match self.build_settings.decorators {
            Some(BuildDecorators::Legacy) => true,
            None => false,
        };
        legacy || (self.build_settings.decorators.is_some() && self.is_typescript())
    }

    /// Every option the transform engine is handed for this module.
    pub fn create_transform_options(&self, target: &EsTarget) -> (r: TransformOptions)
        ensures
            r.syntax_typescript == self.spec_is_typescript(),
            r.disallow_ambiguous_jsx_like == self.spec_is_typescript(),
            r.decorators == (self.build_settings.decorators is Some),
            r.decorator_metadata == (self.build_settings.decorators is Some),
            r.decorator_version_2021_12 == (self.build_settings.decorators is Some),
            r.legacy_decorator == self.spec_is_legacy_decorators(),
            r.use_define_for_class_fields,
            r.keep_class_names,
            r.preserve_all_comments,
            !r.external_helpers,
            !r.loose,
            !r.minify,
            r.target == *target,
            r.module_es6,
            r.is_module,
            !r.swcrc,
            r.filename@ == spec_file_name(self.src_path@),
            r.output_path == self.out_path,
    {
        let decorators = self.build_settings.decorators.is_some();
        TransformOptions {
            syntax_typescript: self.is_typescript(),
            disallow_ambiguous_jsx_like: self.is_typescript(),
            decorators,
            decorator_metadata: decorators,
            decorator_version_2021_12: self.is_legacy_decorators() || decorators,
            legacy_decorator: self.is_legacy_decorators(),
            use_define_for_class_fields: true,
            keep_class_names: true,
            preserve_all_comments: true,
            external_helpers: false,
            loose: false,
            minify: false,
            target: *target,
            module_es6: true,
            is_module: true,
            swcrc: false,
            filename: file_name(self.src_path.as_str()),
            output_path: self.out_path.clone(),
        }
    }
}

} // verus!
