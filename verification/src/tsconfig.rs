//! The TypeScript configuration model the declaration generator writes,
//! and the two transforms it applies to a base config: overwriting the
//! required fields, and re-rooting relative paths one level up (the
//! generated config physically lives one directory deeper than a
//! user-supplied one).

use vstd::prelude::*;
use vstd::string::StrSliceExecFns;

use crate::target::EsTarget;
use crate::text::lower_char;
use crate::text::char_lower;

verus! {

/// The `module` values the generator emits.
#[derive(Clone, Copy, Debug, PartialEq, Eq, Structural)]
pub enum TsModule {
    Es2015,
    Es2020,
    Es2022,
}

/// The `moduleResolution` value the generator emits.
#[derive(Clone, Copy, Debug, PartialEq, Eq, Structural)]
pub enum ModuleResolution {
    Nodenext,
}

/// One `paths` mapping: a specifier pattern and the locations it
/// resolves to.
#[derive(Clone, Debug, PartialEq, Eq)]
pub struct PathsEntry {
    pub key: String,
    pub values: Vec<String>,
}

/// The compiler options the generator reads or writes. A base config may
/// carry any of them; absent fields stay absent.
#[derive(Clone, Debug, PartialEq, Eq)]
pub struct CompilerOptions {
    pub allow_arbitrary_extensions: Option<bool>,
    pub allow_importing_ts_extensions: Option<bool>,
    pub allow_js: Option<bool>,
    pub allow_synthetic_default_imports: Option<bool>,
    pub base_url: Option<String>,
    pub composite: Option<bool>,
    pub declaration: Option<bool>,
    pub declaration_dir: Option<String>,
    pub declaration_map: Option<bool>,
    pub emit_declaration_only: Option<bool>,
    pub es_module_interop: Option<bool>,
    pub experimental_decorators: Option<bool>,
    pub force_consistent_casing_in_file_names: Option<bool>,
    pub isolated_modules: Option<bool>,
    pub lib: Option<Vec<String>>,
    pub module: Option<TsModule>,
    pub module_resolution: Option<ModuleResolution>,
    pub no_emit: Option<bool>,
    pub no_emit_on_error: Option<bool>,
    pub out_dir: Option<String>,
    pub out_file: Option<String>,
    pub paths: Option<Vec<PathsEntry>>,
    pub pretty: Option<bool>,
    pub remove_comments: Option<bool>,
    pub resolve_json_module: Option<bool>,
    pub resolve_package_json_exports: Option<bool>,
    pub resolve_package_json_imports: Option<bool>,
    pub root_dir: Option<String>,
    pub root_dirs: Option<Vec<String>>,
    pub skip_lib_check: Option<bool>,
    pub source_map: Option<bool>,
    pub strict: Option<bool>,
    pub target: Option<EsTarget>,
}

impl Default for CompilerOptions {
    /// Every option absent.
    fn default() -> (r: Self)
        ensures
            r == spec_default_options(),
    {
        CompilerOptions {
            allow_arbitrary_extensions: None,
            allow_importing_ts_extensions: None,
            allow_js: None,
            allow_synthetic_default_imports: None,
            base_url: None,
            composite: None,
            declaration: None,
            declaration_dir: None,
            declaration_map: None,
            emit_declaration_only: None,
            es_module_interop: None,
            experimental_decorators: None,
            force_consistent_casing_in_file_names: None,
            isolated_modules: None,
            lib: None,
            module: None,
            module_resolution: None,
            no_emit: None,
            no_emit_on_error: None,
            out_dir: None,
            out_file: None,
            paths: None,
            pretty: None,
            remove_comments: None,
            resolve_json_module: None,
            resolve_package_json_exports: None,
            resolve_package_json_imports: None,
            root_dir: None,
            root_dirs: None,
            skip_lib_check: None,
            source_map: None,
            strict: None,
            target: None,
        }
    }
}

/// Every option absent.
pub open spec fn spec_default_options() -> CompilerOptions {
    CompilerOptions {
        allow_arbitrary_extensions: None,
        allow_importing_ts_extensions: None,
        allow_js: None,
        allow_synthetic_default_imports: None,
        base_url: None,
        composite: None,
        declaration: None,
        declaration_dir: None,
        declaration_map: None,
        emit_declaration_only: None,
        es_module_interop: None,
        experimental_decorators: None,
        force_consistent_casing_in_file_names: None,
        isolated_modules: None,
        lib: None,
        module: None,
        module_resolution: None,
        no_emit: None,
        no_emit_on_error: None,
        out_dir: None,
        out_file: None,
        paths: None,
        pretty: None,
        remove_comments: None,
        resolve_json_module: None,
        resolve_package_json_exports: None,
        resolve_package_json_imports: None,
        root_dir: None,
        root_dirs: None,
        skip_lib_check: None,
        source_map: None,
        strict: None,
        target: None,
    }
}

/// A config's `extends`: one base config, or several.
#[derive(Clone, Debug, PartialEq, Eq)]
pub enum TsConfigExtends {
    String(String),
    Array(Vec<String>),
}

/// One project reference.
#[derive(Clone, Debug, PartialEq, Eq)]
pub struct Reference {
    pub path: Option<String>,
    pub prepend: Option<bool>,
}

/// The `typeAcquisition` table, carried through untouched.
#[derive(Clone, Debug, PartialEq, Eq)]
pub struct TypeAcquisition {
    pub enable: bool,
    pub covers: Option<Vec<String>>,
    pub exclude: Option<Vec<String>>,
    pub disable_filename_based_type_acquisition: Option<bool>,
}

/// The `watchOptions` table, carried through untouched.
#[derive(Clone, Debug, PartialEq, Eq)]
pub struct WatchOptions {
    pub exclude_directories: Option<Vec<String>>,
    pub exclude_files: Option<Vec<String>>,
    pub fallback_polling: Option<String>,
    pub synchronous_watch_directory: Option<bool>,
    pub watch_directory: Option<String>,
    pub watch_file: Option<String>,
}

/// A TypeScript configuration file.
#[derive(Clone, Debug, PartialEq, Eq)]
pub struct TsConfig {
    pub compile_on_save: Option<bool>,
    pub compiler_options: Option<CompilerOptions>,
    pub exclude: Option<Vec<String>>,
    pub extends: Option<TsConfigExtends>,
    pub files: Option<Vec<String>>,
    pub covers: Option<Vec<String>>,
    pub references: Option<Vec<Reference>>,
    pub type_acquisition: Option<TypeAcquisition>,
}

impl Default for TsConfig {
    /// Every table absent.
    fn default() -> (r: Self)
        ensures
            r == spec_default_tsconfig(),
    {
        TsConfig {
            compile_on_save: None,
            compiler_options: None,
            exclude: None,
            extends: None,
            files: None,
            covers: None,
            references: None,
            type_acquisition: None,
        }
    }
}

/// Every table absent.
pub open spec fn spec_default_tsconfig() -> TsConfig {
    TsConfig {
        compile_on_save: None,
        compiler_options: None,
        exclude: None,
        extends: None,
        files: None,
        covers: None,
        references: None,
        type_acquisition: None,
    }
}

/// The config's options, or the all-absent options where it has none.
pub open spec fn spec_options_or_default(c: TsConfig) -> CompilerOptions {
    match c.compiler_options {
        Some(o) => o,
        None => spec_default_options(),
    }
}

/// The `module` value a target maps to, by the fixed table.
pub open spec fn spec_module_for(target: EsTarget) -> TsModule {
    match target {
        EsTarget::Es2020 => TsModule::Es2020,
        EsTarget::Es2021 => TsModule::Es2020,
        EsTarget::Es2022 => TsModule::Es2022,
        _ => TsModule::Es2015,
    }
}

/// The `module` value a target maps to.
pub fn module_for(target: &EsTarget) -> (r: TsModule)
    ensures
        r == spec_module_for(*target),
{
    match target {
        EsTarget::Es2020 => TsModule::Es2020,
        EsTarget::Es2021 => TsModule::Es2020,
        EsTarget::Es2022 => TsModule::Es2022,
        _ => TsModule::Es2015,
    }
}

/// A `lib` entry survives the target rewrite unless it names some
/// ECMAScript level (it starts with `es`, ignoring ASCII case).
pub open spec fn spec_lib_kept(l: Seq<char>) -> bool {
    !(l.len() >= 2 && lower_char(l[0]) == 'e' && lower_char(l[1]) == 's')
}

/// The `lib` entries that survive the target rewrite, in order.
pub open spec fn spec_lib_rewrite(l: Seq<String>) -> Seq<String> {
    l.filter(|e: String| spec_lib_kept(e@))
}

/// Whether a `lib` entry survives the target rewrite.
pub fn lib_kept(l: &str) -> (r: bool)
    ensures
        r == spec_lib_kept(l@),
{
    if l.unicode_len() >= 2 {
        !(char_lower(l.get_char(0)) == 'e' && char_lower(l.get_char(1)) == 's')
    } else {
        true
    }
}

} // verus!
