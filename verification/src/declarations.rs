//! The TypeScript declaration generator: it synthesizes the compiler
//! configuration, resolves the pinned compiler through the store, decides
//! the compiler invocation, and renames what the compiler emitted to the
//! ESM-only `.d.mts` convention. The subprocess itself and the file I/O
//! around it run outside; every decision is made here.

use vstd::prelude::*;
use vstd::string::StrSliceExecFns;
use vstd::string::StringExecFns;

use crate::manifest_settings::ManifestBuild;
use crate::paths::file_name_start;
use crate::paths::path_join;
use crate::paths::spec_join;
use crate::paths::spec_with_extension;
use crate::paths::with_extension;
use crate::text::last_index_of;
use crate::text::lemma_is_last_index;
use crate::text::lemma_last_index_of;
use crate::store::Store;
use crate::store::StoreItemTask;
use crate::store::TypeScriptItem;
use crate::store::Version;
use crate::store::spec_version_str;
use crate::target::EsTarget;
use crate::target::lemma_target_str_starts_es;
use crate::target::spec_target_str;
use crate::text::spec_ends_with;
use crate::text::str_ends_with;
use crate::tsconfig::CompilerOptions;
use crate::tsconfig::ModuleResolution;
use crate::tsconfig::TsConfig;
use crate::tsconfig::TsConfigExtends;
use crate::tsconfig::module_for;
use crate::tsconfig::spec_lib_kept;
use crate::tsconfig::spec_lib_rewrite;
use crate::tsconfig::lib_kept;
use crate::tsconfig::spec_module_for;
use crate::tsconfig::spec_options_or_default;

verus! {

/// The pinned TypeScript release fetched through the store.
pub fn ts_version() -> (r: Version)
    ensures
        r == (Version { major: 5, minor: 1, patch: 6 }),
{
    Version { major: 5, minor: 1, patch: 6 }
}

/// The synthesized config on disk, and whether it declares project
/// references (which switch the compiler into build mode).
pub struct TsConfigState {
    pub path: String,
    pub project_references: bool,
}

/// Everything one declaration-generation run is decided from.
pub struct Declarations {
    pub build_settings: ManifestBuild,
    pub package_root: String,
    pub out_dir: String,
    pub store: Store,
}

/// `../` in front of a path: the generated config lives one directory
/// deeper than a user-supplied one, so its relative paths re-root one
/// level up.
pub open spec fn spec_cd_parent(v: Seq<char>) -> Seq<char> {
    "../"@ + v
}

/// `cd_parent`, applied only to paths that are visibly relative.
pub open spec fn spec_cd_parent_checked(v: Seq<char>) -> Seq<char> {
    if v.len() > 0 && v[0] == '.' {
        spec_cd_parent(v)
    } else {
        v
    }
}

fn cd_parent(v: &str) -> (r: String)
    ensures
        r@ == spec_cd_parent(v@),
{
    "../".to_owned().concat(v)
}

fn cd_parent_checked(v: String) -> (r: String)
    ensures
        r@ == spec_cd_parent_checked(v@),
{
    if v.as_str().unicode_len() > 0 && v.as_str().get_char(0) == '.' {
        cd_parent(v.as_str())
    } else {
        v
    }
}

fn cd_parent_list(list: Vec<String>) -> (r: Vec<String>)
    ensures
        r@.len() == list@.len(),
        forall|i: int| 0 <= i < list@.len() ==> r@[i]@ == spec_cd_parent(list@[i]@),
{
    let mut out: Vec<String> = Vec::new();
    let mut i: usize = 0;
    while i < list.len()
        invariant
            i <= list@.len(),
            out@.len() == i,
            forall|j: int| 0 <= j < i ==> out@[j]@ == spec_cd_parent(list@[j]@),
        decreases list@.len() - i,
    {
        out.push(cd_parent(list[i].as_str()));
        i = i + 1;
    }
    out
}

/// A renamed declaration carries the `.d.mts` suffix.
proof fn lemma_rename_ends_dmts(p: Seq<char>, renamed: Seq<char>)
    requires
        crate::text::spec_ends_with(p, ".d.ts"@),
        renamed == spec_with_extension(p, "mts"@),
    ensures
        crate::text::spec_ends_with(renamed, ".d.mts"@),
{
    reveal_strlit(".d.ts");
    reveal_strlit(".d.mts");
    reveal_strlit("mts");
    let n = p.len() as int;
    assert(".d.ts"@.len() == 5);
    assert(p.subrange(n - 5, n) == ".d.ts"@);
    assert(p[n - 5] == '.' && p[n - 4] == 'd' && p[n - 3] == '.' && p[n - 2] == 't' && p[n - 1]
        == 's') by {
        assert(p.subrange(n - 5, n)[0] == p[n - 5]);
        assert(p.subrange(n - 5, n)[1] == p[n - 4]);
        assert(p.subrange(n - 5, n)[2] == p[n - 3]);
        assert(p.subrange(n - 5, n)[3] == p[n - 2]);
        assert(p.subrange(n - 5, n)[4] == p[n - 1]);
    }
    lemma_is_last_index(p, '.', n - 3);
    lemma_last_index_of(p, '/');
    let k = last_index_of(p, '/');
    if k >= n - 5 {
        assert(p[k] == '/');
        assert(false);
    }
    assert(file_name_start(p) < n - 3);
    assert(renamed == p.subrange(0, n - 3) + seq!['.'] + "mts"@);
    assert(renamed.len() == n + 1);
    assert(renamed.subrange(n + 1 - 6, n + 1) =~= ".d.mts"@);
}

/// The baseline `lib` of `dom` plus the target entry keeps only `dom`
/// under the target rewrite: the target entry names an ECMAScript level.
proof fn lemma_default_lib_rewrite(start: TsConfig, target: EsTarget)
    requires
        start.compiler_options matches Some(o0) && (o0.lib matches Some(l0) && l0@.len() == 2
            && l0@[0]@ == "dom"@ && l0@[1]@ == spec_target_str(target)),
    ensures
        ({
            let l0 = spec_options_or_default(start).lib.unwrap()@;
            spec_lib_rewrite(l0) == seq![l0[0]]
        }),
{
    reveal(Seq::filter);
    reveal_strlit("dom");
    lemma_target_str_starts_es(target);
    let l0 = spec_options_or_default(start).lib.unwrap()@;
    assert(l0[0]@[0] == 'd');
    assert(spec_lib_kept(l0[0]@));
    assert(!spec_lib_kept(l0[1]@));
    assert(l0.drop_last() =~= seq![l0[0]]);
    assert(seq![l0[0]].drop_last() =~= Seq::<String>::empty());
    assert(spec_lib_rewrite(Seq::<String>::empty()) =~= Seq::<String>::empty());
    assert(spec_lib_rewrite(seq![l0[0]]) =~= seq![l0[0]]);
    assert(spec_lib_rewrite(l0) =~= seq![l0[0]]);
}

impl Declarations {
    pub fn new(package_root: String, out_dir: String, build_settings: ManifestBuild, store: Store)
        -> (r: Declarations)
        ensures
            r.package_root == package_root,
            r.out_dir == out_dir,
            r.build_settings == build_settings,
            r.store == store,
    {
        Declarations { build_settings, package_root, out_dir, store }
    }

    /// The hardcoded baseline configuration used when the package
    /// supplies no custom base config.
    pub fn create_default_tsconfig(&self, target: &EsTarget) -> (r: TsConfig)
        ensures
            r.compiler_options matches Some(o) && {
                &&& o.allow_arbitrary_extensions == Some(true)
                &&& o.allow_importing_ts_extensions == Some(true)
                &&& o.allow_js == Some(true)
                &&& o.allow_synthetic_default_imports == Some(true)
                &&& o.base_url is None
                &&& o.composite is None
                &&& o.declaration is None
                &&& o.declaration_dir is None
                &&& o.declaration_map == Some(false)
                &&& o.emit_declaration_only is None
                &&& o.es_module_interop == Some(true)
                &&& o.experimental_decorators == Some(self.build_settings.decorators is Some)
                &&& o.force_consistent_casing_in_file_names == Some(true)
                &&& o.isolated_modules == Some(true)
                &&& o.lib matches Some(l) && l@.len() == 2 && l@[0]@ == "dom"@ && l@[1]@
                    == spec_target_str(*target)
                &&& o.module is None
                &&& o.module_resolution is None
                &&& o.no_emit is None
                &&& o.no_emit_on_error == Some(true)
                &&& o.out_dir is None
                &&& o.out_file is None
                &&& o.paths is None
                &&& o.pretty == Some(true)
                &&& o.remove_comments == Some(true)
                &&& o.resolve_json_module == Some(true)
                &&& o.resolve_package_json_exports == Some(false)
                &&& o.resolve_package_json_imports == Some(false)
                &&& o.root_dir is None
                &&& o.root_dirs is None
                &&& o.skip_lib_check == Some(true)
                &&& o.source_map == Some(false)
                &&& o.strict == Some(true)
                &&& o.target is None
            },
            r.compile_on_save is None,
            r.exclude is None,
            r.extends is None,
            r.files is None,
            r.covers is None,
            r.references is None,
            r.type_acquisition is None,
    {
        let mut lib: Vec<String> = Vec::new();
        lib.push("dom".to_owned());
        lib.push(target.as_str().to_owned());
        let mut options = CompilerOptions::default();
        options.allow_arbitrary_extensions = Some(true);
        options.allow_importing_ts_extensions = Some(true);
        options.allow_js = Some(true);
        options.allow_synthetic_default_imports = Some(true);
        options.declaration_map = Some(false);
        options.es_module_interop = Some(true);
        options.experimental_decorators = Some(self.build_settings.decorators.is_some());
        options.force_consistent_casing_in_file_names = Some(true);
        options.isolated_modules = Some(true);
        options.lib = Some(lib);
        options.no_emit_on_error = Some(true);
        options.pretty = Some(true);
        options.remove_comments = Some(true);
        options.resolve_json_module = Some(true);
        options.resolve_package_json_exports = Some(false);
        options.resolve_package_json_imports = Some(false);
        options.skip_lib_check = Some(true);
        options.source_map = Some(false);
        options.strict = Some(true);
        let mut tsconfig = TsConfig::default();
        tsconfig.compiler_options = Some(options);
        tsconfig
    }

    /// Overwrites the fields the generator requires, whatever the base
    /// config carried: declarations only, into `./<target>`, from
    /// `../src`, with `module` and `target` mapped from the ES target by
    /// the fixed table, and `lib` reduced to the one required target.
    pub fn inject_required_options(&self, target: &EsTarget, tsconfig: &mut TsConfig)
        ensures
            final(tsconfig).files is None,
            final(tsconfig).covers matches Some(inc) && inc@.len() == 1 && inc@[0]@
                == "../src/**/*"@,
            final(tsconfig).compile_on_save == old(tsconfig).compile_on_save,
            final(tsconfig).exclude == old(tsconfig).exclude,
            final(tsconfig).extends == old(tsconfig).extends,
            final(tsconfig).references == old(tsconfig).references,
            final(tsconfig).type_acquisition == old(tsconfig).type_acquisition,
            final(tsconfig).compiler_options matches Some(o) && {
                let b = spec_options_or_default(*old(tsconfig));
                &&& o.declaration == Some(true)
                &&& o.declaration_dir is None
                &&& o.emit_declaration_only == Some(true)
                &&& o.no_emit is None
                &&& o.module == Some(spec_module_for(*target))
                &&& o.module_resolution == Some(ModuleResolution::Nodenext)
                &&& o.out_file is None
                &&& o.out_dir matches Some(d) && d@ == "./"@ + spec_target_str(*target)
                &&& o.root_dir matches Some(rd) && rd@ == "../src"@
                &&& o.target == Some(*target)
                &&& match b.lib {
                    None => o.lib is None,
                    Some(l) => o.lib matches Some(nl) && nl@.len() >= 1 && nl@.drop_last()
                        == spec_lib_rewrite(l@) && nl@.last()@ == spec_target_str(*target),
                }
                &&& o.allow_arbitrary_extensions == b.allow_arbitrary_extensions
                &&& o.allow_importing_ts_extensions == b.allow_importing_ts_extensions
                &&& o.allow_js == b.allow_js
                &&& o.allow_synthetic_default_imports == b.allow_synthetic_default_imports
                &&& o.base_url == b.base_url
                &&& o.composite == b.composite
                &&& o.declaration_map == b.declaration_map
                &&& o.es_module_interop == b.es_module_interop
                &&& o.experimental_decorators == b.experimental_decorators
                &&& o.force_consistent_casing_in_file_names
                    == b.force_consistent_casing_in_file_names
                &&& o.isolated_modules == b.isolated_modules
                &&& o.no_emit_on_error == b.no_emit_on_error
                &&& o.paths == b.paths
                &&& o.pretty == b.pretty
                &&& o.remove_comments == b.remove_comments
                &&& o.resolve_json_module == b.resolve_json_module
                &&& o.resolve_package_json_exports == b.resolve_package_json_exports
                &&& o.resolve_package_json_imports == b.resolve_package_json_imports
                &&& o.root_dirs == b.root_dirs
                &&& o.skip_lib_check == b.skip_lib_check
                &&& o.source_map == b.source_map
                &&& o.strict == b.strict
            },
    {
        tsconfig.files = None;
        let mut covers: Vec<String> = Vec::new();
        covers.push("../src/**/*".to_owned());
        tsconfig.covers = Some(covers);

        let mut options = match tsconfig.compiler_options.take() {
            Some(o) => o,
            None => CompilerOptions::default(),
        };
        options.declaration = Some(true);
        options.declaration_dir = None;
        options.emit_declaration_only = Some(true);
        options.no_emit = None;
        options.module = Some(module_for(target));
        options.module_resolution = Some(ModuleResolution::Nodenext);
        options.out_file = None;
        options.out_dir = Some("./".to_owned().concat(target.as_str()));
        options.root_dir = Some("../src".to_owned());
        options.target = Some(*target);

        // Remove other targets and only use the required target.
        let lib = options.lib.take();
        options.lib = match lib {
            Some(l) => {
                let mut new_lib: Vec<String> = Vec::new();
                let mut i: usize = 0;
                while i < l.len()
                    invariant
                        i <= l@.len(),
                        new_lib@ == spec_lib_rewrite(l@.take(i as int)),
                    decreases l@.len() - i,
                {
                    proof {
                        assert(l@.take(i + 1).drop_last() =~= l@.take(i as int));
                        assert(l@.take(i + 1).last() == l@[i as int]);
                        reveal(Seq::filter);
                    }
                    if lib_kept(l[i].as_str()) {
                        new_lib.push(l[i].clone());
                        assert(new_lib@ == spec_lib_rewrite(l@.take(i + 1)));
                    } else {
                        assert(new_lib@ == spec_lib_rewrite(l@.take(i + 1)));
                    }
                    i = i + 1;
                }
                proof {
                    assert(l@.take(l@.len() as int) =~= l@);
                }
                new_lib.push(target.as_str().to_owned());
                proof {
                    assert(new_lib@.drop_last() =~= spec_lib_rewrite(l@));
                }
                Some(new_lib)
            },
            None => None,
        };
        tsconfig.compiler_options = Some(options);
    }

    /// Re-roots every relative path the base config carried one level
    /// up: `exclude`, `extends`, `references`, `baseUrl`, `paths` and
    /// `rootDirs`.
    pub fn remap_paths(&self, tsconfig: &mut TsConfig)
        ensures
            final(tsconfig).files == old(tsconfig).files,
            final(tsconfig).covers == old(tsconfig).covers,
            final(tsconfig).compile_on_save == old(tsconfig).compile_on_save,
            final(tsconfig).type_acquisition == old(tsconfig).type_acquisition,
            match old(tsconfig).exclude {
                None => final(tsconfig).exclude is None,
                Some(l) => final(tsconfig).exclude matches Some(nl) && nl@.len() == l@.len()
                    && forall|i: int|
                    0 <= i < l@.len() ==> nl@[i]@ == spec_cd_parent(#[trigger] l@[i]@),
            },
            match old(tsconfig).extends {
                None => final(tsconfig).extends is None,
                Some(TsConfigExtends::String(v)) => final(tsconfig).extends matches Some(
                    TsConfigExtends::String(nv),
                ) && nv@ == spec_cd_parent_checked(v@),
                Some(TsConfigExtends::Array(l)) => final(tsconfig).extends matches Some(
                    TsConfigExtends::Array(nl),
                ) && nl@.len() == l@.len() && forall|i: int|
                    0 <= i < l@.len() ==> nl@[i]@ == spec_cd_parent_checked(#[trigger] l@[i]@),
            },
            match old(tsconfig).references {
                None => final(tsconfig).references is None,
                Some(l) => final(tsconfig).references matches Some(nl) && nl@.len() == l@.len()
                    && forall|i: int|
                    0 <= i < l@.len() ==> (#[trigger] nl@[i]).prepend == l@[i].prepend && match l@[
                        i
                    ].path {
                        None => nl@[i].path is None,
                        Some(p) => nl@[i].path matches Some(np) && np@ == spec_cd_parent(p@),
                    },
            },
            final(tsconfig).compiler_options matches Some(o) && {
                let b = spec_options_or_default(*old(tsconfig));
                &&& match b.base_url {
                    None => o.base_url is None,
                    Some(u) => o.base_url matches Some(nu) && nu@ == spec_cd_parent(u@),
                }
                &&& match b.paths {
                    None => o.paths is None,
                    Some(l) => o.paths matches Some(nl) && nl@.len() == l@.len() && forall|i: int|
                        0 <= i < l@.len() ==> (#[trigger] nl@[i]).key == l@[i].key
                            && nl@[i].values@.len() == l@[i].values@.len() && forall|j: int|
                            0 <= j < l@[i].values@.len() ==> nl@[i].values@[j]@ == spec_cd_parent(
                            #[trigger] l@[i].values@[j]@,
                        ),
                }
                &&& match b.root_dirs {
                    None => o.root_dirs is None,
                    Some(l) => o.root_dirs matches Some(nl) && nl@.len() == l@.len() && forall|
                        i: int,
                    |
                        0 <= i < l@.len() ==> nl@[i]@ == spec_cd_parent(#[trigger] l@[i]@),
                }
                &&& o.allow_arbitrary_extensions == b.allow_arbitrary_extensions
                &&& o.allow_importing_ts_extensions == b.allow_importing_ts_extensions
                &&& o.allow_js == b.allow_js
                &&& o.allow_synthetic_default_imports == b.allow_synthetic_default_imports
                &&& o.composite == b.composite
                &&& o.declaration == b.declaration
                &&& o.declaration_dir == b.declaration_dir
                &&& o.declaration_map == b.declaration_map
                &&& o.emit_declaration_only == b.emit_declaration_only
                &&& o.es_module_interop == b.es_module_interop
                &&& o.experimental_decorators == b.experimental_decorators
                &&& o.force_consistent_casing_in_file_names
                    == b.force_consistent_casing_in_file_names
                &&& o.isolated_modules == b.isolated_modules
                &&& o.lib == b.lib
                &&& o.module == b.module
                &&& o.module_resolution == b.module_resolution
                &&& o.no_emit == b.no_emit
                &&& o.no_emit_on_error == b.no_emit_on_error
                &&& o.out_dir == b.out_dir
                &&& o.out_file == b.out_file
                &&& o.pretty == b.pretty
                &&& o.remove_comments == b.remove_comments
                &&& o.resolve_json_module == b.resolve_json_module
                &&& o.resolve_package_json_exports == b.resolve_package_json_exports
                &&& o.resolve_package_json_imports == b.resolve_package_json_imports
                &&& o.root_dir == b.root_dir
                &&& o.skip_lib_check == b.skip_lib_check
                &&& o.source_map == b.source_map
                &&& o.strict == b.strict
                &&& o.target == b.target
            },
    {
        let exclude = tsconfig.exclude.take();
        tsconfig.exclude = match exclude {
            Some(l) => Some(cd_parent_list(l)),
            None => None,
        };

        let extends = tsconfig.extends.take();
        tsconfig.extends = match extends {
            Some(TsConfigExtends::String(value)) => Some(
                TsConfigExtends::String(cd_parent_checked(value)),
            ),
            Some(TsConfigExtends::Array(value)) => {
                let mut out: Vec<String> = Vec::new();
                let mut i: usize = 0;
                while i < value.len()
                    invariant
                        i <= value@.len(),
                        out@.len() == i,
                        forall|j: int|
                            0 <= j < i ==> out@[j]@ == spec_cd_parent_checked(
                                #[trigger] value@[j]@,
                            ),
                    decreases value@.len() - i,
                {
                    out.push(cd_parent_checked(value[i].clone()));
                    i = i + 1;
                }
                Some(TsConfigExtends::Array(out))
            },
            None => None,
        };

        let references = tsconfig.references.take();
        tsconfig.references = match references {
            Some(l) => {
                let mut out: Vec<crate::tsconfig::Reference> = Vec::new();
                let mut i: usize = 0;
                while i < l.len()
                    invariant
                        i <= l@.len(),
                        out@.len() == i,
                        forall|j: int|
                            0 <= j < i ==> (#[trigger] out@[j]).prepend == l@[j].prepend && match l@[
                                j
                            ].path {
                                None => out@[j].path is None,
                                Some(p) => out@[j].path matches Some(np) && np@ == spec_cd_parent(
                                    p@,
                                ),
                            },
                    decreases l@.len() - i,
                {
                    let path = match &l[i].path {
                        Some(p) => Some(cd_parent(p.as_str())),
                        None => None,
                    };
                    out.push(crate::tsconfig::Reference { path, prepend: l[i].prepend });
                    i = i + 1;
                }
                Some(out)
            },
            None => None,
        };

        let mut options = match tsconfig.compiler_options.take() {
            Some(o) => o,
            None => CompilerOptions::default(),
        };

        let base_url = options.base_url.take();
        options.base_url = match base_url {
            Some(u) => Some(cd_parent(u.as_str())),
            None => None,
        };

        let paths = options.paths.take();
        options.paths = match paths {
            Some(l) => {
                let mut out: Vec<crate::tsconfig::PathsEntry> = Vec::new();
                let mut i: usize = 0;
                while i < l.len()
                    invariant
                        i <= l@.len(),
                        out@.len() == i,
                        forall|j: int|
                            0 <= j < i ==> (#[trigger] out@[j]).key == l@[j].key
                                && out@[j].values@.len() == l@[j].values@.len() && forall|k: int|
                                0 <= k < l@[j].values@.len() ==> out@[j].values@[k]@
                                    == spec_cd_parent(#[trigger] l@[j].values@[k]@),
                    decreases l@.len() - i,
                {
                    out.push(
                        crate::tsconfig::PathsEntry {
                            key: l[i].key.clone(),
                            values: cd_parent_list(l[i].values.clone()),
                        },
                    );
                    i = i + 1;
                }
                Some(out)
            },
            None => None,
        };

        let root_dirs = options.root_dirs.take();
        options.root_dirs = match root_dirs {
            Some(l) => Some(cd_parent_list(l)),
            None => None,
        };

        tsconfig.compiler_options = Some(options);
    }

    /// Where the synthesized config for one target is written: inside
    /// the package's output directory, named for the target.
    pub fn tsconfig_path(&self, target: &EsTarget) -> (r: String)
        ensures
            r@ == spec_join(
                spec_join(self.package_root@, ".espm"@),
                "tsconfig."@ + spec_target_str(*target) + ".json"@,
            ),
    {
        let name = "tsconfig.".to_owned().concat(target.as_str()).concat(".json");
        proof {
            assert(name@ =~= "tsconfig."@ + spec_target_str(*target) + ".json"@);
        }
        path_join(path_join(self.package_root.as_str(), ".espm").as_str(), name.as_str())
    }

    /// Synthesizes the config one target compiles with: the supplied
    /// base config — or the hardcoded baseline where there is none —
    /// with the required fields overwritten and its relative paths
    /// re-rooted. Answers the config, where it is written, and whether
    /// it declares project references or a composite build.
    pub fn create_tsconfig(&self, target: &EsTarget, base: Option<TsConfig>) -> (r: (
        TsConfig,
        TsConfigState,
    ))
        ensures
            r.1.path@ == spec_join(
                spec_join(self.package_root@, ".espm"@),
                "tsconfig."@ + spec_target_str(*target) + ".json"@,
            ),
            r.1.project_references == ((r.0.references matches Some(refs) && refs@.len() > 0) || (
            r.0.compiler_options matches Some(o) && o.composite == Some(true))),
            r.0.files is None,
            r.0.covers matches Some(inc) && inc@.len() == 1 && inc@[0]@ == "../src/**/*"@,
            r.0.compiler_options matches Some(o) && {
                &&& o.declaration == Some(true)
                &&& o.emit_declaration_only == Some(true)
                &&& o.no_emit is None
                &&& o.module == Some(spec_module_for(*target))
                &&& o.module_resolution == Some(ModuleResolution::Nodenext)
                &&& o.out_dir matches Some(d) && d@ == "./"@ + spec_target_str(*target)
                &&& o.root_dir matches Some(rd) && rd@ == "../src"@
                &&& o.target == Some(*target)
            },
            match base {
                Some(b0) => ({
                    let b = spec_options_or_default(b0);
                    &&& r.0.compile_on_save == b0.compile_on_save
                    &&& r.0.type_acquisition == b0.type_acquisition
                    &&& match b0.exclude {
                        None => r.0.exclude is None,
                        Some(l) => r.0.exclude matches Some(nl) && nl@.len() == l@.len() && forall|
                            i: int,
                        |
                            0 <= i < l@.len() ==> nl@[i]@ == spec_cd_parent(#[trigger] l@[i]@),
                    }
                    &&& match b0.extends {
                        None => r.0.extends is None,
                        Some(TsConfigExtends::String(v)) => r.0.extends matches Some(
                            TsConfigExtends::String(nv),
                        ) && nv@ == spec_cd_parent_checked(v@),
                        Some(TsConfigExtends::Array(l)) => r.0.extends matches Some(
                            TsConfigExtends::Array(nl),
                        ) && nl@.len() == l@.len() && forall|i: int|
                            0 <= i < l@.len() ==> nl@[i]@ == spec_cd_parent_checked(
                                #[trigger] l@[i]@,
                            ),
                    }
                    &&& match b0.references {
                        None => r.0.references is None,
                        Some(l) => r.0.references matches Some(nl) && nl@.len() == l@.len()
                            && forall|i: int|
                            0 <= i < l@.len() ==> (#[trigger] nl@[i]).prepend == l@[i].prepend
                                && match l@[i].path {
                                None => nl@[i].path is None,
                                Some(p) => nl@[i].path matches Some(np) && np@ == spec_cd_parent(
                                    p@,
                                ),
                            },
                    }
                    &&& r.0.compiler_options matches Some(o) && {
                        &&& o.allow_js == b.allow_js
                        &&& o.strict == b.strict
                        &&& o.composite == b.composite
                        &&& o.experimental_decorators == b.experimental_decorators
                        &&& o.es_module_interop == b.es_module_interop
                        &&& o.isolated_modules == b.isolated_modules
                        &&& o.skip_lib_check == b.skip_lib_check
                        &&& o.source_map == b.source_map
                        &&& o.no_emit_on_error == b.no_emit_on_error
                        &&& match b.lib {
                            None => o.lib is None,
                            Some(l) => o.lib matches Some(nl) && nl@.len() >= 1 && nl@.drop_last()
                                == spec_lib_rewrite(l@) && nl@.last()@ == spec_target_str(*target),
                        }
                        &&& match b.base_url {
                            None => o.base_url is None,
                            Some(u) => o.base_url matches Some(nu) && nu@ == spec_cd_parent(u@),
                        }
                        &&& match b.root_dirs {
                            None => o.root_dirs is None,
                            Some(l) => o.root_dirs matches Some(nl) && nl@.len() == l@.len()
                                && forall|i: int|
                                0 <= i < l@.len() ==> nl@[i]@ == spec_cd_parent(#[trigger] l@[i]@),
                        }
                        &&& match b.paths {
                            None => o.paths is None,
                            Some(l) => o.paths matches Some(nl) && nl@.len() == l@.len() && forall|
                                i: int,
                            |
                                0 <= i < l@.len() ==> (#[trigger] nl@[i]).key == l@[i].key
                                    && nl@[i].values@.len() == l@[i].values@.len() && forall|j: int|
                                    0 <= j < l@[i].values@.len() ==> nl@[i].values@[j]@
                                        == spec_cd_parent(#[trigger] l@[i].values@[j]@),
                        }
                    }
                }),
                None => ({
                    &&& r.0.compile_on_save is None
                    &&& r.0.type_acquisition is None
                    &&& r.0.exclude is None
                    &&& r.0.extends is None
                    &&& r.0.references is None
                    &&& r.0.compiler_options matches Some(o) && {
                        &&& o.allow_js == Some(true)
                        &&& o.strict == Some(true)
                        &&& o.composite is None
                        &&& o.experimental_decorators == Some(
                            self.build_settings.decorators is Some,
                        )
                        &&& o.lib matches Some(l) && l@.len() == 2 && l@[0]@ == "dom"@ && l@[1]@
                            == spec_target_str(*target)
                        &&& o.base_url is None
                        &&& o.root_dirs is None
                        &&& o.paths is None
                    }
                }),
            },
    {
        let mut tsconfig = match base {
            Some(b) => b,
            None => self.create_default_tsconfig(target),
        };
        let ghost start = tsconfig;
        self.inject_required_options(target, &mut tsconfig);
        self.remap_paths(&mut tsconfig);
        proof {
            if base is None {
                lemma_default_lib_rewrite(start, *target);
                let l0 = spec_options_or_default(start).lib.unwrap()@;
                assert(spec_lib_rewrite(l0) == seq![l0[0]]);
                let nl = tsconfig.compiler_options.unwrap().lib.unwrap()@;
                assert(nl.drop_last() == spec_lib_rewrite(l0));
                assert(nl.len() == 2);
                assert(nl.drop_last()[0] == nl[0]);
                assert(nl[0] == l0[0]);
            }
        }
        let has_references = match &tsconfig.references {
            Some(refs) => refs.len() > 0,
            None => false,
        };
        let is_composite = match &tsconfig.compiler_options {
            Some(o) => match o.composite {
                Some(v) => v,
                None => false,
            },
            None => false,
        };
        let state = TsConfigState {
            path: self.tsconfig_path(target),
            project_references: has_references || is_composite,
        };
        (tsconfig, state)
    }

    /// The registry URL the pinned compiler tarball downloads from.
    pub fn typescript_tarball_url(&self, version: &Version) -> (r: String)
        ensures
            r@ == "https://registry.npmjs.org/typescript/-/typescript-"@ + spec_version_str(
                *version,
            ) + ".tgz"@,
    {
        "https://registry.npmjs.org/typescript/-/typescript-".to_owned().concat(
            version.to_text().as_str(),
        ).concat(".tgz")
    }

    /// The store run that fetches the pinned compiler, and where its
    /// entry script stands once unpacked.
    pub fn load_typescript_task(&self) -> (r: (StoreItemTask, String))
        ensures
            ({
                let version = Version { major: 5, minor: 1, patch: 6 };
                let item = TypeScriptItem { version: &version };
                &&& r.0.url@ == "https://registry.npmjs.org/typescript/-/typescript-"@
                    + spec_version_str(version) + ".tgz"@
                &&& r.0.unpack_dir@ == spec_join(
                    self.store.packages_dir@,
                    "__tool__/typescript/v"@ + spec_version_str(version),
                )
                &&& r.0.cache_file@ == spec_join(
                    self.store.cache_dir@,
                    "typescript_v"@ + spec_version_str(version) + "_npm"@ + seq!['.'] + "tar.gz"@,
                )
                &&& r.0.archive_prefix matches Some(p) && p@ == "package"@
                &&& r.1@ == spec_join(r.0.unpack_dir@, "lib/tsc.js"@)
            }),
    {
        let version = ts_version();
        let url = self.typescript_tarball_url(&version);
        let item = TypeScriptItem { version: &version };
        let task = self.store.store_item_task(url.as_str(), &item);
        let bin = path_join(task.unpack_dir.as_str(), "lib/tsc.js");
        (task, bin)
    }

    /// The arguments the compiler subprocess runs with, relative to the
    /// package root: build mode when the config declares project
    /// references, plain project mode otherwise.
    pub fn tsc_args(&self, state: &TsConfigState, rel_config: &str) -> (r: Vec<String>)
        ensures
            state.project_references ==> r@.len() == 3 && r@[0]@ == "--build"@ && r@[1]@
                == "--force"@ && r@[2]@ == rel_config@,
            !state.project_references ==> r@.len() == 2 && r@[0]@ == "--project"@ && r@[1]@
                == rel_config@,
    {
        let mut args: Vec<String> = Vec::new();
        if state.project_references {
            args.push("--build".to_owned());
            args.push("--force".to_owned());
        } else {
            args.push("--project".to_owned());
        }
        args.push(rel_config.to_owned());
        args
    }

    /// The name an emitted declaration is renamed to: `*.d.ts` becomes
    /// `*.d.mts`, so declarations match the `.mjs` module convention.
    /// Anything else is left alone.
    pub fn declaration_rename(&self, path: &str) -> (r: Option<String>)
        ensures
            match r {
                Some(renamed) => spec_ends_with(path@, ".d.ts"@) && renamed@
                    == spec_with_extension(path@, "mts"@) && spec_ends_with(renamed@, ".d.mts"@),
                None => !spec_ends_with(path@, ".d.ts"@),
            },
    {
        if str_ends_with(path, ".d.ts") {
            let renamed = with_extension(path, "mts");
            proof {
                lemma_rename_ends_dmts(path@, renamed@);
            }
            Some(renamed)
        } else {
            None
        }
    }
}

} // verus!
