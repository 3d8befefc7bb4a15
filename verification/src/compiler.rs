//! The orchestrator's plan for one package build: where output goes,
//! which assets are copied, which modules are transformed, and whether
//! declarations are generated at all. The surrounding process deletes any
//! pre-existing output directory first (every build is a full rebuild)
//! and then runs the three stages concurrently; which work each stage
//! does is decided entirely here.

use vstd::prelude::*;
use vstd::string::StringExecFns;

use crate::asset::Asset;
use crate::errors::CompilerError;
use crate::manifest_settings::same_settings;
use crate::module::Module;
use crate::package::Package;
use crate::paths::path_join;
use crate::paths::spec_join;
use crate::paths::spec_with_extension;
use crate::paths::with_extension;
use crate::source_files::SourceFiles;
use crate::target::EsTarget;
use crate::target::spec_target_str;

verus! {

/// The output directory every build writes under, inside the package
/// root.
pub fn out_dir_name() -> (r: &'static str)
    ensures
        r@ == ".espm"@,
{
    ".espm"
}

/// The output directory of one `(package, target)` build.
pub fn target_out_dir(package: &Package, target: &EsTarget) -> (r: String)
    ensures
        r@ == spec_join(spec_join(package.root@, ".espm"@), spec_target_str(*target)),
{
    path_join(path_join(package.root.as_str(), out_dir_name()).as_str(), target.as_str())
}

/// One asset job per classified asset: source path mirrored under the
/// output directory, settings shared.
pub fn create_assets(package: &Package, sources: &SourceFiles, out_dir: &str) -> (r: Vec<Asset>)
    ensures
        r@.len() == sources.assets@.len(),
        forall|i: int|
            0 <= i < r@.len() ==> {
                &&& (#[trigger] r@[i]).src_path@ == spec_join(
                    package.src_dir@,
                    sources.assets@[i]@,
                )
                &&& r@[i].out_path@ == spec_join(out_dir@, sources.assets@[i]@)
                &&& same_settings((#[trigger] r@[i]).build_settings, package.build)
            },
{
    let mut assets: Vec<Asset> = Vec::new();
    let mut i: usize = 0;
    while i < sources.assets.len()
        invariant
            i <= sources.assets@.len(),
            assets@.len() == i,
            forall|j: int|
                0 <= j < i ==> {
                    &&& (#[trigger] assets@[j]).src_path@ == spec_join(
                        package.src_dir@,
                        sources.assets@[j]@,
                    )
                    &&& assets@[j].out_path@ == spec_join(out_dir@, sources.assets@[j]@)
                    &&& same_settings((#[trigger] assets@[j]).build_settings, package.build)
                },
        decreases sources.assets@.len() - i,
    {
        assets.push(
            Asset::new(
                path_join(package.src_dir.as_str(), sources.assets[i].as_str()),
                path_join(out_dir, sources.assets[i].as_str()),
                package.build.duplicate(),
            ),
        );
        i = i + 1;
    }
    assets
}

/// One module job per classified module: source path mirrored under the
/// output directory, always with a `.mjs` extension, since output is
/// ESM only.
pub fn create_modules(package: &Package, sources: &SourceFiles, out_dir: &str) -> (r: Vec<Module>)
    ensures
        r@.len() == sources.modules@.len(),
        forall|i: int|
            0 <= i < r@.len() ==> {
                &&& (#[trigger] r@[i]).src_path@ == spec_join(
                    package.src_dir@,
                    sources.modules@[i]@,
                )
                &&& r@[i].out_path@ == spec_with_extension(
                    spec_join(out_dir@, sources.modules@[i]@),
                    "mjs"@,
                )
                &&& same_settings((#[trigger] r@[i]).build_settings, package.build)
            },
{
    let mut modules: Vec<Module> = Vec::new();
    let mut i: usize = 0;
    while i < sources.modules.len()
        invariant
            i <= sources.modules@.len(),
            modules@.len() == i,
            forall|j: int|
                0 <= j < i ==> {
                    &&& (#[trigger] modules@[j]).src_path@ == spec_join(
                        package.src_dir@,
                        sources.modules@[j]@,
                    )
                    &&& modules@[j].out_path@ == spec_with_extension(
                        spec_join(out_dir@, sources.modules@[j]@),
                        "mjs"@,
                    )
                    &&& same_settings((#[trigger] modules@[j]).build_settings, package.build)
                },
        decreases sources.modules@.len() - i,
    {
        let out_file = with_extension(
            path_join(out_dir, sources.modules[i].as_str()).as_str(),
            "mjs",
        );
        modules.push(
            Module::new(
                path_join(package.src_dir.as_str(), sources.modules[i].as_str()),
                out_file,
                package.build.duplicate(),
            ),
        );
        i = i + 1;
    }
    modules
}

/// The plan of one package build. The output directory is a function of
/// the package, the classification and the target alone: nothing of an
/// earlier build carries over.
pub struct CompilePlan {
    pub out_dir: String,
    pub assets: Vec<Asset>,
    pub modules: Vec<Module>,
    /// The declaration stage runs at all: exactly when classification
    /// saw TypeScript sources. A package without them triggers no
    /// runtime detection and no tool fetch.
    pub declarations: bool,
}

/// Plans one package build for one target.
pub fn plan_compile(package: &Package, sources: &SourceFiles, target: &EsTarget) -> (r: CompilePlan)
    ensures
        r.out_dir@ == spec_join(spec_join(package.root@, ".espm"@), spec_target_str(*target)),
        r.declarations == sources.typescript,
        r.assets@.len() == sources.assets@.len(),
        forall|i: int|
            0 <= i < r.assets@.len() ==> {
                &&& (#[trigger] r.assets@[i]).src_path@ == spec_join(
                    package.src_dir@,
                    sources.assets@[i]@,
                )
                &&& r.assets@[i].out_path@ == spec_join(r.out_dir@, sources.assets@[i]@)
                &&& same_settings((#[trigger] r.assets@[i]).build_settings, package.build)
            },
        r.modules@.len() == sources.modules@.len(),
        forall|i: int|
            0 <= i < r.modules@.len() ==> {
                &&& (#[trigger] r.modules@[i]).src_path@ == spec_join(
                    package.src_dir@,
                    sources.modules@[i]@,
                )
                &&& r.modules@[i].out_path@ == spec_with_extension(
                    spec_join(r.out_dir@, sources.modules@[i]@),
                    "mjs"@,
                )
                &&& same_settings((#[trigger] r.modules@[i]).build_settings, package.build)
            },
{
    let out_dir = target_out_dir(package, target);
    let assets = create_assets(package, sources, out_dir.as_str());
    let modules = create_modules(package, sources, out_dir.as_str());
    CompilePlan { out_dir, assets, modules, declarations: sources.typescript }
}

/// Index of the first `true`, or -1 when there is none.
pub open spec fn first_true(s: Seq<bool>) -> int
    decreases s.len(),
{
    if s.len() == 0 {
        -1
    } else if s[0] {
        0
    } else if first_true(s.drop_first()) < 0 {
        -1
    } else {
        1 + first_true(s.drop_first())
    }
}

pub proof fn lemma_first_true(s: Seq<bool>)
    ensures
        -1 <= first_true(s) < s.len(),
        first_true(s) >= 0 ==> s[first_true(s)] && forall|j: int| 0 <= j < first_true(s) ==> !s[j],
        first_true(s) == -1 ==> forall|j: int| 0 <= j < s.len() ==> !s[j],
    decreases s.len(),
{
    if s.len() > 0 && !s[0] {
        lemma_first_true(s.drop_first());
        assert(forall|j: int| 0 < j < s.len() ==> s[j] == s.drop_first()[j - 1]);
    }
}

/// The runtimes looked for, in order: the override alone when one is
/// set, else the two well-known ones.
pub fn runtime_candidates(env_override: Option<String>) -> (r: Vec<String>)
    ensures
        match env_override {
            Some(bin) => r@.len() == 1 && r@[0] == bin,
            None => r@.len() == 2 && r@[0]@ == "node"@ && r@[1]@ == "bun"@,
        },
{
    let mut lookup: Vec<String> = Vec::new();
    match env_override {
        Some(bin) => {
            lookup.push(bin);
        },
        None => {
            lookup.push("node".to_owned());
            lookup.push("bun".to_owned());
        },
    }
    lookup
}

/// The first candidate runtime that is available on this machine, or
/// `NoRuntime` when none is.
pub fn detect_javascript_runtime(candidates: &Vec<String>, available: &Vec<bool>) -> (r: Result<
    String,
    CompilerError,
>)
    requires
        candidates@.len() == available@.len(),
    ensures
        match r {
            Ok(bin) => first_true(available@) >= 0 && bin == candidates@[first_true(available@)],
            Err(e) => first_true(available@) == -1 && e is NoRuntime,
        },
{
    proof {
        lemma_first_true(available@);
    }
    let mut i: usize = 0;
    while i < candidates.len()
        invariant
            candidates@.len() == available@.len(),
            i <= candidates@.len(),
            forall|j: int| 0 <= j < i ==> !available@[j],
        decreases candidates@.len() - i,
    {
        if available[i] {
            proof {
                lemma_first_true(available@);
            }
            return Ok(candidates[i].clone());
        }
        i = i + 1;
    }
    Err(CompilerError::NoRuntime)
}

} // verus!
