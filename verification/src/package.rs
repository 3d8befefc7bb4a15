//! One resolved package: its name, its parsed build settings, and its
//! directory layout. The caller owns it; it is immutable for the
//! duration of a build.

use vstd::prelude::*;
use vstd::string::StringExecFns;

use crate::errors::PackageError;
use crate::globs::glob_pattern_ok;
use crate::globs::globs_all_ok;
use crate::globs::globset_matches;
use crate::globs::spec_globset_matches;
use crate::globs::spec_pattern_body;
use crate::globs::validate_globs;
use crate::manifest_settings::ManifestBuild;
use crate::package_name::PackageName;
use crate::paths::path_join;
use crate::paths::spec_join;
use crate::source_files::FileBucket;
use crate::source_files::SourceFiles;
use crate::source_files::classify_file;
use crate::source_files::is_ts_module;
use crate::source_files::spec_bucket;
use crate::source_files::spec_marks_typescript;

verus! {

/// Membership in one bucket of a classification under these exclude
/// patterns.
pub open spec fn bucket_pred(patterns: Seq<Seq<char>>, b: FileBucket) -> spec_fn(Seq<char>) -> bool {
    |f: Seq<char>| spec_bucket(f, spec_globset_matches(patterns, f)) == b
}

/// A unit of publishable JS/TS source with its own `src` directory.
pub struct Package {
    pub name: PackageName,
    pub build: ManifestBuild,
    pub root: String,
    pub src_dir: String,
    pub tests_dir: String,
}

impl Package {
    /// A package rooted at `root`, which must exist on disk. Its sources
    /// live under `src`, its tests under `tests`.
    pub fn new(name: PackageName, build: ManifestBuild, root: &str, root_exists: bool) -> (r:
        Result<Package, PackageError>)
        ensures
            match r {
                Ok(p) => {
                    &&& root_exists
                    &&& p.name == name
                    &&& p.build == build
                    &&& p.root@ == root@
                    &&& p.src_dir@ == spec_join(root@, "src"@)
                    &&& p.tests_dir@ == spec_join(root@, "tests"@)
                },
                Err(e) => !root_exists && (e matches PackageError::MissingPackage { path } && path@
                    == root@),
            },
    {
        if !root_exists {
            return Err(PackageError::MissingPackage { path: root.to_owned() });
        }
        Ok(
            Package {
                name,
                build,
                src_dir: path_join(root, "src"),
                tests_dir: path_join(root, "tests"),
                root: root.to_owned(),
            },
        )
    }

    /// The package's name.
    pub fn name(&self) -> (r: &str)
        ensures
            r@ == self.name@,
    {
        self.name.as_str()
    }

    /// Partitions the files found under the package's `src` directory
    /// (as paths relative to it) into modules, assets, tests and
    /// excluded files. A missing `src` directory is fatal before any
    /// file is looked at; a CommonJS source is fatal at the first one
    /// met, before any later file is placed in a bucket.
    pub fn load_source_files(&self, src_dir_exists: bool, files: &Vec<String>) -> (r: Result<
        SourceFiles,
        PackageError,
    >)
        ensures
            ({
                let pats = self.build.exclude.deep_view();
                let fs = files.deep_view();
                match r {
                    Ok(s) => {
                        &&& src_dir_exists
                        &&& globs_all_ok(pats)
                        &&& forall|i: int|
                            0 <= i < fs.len() ==> spec_bucket(
                                #[trigger] fs[i],
                                spec_globset_matches(pats, fs[i]),
                            ) != FileBucket::RefusedCjs
                        &&& s.excluded.deep_view() == fs.filter(
                            bucket_pred(pats, FileBucket::Excluded),
                        )
                        &&& s.tests.deep_view() == fs.filter(bucket_pred(pats, FileBucket::Tests))
                        &&& s.modules.deep_view() == fs.filter(
                            bucket_pred(pats, FileBucket::Modules),
                        )
                        &&& s.assets.deep_view() == fs.filter(bucket_pred(pats, FileBucket::Assets))
                        &&& s.typescript == exists|i: int|
                            0 <= i < fs.len() && spec_marks_typescript(
                                #[trigger] fs[i],
                                spec_globset_matches(pats, fs[i]),
                            )
                    },
                    Err(e) => match e {
                        PackageError::MissingSourceDir { name, src_dir } => {
                            &&& !src_dir_exists
                            &&& name@ == self.name@
                            &&& src_dir@ == self.src_dir@
                        },
                        PackageError::InvalidExcludeGlob { pattern } => {
                            &&& src_dir_exists
                            &&& exists|i: int|
                                0 <= i < pats.len() && pattern@ == #[trigger] pats[i]
                                    && !glob_pattern_ok(spec_pattern_body(pats[i]))
                        },
                        PackageError::NoCommonJS { path } => {
                            &&& src_dir_exists
                            &&& globs_all_ok(pats)
                            &&& exists|k: int|
                                #![trigger fs[k]]
                                (0 <= k < fs.len() && spec_bucket(
                                    fs[k],
                                    spec_globset_matches(pats, fs[k]),
                                ) == FileBucket::RefusedCjs && path@ == spec_join(
                                    self.src_dir@,
                                    fs[k],
                                ) && (forall|j: int|
                                    0 <= j < k ==> spec_bucket(
                                        #[trigger] fs[j],
                                        spec_globset_matches(pats, fs[j]),
                                    ) != FileBucket::RefusedCjs))
                        },
                        _ => false,
                    },
                }
            }),
    {
        let ghost pats = self.build.exclude.deep_view();
        let ghost fs = files.deep_view();
        if !src_dir_exists {
            return Err(
                PackageError::MissingSourceDir {
                    name: self.name.as_str().to_owned(),
                    src_dir: self.src_dir.clone(),
                },
            );
        }
        if let Err(e) = validate_globs(&self.build.exclude) {
            return Err(e);
        }
        let mut sources = SourceFiles {
            assets: Vec::new(),
            excluded: Vec::new(),
            modules: Vec::new(),
            tests: Vec::new(),
            typescript: false,
        };
        let mut i: usize = 0;
        while i < files.len()
            invariant
                pats == self.build.exclude.deep_view(),
                fs == files.deep_view(),
                fs.len() == files@.len(),
                src_dir_exists,
                globs_all_ok(pats),
                i <= fs.len(),
                sources.excluded.deep_view() == fs.take(i as int).filter(
                    bucket_pred(pats, FileBucket::Excluded),
                ),
                sources.tests.deep_view() == fs.take(i as int).filter(
                    bucket_pred(pats, FileBucket::Tests),
                ),
                sources.modules.deep_view() == fs.take(i as int).filter(
                    bucket_pred(pats, FileBucket::Modules),
                ),
                sources.assets.deep_view() == fs.take(i as int).filter(
                    bucket_pred(pats, FileBucket::Assets),
                ),
                sources.typescript == exists|j: int|
                    0 <= j < i && spec_marks_typescript(
                        #[trigger] fs[j],
                        spec_globset_matches(pats, fs[j]),
                    ),
                forall|j: int|
                    0 <= j < i ==> spec_bucket(#[trigger] fs[j], spec_globset_matches(pats, fs[j]))
                        != FileBucket::RefusedCjs,
            decreases fs.len() - i,
        {
            proof {
                assert(fs[i as int] == files@[i as int]@);
                lemma_filter_take_step(fs, pats, i as int, FileBucket::Excluded);
                lemma_filter_take_step(fs, pats, i as int, FileBucket::Tests);
                lemma_filter_take_step(fs, pats, i as int, FileBucket::Modules);
                lemma_filter_take_step(fs, pats, i as int, FileBucket::Assets);
            }
            let excluded_by_glob = globset_matches(&self.build.exclude, files[i].as_str());
            match classify_file(files[i].as_str(), excluded_by_glob) {
                FileBucket::Excluded => {
                    sources.excluded.push(files[i].clone());
                    proof {
                        assert(sources.excluded.deep_view() =~= fs.take(i + 1).filter(
                            bucket_pred(pats, FileBucket::Excluded),
                        ));
                    }
                },
                FileBucket::Tests => {
                    sources.tests.push(files[i].clone());
                    proof {
                        assert(sources.tests.deep_view() =~= fs.take(i + 1).filter(
                            bucket_pred(pats, FileBucket::Tests),
                        ));
                    }
                },
                FileBucket::Modules => {
                    sources.modules.push(files[i].clone());
                    if is_ts_module(files[i].as_str()) {
                        sources.typescript = true;
                    }
                    proof {
                        assert(sources.modules.deep_view() =~= fs.take(i + 1).filter(
                            bucket_pred(pats, FileBucket::Modules),
                        ));
                    }
                },
                FileBucket::Assets => {
                    sources.assets.push(files[i].clone());
                    proof {
                        assert(sources.assets.deep_view() =~= fs.take(i + 1).filter(
                            bucket_pred(pats, FileBucket::Assets),
                        ));
                    }
                },
                FileBucket::RefusedCjs => {
                    let path = path_join(self.src_dir.as_str(), files[i].as_str());
                    proof {
                        assert(spec_bucket(fs[i as int], spec_globset_matches(pats, fs[i as int]))
                            == FileBucket::RefusedCjs);
                        assert(path@ == spec_join(self.src_dir@, fs[i as int]));
                        assert(exists|k: int|
                            #![trigger fs[k]]
                            (0 <= k < fs.len() && spec_bucket(
                                fs[k],
                                spec_globset_matches(pats, fs[k]),
                            ) == FileBucket::RefusedCjs && path@ == spec_join(self.src_dir@, fs[k])
                                && (forall|j: int|
                                0 <= j < k ==> spec_bucket(
                                    #[trigger] fs[j],
                                    spec_globset_matches(pats, fs[j]),
                                ) != FileBucket::RefusedCjs)));
                    }
                    return Err(PackageError::NoCommonJS { path });
                },
            }
            i = i + 1;
        }
        proof {
            assert(fs.take(fs.len() as int) =~= fs);
        }
        Ok(sources)
    }
}

/// One step of the bucket filters: the file either joins its bucket's
/// list or leaves it untouched.
proof fn lemma_filter_take_step(fs: Seq<Seq<char>>, pats: Seq<Seq<char>>, i: int, b: FileBucket)
    requires
        0 <= i < fs.len(),
    ensures
        fs.take(i + 1).filter(bucket_pred(pats, b)) == if bucket_pred(pats, b)(fs[i]) {
            fs.take(i).filter(bucket_pred(pats, b)).push(fs[i])
        } else {
            fs.take(i).filter(bucket_pred(pats, b))
        },
{
    reveal(Seq::filter);
    assert(fs.take(i + 1).drop_last() =~= fs.take(i));
    assert(fs.take(i + 1).last() == fs[i]);
}

/// Classification is a total partition: under exclude patterns that
/// refuse no file as CommonJS, every file lands in exactly one of the
/// four buckets, so the four lists together hold exactly the input.
pub proof fn lemma_classification_partition(fs: Seq<Seq<char>>, pats: Seq<Seq<char>>)
    requires
        forall|i: int|
            0 <= i < fs.len() ==> spec_bucket(#[trigger] fs[i], spec_globset_matches(pats, fs[i]))
                != FileBucket::RefusedCjs,
    ensures
        fs.filter(bucket_pred(pats, FileBucket::Excluded)).len() + fs.filter(
            bucket_pred(pats, FileBucket::Tests),
        ).len() + fs.filter(bucket_pred(pats, FileBucket::Modules)).len() + fs.filter(
            bucket_pred(pats, FileBucket::Assets),
        ).len() == fs.len(),
    decreases fs.len(),
{
    reveal(Seq::filter);
    if fs.len() > 0 {
        assert(forall|i: int| 0 <= i < fs.len() - 1 ==> fs.drop_last()[i] == fs[i]);
        lemma_classification_partition(fs.drop_last(), pats);
    }
}

} // verus!
