//! The total partition of a package's `src` tree: modules, assets,
//! tests, excluded files. All paths are relative to the `src` directory.

use vstd::prelude::*;
use vstd::string::StrSliceExecFns;

use crate::paths::spec_extension_of;
use crate::paths::extension_of;
use crate::text::spec_contains;
use crate::text::str_contains;
use crate::text::str_eq;

verus! {

/// Where classification placed one source file.
#[derive(Clone, Copy, Debug, PartialEq, Eq, Structural)]
pub enum FileBucket {
    /// Matched an exclude glob, or is a hand-authored ambient
    /// declaration: left out of the build.
    Excluded,
    /// Matched the test-file heuristic: not built.
    Tests,
    /// A JS/TS module to transform.
    Modules,
    /// Any other file: copied through.
    Assets,
    /// A CommonJS source, which classification refuses outright.
    RefusedCjs,
}

/// The classified source files of one package.
#[derive(Debug, PartialEq, Eq)]
pub struct SourceFiles {
    /// Non-JavaScript files, like CSS or images.
    pub assets: Vec<String>,
    /// Files that have been explicitly excluded.
    pub excluded: Vec<String>,
    /// JavaScript or TypeScript files.
    pub modules: Vec<String>,
    /// Test files found within the source directory.
    pub tests: Vec<String>,
    /// Some or all module files are written in TypeScript.
    pub typescript: bool,
}

/// The test-file heuristic: a deliberately naive substring match over
/// the whole relative path, not path-segment-aware (a name such as
/// `contests.ts` also matches).
pub open spec fn spec_is_test_file(p: Seq<char>) -> bool {
    ||| spec_contains(p, ".test"@)
    ||| spec_contains(p, ".spec"@)
    ||| spec_contains(p, "-test"@)
    ||| spec_contains(p, "-spec"@)
    ||| spec_contains(p, "_test"@)
    ||| spec_contains(p, "_spec"@)
    ||| spec_contains(p, "tests"@)
    ||| spec_contains(p, "__tests__"@)
}

/// The extension of `p` is exactly `e` (case matters here).
pub open spec fn spec_ext_is(p: Seq<char>, e: Seq<char>) -> bool {
    spec_extension_of(p) == Some(e)
}

/// A CommonJS source file, refused outright.
pub open spec fn spec_is_cjs(p: Seq<char>) -> bool {
    spec_ext_is(p, "cjs"@) || spec_ext_is(p, "cts"@)
}

/// A plain JavaScript module.
pub open spec fn spec_is_js_module(p: Seq<char>) -> bool {
    spec_ext_is(p, "js"@) || spec_ext_is(p, "jsx"@) || spec_ext_is(p, "mjs"@)
}

/// A TypeScript module (possibly an ambient declaration).
pub open spec fn spec_is_ts_module(p: Seq<char>) -> bool {
    spec_ext_is(p, "ts"@) || spec_ext_is(p, "tsx"@) || spec_ext_is(p, "mts"@)
}

/// A hand-authored ambient declaration, never compiled.
pub open spec fn spec_is_declaration(p: Seq<char>) -> bool {
    spec_is_ts_module(p) && spec_contains(p, ".d."@)
}

/// Where one file lands, given whether an exclude glob matched it.
/// Excludes take the highest precedence, then the test heuristic, then
/// the dispatch on extension.
pub open spec fn spec_bucket(p: Seq<char>, excluded_by_glob: bool) -> FileBucket {
    if excluded_by_glob {
        FileBucket::Excluded
    } else if spec_is_test_file(p) {
        FileBucket::Tests
    } else if spec_is_cjs(p) {
        FileBucket::RefusedCjs
    } else if spec_is_js_module(p) {
        FileBucket::Modules
    } else if spec_is_ts_module(p) {
        if spec_contains(p, ".d."@) {
            FileBucket::Excluded
        } else {
            FileBucket::Modules
        }
    } else {
        FileBucket::Assets
    }
}

/// The file lands in `modules` and sets the `typescript` flag.
pub open spec fn spec_marks_typescript(p: Seq<char>, excluded_by_glob: bool) -> bool {
    spec_bucket(p, excluded_by_glob) == FileBucket::Modules && spec_is_ts_module(p)
}

impl SourceFiles {
    /// Whether `file` matches the test-file heuristic.
    pub fn is_test_file(file: &str) -> (r: bool)
        ensures
            r == spec_is_test_file(file@),
    {
        str_contains(file, ".test") || str_contains(file, ".spec") || str_contains(file, "-test")
            || str_contains(file, "-spec") || str_contains(file, "_test") || str_contains(
            file,
            "_spec",
        ) || str_contains(file, "tests") || str_contains(file, "__tests__")
    }
}

/// Whether the file is a TypeScript module, by its extension.
pub fn is_ts_module(file: &str) -> (r: bool)
    ensures
        r == spec_is_ts_module(file@),
{
    match extension_of(file) {
        Some(ext) => str_eq(ext.as_str(), "ts") || str_eq(ext.as_str(), "tsx") || str_eq(
            ext.as_str(),
            "mts",
        ),
        None => false,
    }
}

/// Where one file lands, given whether an exclude glob matched it.
pub fn classify_file(file: &str, excluded_by_glob: bool) -> (r: FileBucket)
    ensures
        r == spec_bucket(file@, excluded_by_glob),
{
    if excluded_by_glob {
        return FileBucket::Excluded;
    }
    if SourceFiles::is_test_file(file) {
        return FileBucket::Tests;
    }
    match extension_of(file) {
        Some(ext) => {
            if str_eq(ext.as_str(), "cjs") || str_eq(ext.as_str(), "cts") {
                FileBucket::RefusedCjs
            } else if str_eq(ext.as_str(), "js") || str_eq(ext.as_str(), "jsx") || str_eq(
                ext.as_str(),
                "mjs",
            ) {
                FileBucket::Modules
            } else if str_eq(ext.as_str(), "ts") || str_eq(ext.as_str(), "tsx") || str_eq(
                ext.as_str(),
                "mts",
            ) {
                if str_contains(file, ".d.") {
                    FileBucket::Excluded
                } else {
                    FileBucket::Modules
                }
            } else {
                FileBucket::Assets
            }
        },
        None => FileBucket::Assets,
    }
}

/// A file matching both an exclude glob and the test heuristic lands in
/// `excluded`: excludes take the highest precedence, then the test
/// heuristic.
pub proof fn lemma_bucket_precedence(p: Seq<char>, excluded_by_glob: bool)
    ensures
        excluded_by_glob ==> spec_bucket(p, excluded_by_glob) == FileBucket::Excluded,
        !excluded_by_glob && spec_is_test_file(p) ==> spec_bucket(p, excluded_by_glob)
            == FileBucket::Tests,
{
}

/// A TypeScript file whose relative path carries `.d.` is always
/// excluded and never a module, as long as the test heuristic does not
/// claim it first (a name such as `types.d.spec.ts` goes to `tests`).
pub proof fn lemma_declaration_excluded(p: Seq<char>, excluded_by_glob: bool)
    requires
        spec_is_ts_module(p),
        spec_contains(p, ".d."@),
        !spec_is_test_file(p),
    ensures
        spec_bucket(p, excluded_by_glob) == FileBucket::Excluded,
        spec_bucket(p, excluded_by_glob) != FileBucket::Modules,
{
    reveal_strlit("ts");
    reveal_strlit("tsx");
    reveal_strlit("mts");
    reveal_strlit("cjs");
    reveal_strlit("cts");
    reveal_strlit("js");
    reveal_strlit("jsx");
    reveal_strlit("mjs");
    assert("ts"@.len() == 2);
    assert("tsx"@.len() == 3);
    assert("mts"@.len() == 3);
    assert("cjs"@.len() == 3);
    assert("cts"@.len() == 3);
    assert("js"@.len() == 2);
    assert("jsx"@.len() == 3);
    assert("mjs"@.len() == 3);
    assert("ts"@[0] == 't' && "js"@[0] == 'j' && "tsx"@[0] == 't' && "cjs"@[0] == 'c' && "cts"@[0]
        == 'c' && "jsx"@[0] == 'j' && "mts"@[0] == 'm' && "mjs"@[0] == 'm' && "mts"@[1] == 't'
        && "mjs"@[1] == 'j');
    assert(!spec_is_cjs(p));
    assert(!spec_is_js_module(p));
}

} // verus!
