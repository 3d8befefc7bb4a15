//! Verified path handling over plain strings.
//!
//! Paths are `/`-separated strings. The file name is everything after the
//! last slash; its extension is everything after its last dot, provided at
//! least one character of the name stands before that dot.

use vstd::prelude::*;
use vstd::string::StrSliceExecFns;
use vstd::string::StringExecFns;

use crate::text::last_index_of;
use crate::text::lemma_last_index_of;
use crate::text::spec_starts_with;
use crate::text::str_eq;
use crate::text::str_starts_with;
use crate::text::spec_eq_ignore_case;
use crate::text::str_eq_ignore_case;
use crate::text::str_rfind;

verus! {

/// Position where the file name of `p` begins.
pub open spec fn file_name_start(p: Seq<char>) -> int {
    last_index_of(p, '/') + 1
}

/// The extension of `p`, without its leading dot, or `None`.
pub open spec fn spec_extension_of(p: Seq<char>) -> Option<Seq<char>> {
    let d = last_index_of(p, '.');
    if d > file_name_start(p) {
        Some(p.subrange(d + 1, p.len() as int))
    } else {
        None
    }
}

/// `p` with its extension replaced by (or extended with) `ext`.
pub open spec fn spec_with_extension(p: Seq<char>, ext: Seq<char>) -> Seq<char> {
    let d = last_index_of(p, '.');
    if d > file_name_start(p) {
        p.subrange(0, d) + seq!['.'] + ext
    } else {
        p + seq!['.'] + ext
    }
}

/// `a` and `b` joined with a single separator.
pub open spec fn spec_join(a: Seq<char>, b: Seq<char>) -> Seq<char> {
    a + seq!['/'] + b
}

/// The file name of `p`: everything after the last slash.
pub open spec fn spec_file_name(p: Seq<char>) -> Seq<char> {
    p.subrange(file_name_start(p), p.len() as int)
}

/// The file name of `path`.
pub fn file_name(path: &str) -> (r: String)
    ensures
        r@ == spec_file_name(path@),
{
    proof {
        lemma_last_index_of(path@, '/');
    }
    let n = path.unicode_len();
    let start: usize = match str_rfind(path, '/') {
        Some(i) => i + 1,
        None => 0,
    };
    path.substring_char(start, n).to_owned()
}

/// The extension of `path`, or `None` when its file name has none.
pub fn extension_of(path: &str) -> (r: Option<String>)
    ensures
        match r {
            Some(e) => spec_extension_of(path@) == Some(e@),
            None => spec_extension_of(path@) is None,
        },
{
    let n = path.unicode_len();
    let dot = str_rfind(path, '.');
    let slash = str_rfind(path, '/');
    proof {
        lemma_last_index_of(path@, '.');
        lemma_last_index_of(path@, '/');
    }
    let name_start: usize = match slash {
        Some(i) => i + 1,
        None => 0,
    };
    match dot {
        Some(d) if d > name_start => Some(path.substring_char(d + 1, n).to_owned()),
        _ => None,
    }
}

/// `path` with its extension replaced by (or extended with) `ext`.
pub fn with_extension(path: &str, ext: &str) -> (r: String)
    ensures
        r@ == spec_with_extension(path@, ext@),
{
    let n = path.unicode_len();
    let dot = str_rfind(path, '.');
    let slash = str_rfind(path, '/');
    proof {
        lemma_last_index_of(path@, '.');
        lemma_last_index_of(path@, '/');
    }
    let name_start: usize = match slash {
        Some(i) => i + 1,
        None => 0,
    };
    let stem: String = match dot {
        Some(d) if d > name_start => path.substring_char(0, d).to_owned(),
        _ => path.to_owned(),
    };
    let r = stem.concat(".").concat(ext);
    proof {
        reveal_strlit(".");
        let d = last_index_of(path@, '.');
        if d > file_name_start(path@) {
            assert(r@ =~= path@.subrange(0, d) + seq!['.'] + ext@);
        } else {
            assert(r@ =~= path@ + seq!['.'] + ext@);
        }
    }
    r
}

/// `a` and `b` joined with a single separator.
pub fn path_join(a: &str, b: &str) -> (r: String)
    ensures
        r@ == spec_join(a@, b@),
{
    let r = a.to_owned().concat("/").concat(b);
    proof {
        reveal_strlit("/");
        assert(r@ =~= a@ + seq!['/'] + b@);
    }
    r
}

/// Resolves a destination argument against the working directory: an
/// empty or `.` destination is the working directory itself, an
/// absolute one stands alone, and any other is joined onto the working
/// directory. A destination that traverses upwards is refused before
/// this is called.
pub fn resolve_dest(to: &str, working_dir: &str) -> (r: String)
    requires
        !spec_starts_with(to@, ".."@),
    ensures
        (to@.len() == 0 || to@ == "."@) ==> r@ == working_dir@,
        to@.len() > 0 && to@ != "."@ && spec_starts_with(to@, "/"@) ==> r@ == to@,
        to@.len() > 0 && to@ != "."@ && !spec_starts_with(to@, "/"@) ==> r@ == spec_join(
            working_dir@,
            to@,
        ),
{
    if to.unicode_len() == 0 || str_eq(to, ".") {
        working_dir.to_owned()
    } else if str_starts_with(to, "/") {
        to.to_owned()
    } else {
        path_join(working_dir, to)
    }
}

/// The extension of `p` equals one of `exts`, up to ASCII case.
pub open spec fn spec_has_extension(p: Seq<char>, exts: Seq<&str>) -> bool {
    match spec_extension_of(p) {
        Some(e) => exists|k: int| 0 <= k < exts.len() && spec_eq_ignore_case(e, exts[k]@),
        None => false,
    }
}

/// Whether the extension of `path` equals one of `exts`, ignoring ASCII case.
pub fn has_extension(path: &str, exts: &[&str]) -> (r: bool)
    ensures
        r == spec_has_extension(path@, exts@),
{
    match extension_of(path) {
        Some(e) => {
            let mut k: usize = 0;
            while k < exts.len()
                invariant
                    spec_extension_of(path@) == Some(e@),
                    k <= exts@.len(),
                    forall|j: int| 0 <= j < k ==> !spec_eq_ignore_case(e@, exts@[j]@),
                decreases exts@.len() - k,
            {
                if str_eq_ignore_case(e.as_str(), exts[k]) {
                    return true;
                }
                k = k + 1;
            }
            false
        },
        None => false,
    }
}

} // verus!
