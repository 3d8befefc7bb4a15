//! The specifier-extension normalizer: every relative import/export
//! source string and every dynamic-import string argument is rewritten to
//! carry an explicit `.mjs` extension, because the target runtime's ESM
//! resolver performs no extension-less resolution.

use vstd::prelude::*;
use vstd::string::StrSliceExecFns;
use vstd::string::StringExecFns;

use crate::paths::extension_of;
use crate::paths::file_name_start;
use crate::paths::spec_extension_of;
use crate::text::last_index_of;
use crate::text::lemma_is_last_index;
use crate::text::lemma_last_index_of;
use crate::text::lemma_no_char;
use crate::text::spec_ends_with;
use crate::text::str_eq;

verus! {

/// What the normalizer makes of one specifier: a bare `.` names the
/// directory index; any other relative specifier without an extension
/// gains `.mjs`; everything else is left untouched.
pub open spec fn spec_add_ext(s: Seq<char>) -> Seq<char> {
    if s == "."@ {
        "./index.mjs"@
    } else if s.len() > 0 && s[0] == '.' && spec_extension_of(s) is None {
        s + ".mjs"@
    } else {
        s
    }
}

/// The specifier-extension normalizer pass.
pub struct AddMjsExtensionVisitor;

impl AddMjsExtensionVisitor {
    /// Rewrites one import/export/dynamic-import source string.
    pub fn add_ext(&self, source: &str) -> (r: String)
        ensures
            r@ == spec_add_ext(source@),
    {
        if str_eq(source, ".") {
            "./index.mjs".to_owned()
        } else if source.unicode_len() > 0 && source.get_char(0) == '.' && extension_of(
            source,
        ).is_none() {
            source.to_owned().concat(".mjs")
        } else {
            source.to_owned()
        }
    }
}

/// The extension the normalizer leaves behind, on the specifiers it
/// touches, is one the normalizer itself then leaves alone.
proof fn lemma_appended_has_extension(s: Seq<char>)
    requires
        s.len() > 0,
        !spec_ends_with(s, seq!['/']),
    ensures
        spec_extension_of(s + ".mjs"@) is Some,
{
    reveal_strlit(".mjs");
    let t = s + ".mjs"@;
    let n = s.len() as int;
    assert(t[n] == '.');
    assert forall|j: int| n < j < t.len() implies t[j] != '.' by {
        assert(t[j] == ".mjs"@[j - n]);
    }
    lemma_is_last_index(t, '.', n);
    lemma_last_index_of(s, '/');
    let k = last_index_of(s, '/');
    if s[n - 1] == '/' {
        assert(s.subrange(n - 1, n) =~= seq!['/']);
        assert(false);
    }
    if k >= 0 {
        assert(s[n - 1] != '/');
        assert(k < n - 1);
        assert forall|j: int| k < j < t.len() implies t[j] != '/' by {
            if j < n {
                assert(t[j] == s[j]);
            } else {
                assert(t[j] == ".mjs"@[j - n]);
            }
        }
        lemma_is_last_index(t, '/', k);
    } else {
        assert forall|j: int| 0 <= j < t.len() implies t[j] != '/' by {
            if j < n {
                assert(t[j] == s[j]);
            } else {
                assert(t[j] == ".mjs"@[j - n]);
            }
        }
        lemma_no_char(t, '/');
    }
    assert(last_index_of(t, '.') > file_name_start(t));
}

/// A specifier that already carries an extension, and any specifier
/// that is not relative (it does not start with a dot), is left
/// byte-identical.
pub proof fn lemma_add_ext_untouched(s: Seq<char>)
    requires
        s.len() == 0 || s[0] != '.' || spec_extension_of(s) is Some,
    ensures
        spec_add_ext(s) == s,
{
    reveal_strlit(".");
    if s == "."@ {
        assert(s.len() == 1 && s[0] == '.');
        lemma_last_index_of(s, '.');
        lemma_last_index_of(s, '/');
        assert(last_index_of(s, '/') == -1);
        assert(last_index_of(s, '.') == 0);
        assert(spec_extension_of(s) is None);
    }
}

/// Running the normalizer on its own output is a no-op, for every
/// specifier that does not end in a path separator.
pub proof fn lemma_add_ext_idempotent(s: Seq<char>)
    requires
        !spec_ends_with(s, seq!['/']),
    ensures
        spec_add_ext(spec_add_ext(s)) == spec_add_ext(s),
{
    reveal_strlit(".");
    reveal_strlit("./index.mjs");
    reveal_strlit(".mjs");
    if s == "."@ {
        let t = "./index.mjs"@;
        assert(t.len() == 11);
        assert(t[7] == '.');
        assert forall|j: int| 7 < j < 11 implies t[j] != '.' by {}
        lemma_is_last_index(t, '.', 7);
        assert(t[1] == '/');
        assert forall|j: int| 1 < j < 11 implies t[j] != '/' by {}
        lemma_is_last_index(t, '/', 1);
        assert(spec_extension_of(t) is Some);
        assert(t != "."@);
        assert(spec_add_ext(t) == t);
    } else if s.len() > 0 && s[0] == '.' && spec_extension_of(s) is None {
        let t = s + ".mjs"@;
        lemma_appended_has_extension(s);
        assert(t.len() >= 5);
        assert(t != "."@);
        assert(spec_add_ext(t) == t);
    }
}

} // verus!
