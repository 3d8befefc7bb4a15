//! Exclude-glob matching. One glob's syntax and matching live in the
//! `wax` crate; the set semantics over a list of patterns are decided
//! here: a leading-marker run of `!` and `/` is trimmed (any `!` in it
//! negates the pattern), leading `./` pairs are trimmed, negations beat
//! matches, and an empty set matches nothing.

use vstd::prelude::*;
use vstd::string::StrSliceExecFns;

use wax::Program;

use crate::errors::PackageError;

verus! {

/// Whether `wax` accepts the pattern. A function of the pattern alone.
pub uninterp spec fn glob_pattern_ok(pattern: Seq<char>) -> bool;

/// What `wax` answers for one pattern against one path. A function of
/// the two alone.
pub uninterp spec fn glob_match(pattern: Seq<char>, path: Seq<char>) -> bool;

/// Relies on wax::Glob::new: whether the glob expression parses.
#[verifier::external_body]
fn glob_new_ok(pattern: &str) -> (r: bool)
    ensures
        r == glob_pattern_ok(pattern@),
{
    wax::Glob::new(pattern).is_ok()
}

/// Relies on wax::Glob::is_match: whether the glob matches the path.
/// A logical operation that does not touch the file system.
#[verifier::external_body]
fn glob_is_match(pattern: &str, path: &str) -> (r: bool)
    requires
        glob_pattern_ok(pattern@),
    ensures
        r == glob_match(pattern@, path@),
{
    match wax::Glob::new(pattern) {
        Ok(glob) => glob.is_match(path),
        Err(_) => false,
    }
}

/// Length of the pattern's leading run of `!` and `/` markers.
pub open spec fn spec_marker_len(p: Seq<char>) -> int
    decreases p.len(),
{
    if p.len() == 0 {
        0
    } else if p[0] == '!' || p[0] == '/' {
        1 + spec_marker_len(p.drop_first())
    } else {
        0
    }
}

/// The pattern negates: its leading marker run holds a `!` (repeated
/// `!` do not cancel out).
pub open spec fn spec_is_negation(p: Seq<char>) -> bool
    decreases p.len(),
{
    if p.len() == 0 {
        false
    } else if p[0] == '!' {
        true
    } else if p[0] == '/' {
        spec_is_negation(p.drop_first())
    } else {
        false
    }
}

/// `s` with every leading `./` pair stripped.
pub open spec fn spec_strip_dot_slash(s: Seq<char>) -> Seq<char>
    decreases s.len(),
{
    if s.len() >= 2 && s[0] == '.' && s[1] == '/' {
        spec_strip_dot_slash(s.subrange(2, s.len() as int))
    } else {
        s
    }
}

/// What `wax` is handed for this pattern: the leading `!`/`/` marker
/// run trimmed, then every leading `./` pair.
pub open spec fn spec_pattern_body(p: Seq<char>) -> Seq<char> {
    spec_strip_dot_slash(p.subrange(spec_marker_len(p), p.len() as int))
}

proof fn lemma_marker_len(p: Seq<char>)
    ensures
        0 <= spec_marker_len(p) <= p.len(),
        forall|j: int| 0 <= j < spec_marker_len(p) ==> p[j] == '!' || p[j] == '/',
        spec_marker_len(p) < p.len() ==> !(p[spec_marker_len(p)] == '!' || p[spec_marker_len(p)]
            == '/'),
        spec_is_negation(p) <==> exists|j: int| 0 <= j < spec_marker_len(p) && p[j] == '!',
    decreases p.len(),
{
    if p.len() > 0 && (p[0] == '!' || p[0] == '/') {
        lemma_marker_len(p.drop_first());
        assert(forall|j: int| 0 < j < p.len() ==> p[j] == p.drop_first()[j - 1]);
        assert forall|j: int| 0 <= j < spec_marker_len(p) implies p[j] == '!' || p[j] == '/' by {
            if j > 0 {
                assert(p[j] == p.drop_first()[j - 1]);
            }
        }
        if p[0] == '!' {
            assert(spec_is_negation(p) && p[0] == '!' && 0 < spec_marker_len(p));
        } else {
            if spec_is_negation(p.drop_first()) {
                let j = choose|j: int|
                    0 <= j < spec_marker_len(p.drop_first()) && p.drop_first()[j] == '!';
                assert(p[j + 1] == '!');
            }
            if exists|j: int| 0 <= j < spec_marker_len(p) && p[j] == '!' {
                let j = choose|j: int| 0 <= j < spec_marker_len(p) && p[j] == '!';
                assert(p.drop_first()[j - 1] == '!');
            }
        }
    }
}

/// Splits a pattern into its negation flag and the body handed to
/// `wax`, mirroring how the set takes patterns apart.
fn split_pattern(p: &str) -> (r: (bool, &str))
    ensures
        r.0 == spec_is_negation(p@),
        r.1@ == spec_pattern_body(p@),
{
    proof {
        lemma_marker_len(p@);
    }
    let n = p.unicode_len();
    let mut i: usize = 0;
    let mut negated = false;
    while i < n && (p.get_char(i) == '!' || p.get_char(i) == '/')
        invariant
            n == p@.len(),
            i <= n,
            forall|j: int| 0 <= j < i ==> p@[j] == '!' || p@[j] == '/',
            negated == exists|j: int| 0 <= j < i && p@[j] == '!',
        decreases n - i,
    {
        if p.get_char(i) == '!' {
            negated = true;
        }
        i = i + 1;
    }
    proof {
        lemma_marker_len(p@);
        assert(i == spec_marker_len(p@));
    }
    let mut k: usize = i;
    while n - k >= 2 && p.get_char(k) == '.' && p.get_char(k + 1) == '/'
        invariant
            n == p@.len(),
            i <= k <= n,
            spec_strip_dot_slash(p@.subrange(i as int, n as int)) == spec_strip_dot_slash(
                p@.subrange(k as int, n as int),
            ),
        decreases n - k,
    {
        proof {
            assert(p@.subrange(k as int, n as int)[0] == p@[k as int]);
            assert(p@.subrange(k as int, n as int)[1] == p@[k as int + 1]);
            assert(p@.subrange(k as int, n as int).subrange(
                2,
                p@.subrange(k as int, n as int).len() as int,
            ) =~= p@.subrange(k as int + 2, n as int));
        }
        k = k + 2;
    }
    proof {
        if k < n {
            assert(p@.subrange(k as int, n as int)[0] == p@[k as int]);
            if n - k >= 2 {
                assert(p@.subrange(k as int, n as int)[1] == p@[k as int + 1]);
            }
        }
        assert(spec_strip_dot_slash(p@.subrange(k as int, n as int)) == p@.subrange(
            k as int,
            n as int,
        ));
    }
    (negated, p.substring_char(k, n))
}

/// Every pattern in the list parses.
pub open spec fn globs_all_ok(patterns: Seq<Seq<char>>) -> bool {
    forall|i: int| 0 <= i < patterns.len() ==> glob_pattern_ok(spec_pattern_body(#[trigger] patterns[i]))
}

/// What a set of patterns makes of a path: some non-negated pattern
/// matches it, no negated pattern matches it, and the set is not empty.
pub open spec fn spec_globset_matches(patterns: Seq<Seq<char>>, path: Seq<char>) -> bool {
    &&& patterns.len() > 0
    &&& !(exists|i: int|
        0 <= i < patterns.len() && spec_is_negation(#[trigger] patterns[i]) && glob_match(
            spec_pattern_body(patterns[i]),
            path,
        ))
    &&& exists|i: int|
        0 <= i < patterns.len() && !spec_is_negation(#[trigger] patterns[i]) && glob_match(
            spec_pattern_body(patterns[i]),
            path,
        )
}

/// Rejects the first exclude pattern `wax` cannot parse.
pub fn validate_globs(patterns: &Vec<String>) -> (r: Result<(), PackageError>)
    ensures
        match r {
            Ok(()) => globs_all_ok(patterns.deep_view()),
            Err(e) => e matches PackageError::InvalidExcludeGlob { pattern } && exists|i: int|
                0 <= i < patterns.deep_view().len() && pattern@ == #[trigger] patterns.deep_view()[i]
                    && !glob_pattern_ok(spec_pattern_body(patterns.deep_view()[i])),
        },
{
    let mut i: usize = 0;
    while i < patterns.len()
        invariant
            i <= patterns@.len(),
            forall|j: int|
                0 <= j < i ==> glob_pattern_ok(spec_pattern_body(#[trigger] patterns.deep_view()[j])),
        decreases patterns@.len() - i,
    {
        proof {
            assert(patterns.deep_view()[i as int] == patterns@[i as int]@);
        }
        let (_, body) = split_pattern(patterns[i].as_str());
        if !glob_new_ok(body) {
            return Err(PackageError::InvalidExcludeGlob { pattern: patterns[i].clone() });
        }
        i = i + 1;
    }
    Ok(())
}

/// Whether the pattern set matches the path: some non-negated pattern
/// matches it and no negated one does. An empty set matches nothing.
pub fn globset_matches(patterns: &Vec<String>, path: &str) -> (r: bool)
    requires
        globs_all_ok(patterns.deep_view()),
    ensures
        r == spec_globset_matches(patterns.deep_view(), path@),
{
    let ghost pats = patterns.deep_view();
    if patterns.len() == 0 {
        return false;
    }
    let mut any_negation = false;
    let mut any_expression = false;
    let mut i: usize = 0;
    while i < patterns.len()
        invariant
            globs_all_ok(pats),
            pats == patterns.deep_view(),
            pats.len() == patterns@.len(),
            i <= pats.len(),
            any_negation == exists|j: int|
                0 <= j < i && spec_is_negation(#[trigger] pats[j]) && glob_match(
                    spec_pattern_body(pats[j]),
                    path@,
                ),
            any_expression == exists|j: int|
                0 <= j < i && !spec_is_negation(#[trigger] pats[j]) && glob_match(
                    spec_pattern_body(pats[j]),
                    path@,
                ),
        decreases pats.len() - i,
    {
        proof {
            assert(pats[i as int] == patterns@[i as int]@);
        }
        let (negated, body) = split_pattern(patterns[i].as_str());
        if glob_is_match(body, path) {
            if negated {
                any_negation = true;
            } else {
                any_expression = true;
            }
        }
        i = i + 1;
    }
    !any_negation && any_expression
}

} // verus!
