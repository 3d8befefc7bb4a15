//! The CommonJS-use detector: a hard compile error names the exact
//! offending construct whenever a module still leans on the CommonJS
//! globals or on `require`. This enforces the ESM-only contract at the
//! syntax level; a lint warning would not.

use vstd::prelude::*;
use vstd::string::StringExecFns;

use crate::text::spec_eq_ignore_case;
use crate::text::str_eq_ignore_case;

verus! {

/// The CommonJS-use detector pass.
pub struct DetectCjsVisitor;

impl DetectCjsVisitor {
    /// An identifier that is one of the CommonJS globals, named as the
    /// construct the error reports.
    pub fn check_ident(&self, name: &str) -> (r: Option<&'static str>)
        ensures
            match r {
                Some(v) => if spec_eq_ignore_case(name@, "__dirname"@) {
                    v@ == "__dirname"@
                } else {
                    spec_eq_ignore_case(name@, "__filename"@) && v@ == "__filename"@
                },
                None => !spec_eq_ignore_case(name@, "__dirname"@) && !spec_eq_ignore_case(
                    name@,
                    "__filename"@,
                ),
            },
    {
        if str_eq_ignore_case(name, "__dirname") {
            Some("__dirname")
        } else if str_eq_ignore_case(name, "__filename") {
            Some("__filename")
        } else {
            None
        }
    }

    /// A call whose callee is `require` with exactly one argument, named
    /// as the construct the error reports.
    pub fn check_call(&self, callee: &str, arg_count: usize) -> (r: Option<&'static str>)
        ensures
            match r {
                Some(v) => spec_eq_ignore_case(callee@, "require"@) && arg_count == 1 && v@
                    == "require()"@,
                None => !(spec_eq_ignore_case(callee@, "require"@) && arg_count == 1),
            },
    {
        if str_eq_ignore_case(callee, "require") && arg_count == 1 {
            Some("require()")
        } else {
            None
        }
    }

    /// A member access on `require`, named as the construct the error
    /// reports.
    pub fn check_member(&self, object: &str, property: &str) -> (r: Option<&'static str>)
        ensures
            match r {
                Some(v) => spec_eq_ignore_case(object@, "require"@) && if spec_eq_ignore_case(
                    property@,
                    "resolve"@,
                ) {
                    v@ == "require.resolve()"@
                } else if spec_eq_ignore_case(property@, "cache"@) {
                    v@ == "require.cache"@
                } else if spec_eq_ignore_case(property@, "extensions"@) {
                    v@ == "require.extensions"@
                } else {
                    spec_eq_ignore_case(property@, "main"@) && v@ == "require.main"@
                },
                None => !(spec_eq_ignore_case(object@, "require"@) && (spec_eq_ignore_case(
                    property@,
                    "resolve"@,
                ) || spec_eq_ignore_case(property@, "cache"@) || spec_eq_ignore_case(
                    property@,
                    "extensions"@,
                ) || spec_eq_ignore_case(property@, "main"@))),
            },
    {
        if str_eq_ignore_case(object, "require") {
            if str_eq_ignore_case(property, "resolve") {
                Some("require.resolve()")
            } else if str_eq_ignore_case(property, "cache") {
                Some("require.cache")
            } else if str_eq_ignore_case(property, "extensions") {
                Some("require.extensions")
            } else if str_eq_ignore_case(property, "main") {
                Some("require.main")
            } else {
                None
            }
        } else {
            None
        }
    }

    /// The message the compile error carries for one found construct.
    pub fn error_message(&self, value: &str) -> (r: String)
        ensures
            r@ == "CommonJS is not supported, found `"@ + value@ + "`."@,
    {
        let r = "CommonJS is not supported, found `".to_owned().concat(value).concat("`.");
        r
    }
}

} // verus!
