//! Validated `namespace/package` names.

use vstd::prelude::*;
use vstd::string::StrSliceExecFns;
use vstd::string::StringExecFns;
use vstd::string::StringSliceAdditionalSpecFns;

use crate::text::first_index_of;
use crate::text::lemma_first_index_of;
use crate::text::spec_contains;
use crate::text::str_contains;
use crate::text::str_find;

verus! {

/// Why a package name was rejected.
#[derive(Clone, Copy, Debug, PartialEq, Eq, Structural)]
pub enum PackageNameError {
    /// The name is empty.
    Empty,
    /// Repeating dashes appear somewhere in the name.
    NoRepeatingDashes,
    /// No `/` separates a namespace from the package part.
    MissingNamespace,
    /// The namespace holds a character outside lower-case letters,
    /// digits and dashes, or starts or ends badly.
    InvalidNamespace,
    /// The namespace is not 2-32 bytes long.
    NamespaceLength,
    /// The package part holds a character outside lower-case letters,
    /// digits and dashes, or starts or ends badly.
    InvalidName,
    /// The package part is not 2-32 bytes long.
    NameLength,
}

/// The UTF-8 byte length of a character sequence: the length checks
/// count bytes, as `str::len` does.
pub open spec fn spec_byte_len(s: Seq<char>) -> nat {
    vstd::utf8::encode_utf8(s).len()
}

pub open spec fn is_lower_alpha(c: char) -> bool {
    'a' <= c && c <= 'z'
}

pub open spec fn is_lower_alnum(c: char) -> bool {
    is_lower_alpha(c) || ('0' <= c && c <= '9')
}

pub open spec fn is_lower_alnum_dash(c: char) -> bool {
    is_lower_alnum(c) || c == '-'
}

/// A lower-case alphanumeric-and-dash word of 2 to 32 characters that
/// starts with a letter and does not end with a dash.
pub open spec fn is_name_component(s: Seq<char>) -> bool {
    &&& 2 <= s.len() <= 32
    &&& is_lower_alpha(s[0])
    &&& is_lower_alnum(s[s.len() - 1])
    &&& forall|i: int| 0 < i < s.len() - 1 ==> is_lower_alnum_dash(#[trigger] s[i])
}

/// The namespace part of `v`: everything before the first `/`.
pub open spec fn spec_namespace_of(v: Seq<char>) -> Seq<char> {
    v.subrange(0, first_index_of(v, '/'))
}

/// The package part of `v`: everything between the first `/` and the
/// second, or the rest of `v` when there is no second.
pub open spec fn spec_package_of(v: Seq<char>) -> Seq<char> {
    let rest = v.subrange(first_index_of(v, '/') + 1, v.len() as int);
    if first_index_of(rest, '/') >= 0 {
        rest.subrange(0, first_index_of(rest, '/'))
    } else {
        rest
    }
}

/// The error `parse` answers for `v`, or `None` when `v` is accepted.
pub open spec fn spec_name_error(v: Seq<char>) -> Option<PackageNameError> {
    if v.len() == 0 {
        Some(PackageNameError::Empty)
    } else if first_index_of(v, '/') < 0 {
        Some(PackageNameError::MissingNamespace)
    } else if spec_contains(v, seq!['-', '-']) {
        Some(PackageNameError::NoRepeatingDashes)
    } else if spec_byte_len(spec_namespace_of(v)) < 2 || spec_byte_len(spec_namespace_of(v)) > 32 {
        Some(PackageNameError::NamespaceLength)
    } else if !is_name_component(spec_namespace_of(v)) {
        Some(PackageNameError::InvalidNamespace)
    } else if spec_byte_len(spec_package_of(v)) < 2 || spec_byte_len(spec_package_of(v)) > 32 {
        Some(PackageNameError::NameLength)
    } else if !is_name_component(spec_package_of(v)) {
        Some(PackageNameError::InvalidName)
    } else {
        None
    }
}

/// A package name of the shape `namespace/package`, validated by `parse`.
#[derive(Clone, Debug, PartialEq, Eq, Hash)]
pub struct PackageName {
    value: String,
}

impl View for PackageName {
    type V = Seq<char>;

    closed spec fn view(&self) -> Seq<char> {
        self.value@
    }
}

/// Splits `value` at its first two `/` separators: the part before the
/// first, and the part between the first and the second.
pub fn components<'a>(value: &'a str) -> (r: (&'a str, &'a str))
    requires
        first_index_of(value@, '/') >= 0,
    ensures
        r.0@ == spec_namespace_of(value@),
        r.1@ == spec_package_of(value@),
{
    proof {
        lemma_first_index_of(value@, '/');
    }
    let n = value.unicode_len();
    let i = match str_find(value, '/') {
        Some(i) => i,
        None => 0,
    };
    let ns = value.substring_char(0, i);
    let rest = value.substring_char(i + 1, n);
    let pkg = match str_find(rest, '/') {
        Some(j) => {
            proof {
                lemma_first_index_of(rest@, '/');
            }
            rest.substring_char(0, j)
        },
        None => rest,
    };
    (ns, pkg)
}

/// Whether `s` is a lower-case alphanumeric-and-dash word of 2 to 32
/// characters that starts with a letter and does not end with a dash.
fn check_component(s: &str) -> (r: bool)
    ensures
        r == is_name_component(s@),
{
    let n = s.unicode_len();
    if n < 2 || n > 32 {
        return false;
    }
    let first = s.get_char(0);
    if !('a' <= first && first <= 'z') {
        return false;
    }
    let last = s.get_char(n - 1);
    if !(('a' <= last && last <= 'z') || ('0' <= last && last <= '9')) {
        return false;
    }
    let mut i: usize = 1;
    while i < n - 1
        invariant
            n == s@.len(),
            2 <= n <= 32,
            1 <= i <= n - 1,
            forall|j: int| 0 < j < i ==> is_lower_alnum_dash(#[trigger] s@[j]),
        decreases n - i,
    {
        let c = s.get_char(i);
        if !(('a' <= c && c <= 'z') || ('0' <= c && c <= '9') || c == '-') {
            return false;
        }
        i = i + 1;
    }
    true
}

impl PackageName {
    /// Validates `value` as a `namespace/package` name.
    pub fn parse(value: &str) -> (r: Result<PackageName, PackageNameError>)
        ensures
            match r {
                Ok(p) => spec_name_error(value@) is None && p@ == value@,
                Err(e) => spec_name_error(value@) == Some(e),
            },
    {
        if value.unicode_len() == 0 {
            return Err(PackageNameError::Empty);
        }
        if str_find(value, '/').is_none() {
            return Err(PackageNameError::MissingNamespace);
        }
        proof {
            reveal_strlit("--");
            assert("--"@ =~= seq!['-', '-']);
        }
        if str_contains(value, "--") {
            return Err(PackageNameError::NoRepeatingDashes);
        }
        let (namespace, package) = components(value);
        let namespace_bytes = namespace.as_bytes();
        let package_bytes = package.as_bytes();
        proof {
            vstd::slice::axiom_spec_len(namespace_bytes);
            vstd::slice::axiom_spec_len(package_bytes);
            assert(namespace_bytes@.len() == spec_byte_len(namespace@));
            assert(package_bytes@.len() == spec_byte_len(package@));
        }
        if namespace_bytes.len() < 2 || namespace_bytes.len() > 32 {
            return Err(PackageNameError::NamespaceLength);
        }
        if !check_component(namespace) {
            return Err(PackageNameError::InvalidNamespace);
        }
        if package_bytes.len() < 2 || package_bytes.len() > 32 {
            return Err(PackageNameError::NameLength);
        }
        if !check_component(package) {
            return Err(PackageNameError::InvalidName);
        }
        Ok(PackageName { value: value.to_owned() })
    }

    /// A parsed name is one that `parse` accepts.
    pub open spec fn wf(&self) -> bool {
        spec_name_error(self@) is None
    }

    pub fn as_str(&self) -> (r: &str)
        ensures
            r@ == self@,
    {
        self.value.as_str()
    }

    /// The namespace and package parts of the name.
    pub fn components(&self) -> (r: (&str, &str))
        requires
            self.wf(),
        ensures
            r.0@ == spec_namespace_of(self@),
            r.1@ == spec_package_of(self@),
    {
        components(self.value.as_str())
    }

    /// The part left of the first `/`.
    pub fn namespace(&self) -> (r: &str)
        requires
            self.wf(),
        ensures
            r@ == spec_namespace_of(self@),
    {
        self.components().0
    }

    /// The part right of the first `/`.
    pub fn package(&self) -> (r: &str)
        requires
            self.wf(),
        ensures
            r@ == spec_package_of(self@),
    {
        self.components().1
    }
}

} // verus!
