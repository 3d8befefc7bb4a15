//! The ECMAScript specification years the compiler can emit for.

use vstd::prelude::*;

verus! {

/// One of the eight supported stable ECMAScript targets. Older targets
/// (ES5 and before) and moving targets (ESNext) are intentionally not
/// supported.
#[derive(Clone, Copy, Debug, PartialEq, Eq, Structural)]
pub enum EsTarget {
    Es2015,
    Es2016,
    Es2017,
    Es2018,
    Es2019,
    Es2020,
    Es2021,
    Es2022,
}

/// The lower-case name of a target, as it appears in paths and configs.
pub open spec fn spec_target_str(t: EsTarget) -> Seq<char> {
    match t {
        EsTarget::Es2015 => "es2015"@,
        EsTarget::Es2016 => "es2016"@,
        EsTarget::Es2017 => "es2017"@,
        EsTarget::Es2018 => "es2018"@,
        EsTarget::Es2019 => "es2019"@,
        EsTarget::Es2020 => "es2020"@,
        EsTarget::Es2021 => "es2021"@,
        EsTarget::Es2022 => "es2022"@,
    }
}

/// Every target's name starts with `es`.
pub proof fn lemma_target_str_starts_es(t: EsTarget)
    ensures
        spec_target_str(t).len() == 6,
        spec_target_str(t)[0] == 'e',
        spec_target_str(t)[1] == 's',
{
    reveal_strlit("es2015");
    reveal_strlit("es2016");
    reveal_strlit("es2017");
    reveal_strlit("es2018");
    reveal_strlit("es2019");
    reveal_strlit("es2020");
    reveal_strlit("es2021");
    reveal_strlit("es2022");
}

impl EsTarget {
    /// The lower-case name of the target.
    pub fn as_str(&self) -> (r: &'static str)
        ensures
            r@ == spec_target_str(*self),
    {
        match self {
            EsTarget::Es2015 => "es2015",
            EsTarget::Es2016 => "es2016",
            EsTarget::Es2017 => "es2017",
            EsTarget::Es2018 => "es2018",
            EsTarget::Es2019 => "es2019",
            EsTarget::Es2020 => "es2020",
            EsTarget::Es2021 => "es2021",
            EsTarget::Es2022 => "es2022",
        }
    }
}

impl Default for EsTarget {
    /// The default target of a build that names none.
    fn default() -> (r: Self)
        ensures
            r == EsTarget::Es2018,
    {
        EsTarget::Es2018
    }
}

} // verus!
