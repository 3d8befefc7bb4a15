//! Per-package build settings: decorators, exclude globs, PNG policy.

use vstd::prelude::*;

verus! {

/// Which decorator proposal a package compiles with.
#[derive(Clone, Copy, Debug, PartialEq, Eq, Structural)]
pub enum BuildDecorators {
    Legacy,
}

/// PNG optimization policy: a plain switch, or an explicit compression
/// level between 0 and 6.
#[derive(Clone, Copy, Debug, PartialEq, Eq, Structural)]
pub enum BuildOptimizePng {
    Enabled(bool),
    Level(u8),
}

impl BuildOptimizePng {
    /// The compression level optimization runs at.
    pub fn get_level(&self) -> (r: u8)
        ensures
            r == self.spec_level(),
    {
        match self {
            BuildOptimizePng::Enabled(_) => 2,
            BuildOptimizePng::Level(level) => *level,
        }
    }

    pub open spec fn spec_level(&self) -> u8 {
        match *self {
            BuildOptimizePng::Enabled(_) => 2,
            BuildOptimizePng::Level(level) => level,
        }
    }

    /// Whether optimization runs at all.
    pub fn is_enabled(&self) -> (r: bool)
        ensures
            r == self.spec_enabled(),
    {
        match self {
            BuildOptimizePng::Enabled(enabled) => *enabled,
            BuildOptimizePng::Level(level) => *level > 0,
        }
    }

    pub open spec fn spec_enabled(&self) -> bool {
        match *self {
            BuildOptimizePng::Enabled(enabled) => enabled,
            BuildOptimizePng::Level(level) => level > 0,
        }
    }
}

impl Default for BuildOptimizePng {
    /// Optimization is on by default.
    fn default() -> (r: Self)
        ensures
            r == BuildOptimizePng::Enabled(true),
    {
        BuildOptimizePng::Enabled(true)
    }
}

/// An explicit compression level must lie between 0 and 6.
pub fn validate_png_level(value: &BuildOptimizePng) -> (r: bool)
    ensures
        r == match *value {
            BuildOptimizePng::Level(level) => level <= 6,
            BuildOptimizePng::Enabled(_) => true,
        },
{
    match value {
        BuildOptimizePng::Level(level) => *level <= 6,
        BuildOptimizePng::Enabled(_) => true,
    }
}

/// The `build` table of a package manifest.
#[derive(Clone, Debug)]
pub struct ManifestBuild {
    pub decorators: Option<BuildDecorators>,
    pub exclude: Vec<String>,
    pub optimize_png: BuildOptimizePng,
}

/// The two settings hold the same values.
pub open spec fn same_settings(a: ManifestBuild, b: ManifestBuild) -> bool {
    &&& a.decorators == b.decorators
    &&& a.optimize_png == b.optimize_png
    &&& a.exclude.deep_view() == b.exclude.deep_view()
}

impl ManifestBuild {
    /// An identical copy of the settings.
    pub fn duplicate(&self) -> (r: ManifestBuild)
        ensures
            same_settings(r, *self),
    {
        let mut exclude: Vec<String> = Vec::new();
        let mut i: usize = 0;
        while i < self.exclude.len()
            invariant
                i <= self.exclude@.len(),
                exclude@.len() == i,
                forall|j: int| 0 <= j < i ==> exclude@[j]@ == self.exclude@[j]@,
            decreases self.exclude@.len() - i,
        {
            exclude.push(self.exclude[i].clone());
            i = i + 1;
        }
        proof {
            assert(exclude.deep_view() =~= self.exclude.deep_view());
        }
        ManifestBuild { decorators: self.decorators, exclude, optimize_png: self.optimize_png }
    }

    pub fn is_legacy_decorators(&self) -> (r: bool)
        ensures
            r == (self.decorators matches Some(BuildDecorators::Legacy)),
    {
        match self.decorators {
            Some(BuildDecorators::Legacy) => true,
            None => false,
        }
    }
}

impl Default for ManifestBuild {
    /// No decorators, no excludes, PNG optimization on.
    fn default() -> (r: Self)
        ensures
            r.decorators is None,
            r.exclude@.len() == 0,
            r.optimize_png == BuildOptimizePng::Enabled(true),
    {
        ManifestBuild { decorators: None, exclude: Vec::new(), optimize_png: BuildOptimizePng::Enabled(true) }
    }
}

} // verus!
