//! The limits of the target that a build is made for.

use vstd::prelude::*;

verus! {

/// The configuration of one build. The lowering does not enforce the two
/// limits: it hands them on to the stage that lays out physical lines.
#[derive(Debug, PartialEq, Eq)]
pub struct BuildConfig {
    configs: Vec<String>,
    line_length: u16,
    line_count: u16,
}

/// What a `BuildConfig` holds, as a mathematical value.
pub struct BuildConfigView {
    pub configs: Seq<Seq<char>>,
    pub line_length: u16,
    pub line_count: u16,
}

/// The length of a physical line of the target where none is given.
pub const DEFAULT_LINE_LENGTH: u16 = 70;

/// The number of physical lines of the target where none is given.
pub const DEFAULT_LINE_COUNT: u16 = 20;

impl View for BuildConfig {
    type V = BuildConfigView;

    closed spec fn view(&self) -> BuildConfigView {
        BuildConfigView {
            configs: self.configs.deep_view(),
            line_length: self.line_length,
            line_count: self.line_count,
        }
    }
}

impl BuildConfig {
    /// The configuration that the given values ask for: each value that is
    /// missing takes its default.
    pub fn from_matches(configs: Option<Vec<String>>, line_length: Option<u16>, line_count: Option<u16>) -> (r:
        BuildConfig)
        ensures
            r@.configs == match configs {
                Some(c) => c.deep_view(),
                None => Seq::<Seq<char>>::empty(),
            },
            r@.line_length == match line_length {
                Some(n) => n,
                None => DEFAULT_LINE_LENGTH,
            },
            r@.line_count == match line_count {
                Some(n) => n,
                None => DEFAULT_LINE_COUNT,
            },
    {
        let configs = match configs {
            Some(c) => c,
            None => crate::views::empty_deep(),
        };
        BuildConfig {
            configs,
            line_length: match line_length {
                Some(n) => n,
                None => DEFAULT_LINE_LENGTH,
            },
            line_count: match line_count {
                Some(n) => n,
                None => DEFAULT_LINE_COUNT,
            },
        }
    }

    /// The names of the configurations that the build selects.
    pub fn configs(&self) -> (r: &Vec<String>)
        ensures
            r.deep_view() == self@.configs,
    {
        &self.configs
    }

    /// The greatest length of a physical line of the target.
    pub fn line_length(&self) -> (r: u16)
        ensures
            r == self@.line_length,
    {
        self.line_length
    }

    /// The greatest number of physical lines of the target.
    pub fn line_count(&self) -> (r: u16)
        ensures
            r == self@.line_count,
    {
        self.line_count
    }
}

} // verus!
