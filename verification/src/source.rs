pub mod apnic;

use crate::text::str_equal;
use vstd::prelude::*;

verus! {

/// Choose a source to generate ip map.
#[derive(Debug, Clone, Copy, PartialEq, Eq, Structural)]
#[allow(non_camel_case_types)]
pub enum Source {
    /// The delegation file of the registry for Asia and the Pacific.
    apnic,
}

impl Default for Source {
    fn default() -> (source: Source)
        ensures
            source == Source::apnic,
    {
        Source::apnic
    }
}

impl Source {
    /// The name of a source.
    pub open spec fn name(self) -> Seq<char> {
        match self {
            Source::apnic => "apnic"@,
        }
    }

    /// The source of the given name.
    pub open spec fn named(name: Seq<char>) -> Option<Source> {
        if name == "apnic"@ {
            Some(Source::apnic)
        } else {
            None
        }
    }

    /// The name of this source.
    pub fn as_str(&self) -> (name: &'static str)
        ensures
            name@ == self.name(),
    {
        match self {
            Source::apnic => "apnic",
        }
    }

    /// The source of the given name, if there is one.
    pub fn from_str(name: &str) -> (source: Option<Source>)
        ensures
            source == Source::named(name@),
    {
        if str_equal(name, "apnic") {
            Some(Source::apnic)
        } else {
            None
        }
    }

    /// The source that follows this one in the list of sources, if any.
    pub fn next(&self) -> (source: Option<Source>)
        ensures
            source is None,
    {
        match self {
            Source::apnic => None,
        }
    }
}

} // verus!
