//! The position of an item in the module hierarchy.

use vstd::prelude::*;
use vstd::string::*;
use crate::text::{copy_strings, join, join_strings, views};

verus! {

/// An ordered sequence of module names, outermost first.
#[derive(PartialEq, Eq, Hash, Debug)]
pub struct ModPath {
    pub segments: Vec<String>,
}

impl View for ModPath {
    type V = Seq<Seq<char>>;

    open spec fn view(&self) -> Seq<Seq<char>> {
        views(self.segments@)
    }
}

impl Clone for ModPath {
    fn clone(&self) -> (copy: ModPath)
        ensures
            copy@ == self@,
    {
        ModPath { segments: copy_strings(&self.segments) }
    }
}

/// The directory that mirrors a module path: its segments joined by `/`.
pub open spec fn dir_of(segments: Seq<Seq<char>>) -> Seq<char> {
    join(segments, "/"@)
}

/// A module path as it is written in source: its segments joined by `::`.
pub open spec fn display_of(segments: Seq<Seq<char>>) -> Seq<char> {
    join(segments, "::"@)
}

impl ModPath {
    /// A path made of the given segments.
    pub fn new(segments: Vec<String>) -> (p: ModPath)
        ensures
            p@ == views(segments@),
    {
        ModPath { segments }
    }

    /// The nested directory that corresponds to this path, relative to the
    /// documentation root.
    pub fn to_filepath(&self) -> (dir: String)
        ensures
            dir@ == dir_of(self@),
    {
        join_strings(&self.segments, "/")
    }

    /// The path as it is written in source.
    pub fn to_string(&self) -> (s: String)
        ensures
            s@ == display_of(self@),
    {
        join_strings(&self.segments, "::")
    }
}

} // verus!
