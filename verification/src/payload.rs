//! What a documentation record carries about the entity it describes.
//!
//! The payloads are produced by whoever walks the source; this crate keeps
//! them as they are and reads only which kind of entity they stand for.

use vstd::prelude::*;
use vstd::string::*;
use crate::text::views;

verus! {

/// How far an item can be seen from outside its module.
#[derive(Clone, Copy, PartialEq, Eq, Structural, Hash, Debug)]
pub enum Visibility {
    Public,
    Restricted,
    Private,
}

impl Visibility {
    /// The marker written in front of an item of this visibility.
    pub open spec fn token(self) -> Seq<char> {
        match self {
            Visibility::Public => "pub"@,
            _ => ""@,
        }
    }

    /// The number that stands for this visibility in a plain record.
    pub open spec fn tag(self) -> u32 {
        match self {
            Visibility::Public => 0,
            Visibility::Restricted => 1,
            Visibility::Private => 2,
        }
    }

    /// The visibility that a number stands for, if it stands for one.
    pub open spec fn at(tag: u32) -> Option<Visibility> {
        if tag == 0 {
            Some(Visibility::Public)
        } else if tag == 1 {
            Some(Visibility::Restricted)
        } else if tag == 2 {
            Some(Visibility::Private)
        } else {
            None
        }
    }

    /// The number that stands for this visibility.
    pub fn to_tag(&self) -> (tag: u32)
        ensures
            tag == self.tag(),
    {
        match self {
            Visibility::Public => 0,
            Visibility::Restricted => 1,
            Visibility::Private => 2,
        }
    }

    /// The visibility that `tag` stands for, or `None` where it stands for
    /// none.
    pub fn from_tag(tag: u32) -> (visibility: Option<Visibility>)
        ensures
            visibility == Visibility::at(tag),
    {
        match tag {
            0 => Some(Visibility::Public),
            1 => Some(Visibility::Restricted),
            2 => Some(Visibility::Private),
            _ => None,
        }
    }

    /// The marker as a string slice: `pub` for a public item, nothing for
    /// any other.
    pub fn as_str(&self) -> (s: &'static str)
        ensures
            s@ == self.token(),
    {
        match self {
            Visibility::Public => "pub",
            _ => "",
        }
    }

    /// The marker as an owned string.
    pub fn to_string(&self) -> (s: String)
        ensures
            s@ == self.token(),
    {
        String::from_str(self.as_str())
    }
}

/// The marker of an optional visibility: an item without one is written like
/// an item that is not public.
pub open spec fn visibility_token(visibility: Option<Visibility>) -> Seq<char> {
    match visibility {
        Some(v) => v.token(),
        None => ""@,
    }
}

/// The marker of an optional visibility: `pub` where the item is known to be
/// public, nothing where it is not or where its visibility is not known.
pub fn render_visibility(visibility: &Option<Visibility>) -> (s: String)
    ensures
        s@ == visibility_token(*visibility),
{
    match visibility {
        Some(v) => v.to_string(),
        None => String::from_str(""),
    }
}

/// The attributes and doc comments attached to an item, in source order.
#[derive(PartialEq, Eq, Debug)]
pub struct Attributes {
    pub entries: Vec<String>,
}

impl View for Attributes {
    type V = Seq<Seq<char>>;

    open spec fn view(&self) -> Seq<Seq<char>> {
        views(self.entries@)
    }
}

/// A function, by its declaration.
#[derive(PartialEq, Eq, Debug)]
pub struct Function {
    pub decl: String,
}

/// A module, by its declaration.
#[derive(PartialEq, Eq, Debug)]
pub struct Module {
    pub decl: String,
}

/// An enum, by its declaration.
#[derive(PartialEq, Eq, Debug)]
pub struct Enum {
    pub decl: String,
}

/// A struct, by its declaration.
#[derive(PartialEq, Eq, Debug)]
pub struct Struct {
    pub decl: String,
}

/// A constant, by its declaration.
#[derive(PartialEq, Eq, Debug)]
pub struct Constant {
    pub decl: String,
}

/// A trait, by its declaration.
#[derive(PartialEq, Eq, Debug)]
pub struct Trait {
    pub decl: String,
}

/// Which kind of member of a trait an item is.
#[derive(Clone, Copy, PartialEq, Eq, Structural, Hash, Debug)]
pub enum TraitItemKind {
    Const,
    Method,
    Type,
    Macro,
}

/// A member of a trait: its kind and its declaration.
#[derive(PartialEq, Eq, Debug)]
pub struct TraitItem {
    pub node: TraitItemKind,
    pub decl: String,
}

} // verus!
