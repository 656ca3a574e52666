//! The categories a documentation record, or an item it links to, can fall in.

use vstd::prelude::*;
use vstd::string::*;

verus! {

/// The category of a documented item.
#[derive(Clone, Copy, PartialEq, Eq, Structural, Hash, Debug)]
pub enum DocType {
    Function,
    Module,
    Enum,
    Variant,
    Struct,
    StructField,
    Const,
    Trait,
    AssocConst,
    TraitItemMethod,
    TraitItemConst,
    TraitItemType,
    TraitItemMacro,
    AssocType,
    Macro,
}

impl DocType {
    /// The heading under which items of this category are listed.
    pub open spec fn label(self) -> Seq<char> {
        match self {
            DocType::Function => "Functions"@,
            DocType::Module => "Modules"@,
            DocType::Enum => "Enums"@,
            DocType::Variant => "Variants"@,
            DocType::Struct => "Structs"@,
            DocType::StructField => "Struct Fields"@,
            DocType::Const => "Constants"@,
            DocType::Trait => "Traits"@,
            DocType::AssocConst => "Associated Constants"@,
            DocType::TraitItemConst => "Trait Constants"@,
            DocType::TraitItemMethod => "Trait Methods"@,
            DocType::TraitItemType => "Trait Types"@,
            DocType::TraitItemMacro => "Trait Macros"@,
            DocType::AssocType => "Associated Types"@,
            DocType::Macro => "Macros"@,
        }
    }

    /// How many categories there are.
    pub open spec fn count() -> nat {
        15
    }

    /// The position of this category in the declaration order, from 0.
    pub open spec fn index(self) -> nat {
        match self {
            DocType::Function => 0,
            DocType::Module => 1,
            DocType::Enum => 2,
            DocType::Variant => 3,
            DocType::Struct => 4,
            DocType::StructField => 5,
            DocType::Const => 6,
            DocType::Trait => 7,
            DocType::AssocConst => 8,
            DocType::TraitItemMethod => 9,
            DocType::TraitItemConst => 10,
            DocType::TraitItemType => 11,
            DocType::TraitItemMacro => 12,
            DocType::AssocType => 13,
            DocType::Macro => 14,
        }
    }

    /// The category at a position, if the position is one.
    pub open spec fn at(i: nat) -> Option<DocType> {
        if i == 0 {
            Some(DocType::Function)
        } else if i == 1 {
            Some(DocType::Module)
        } else if i == 2 {
            Some(DocType::Enum)
        } else if i == 3 {
            Some(DocType::Variant)
        } else if i == 4 {
            Some(DocType::Struct)
        } else if i == 5 {
            Some(DocType::StructField)
        } else if i == 6 {
            Some(DocType::Const)
        } else if i == 7 {
            Some(DocType::Trait)
        } else if i == 8 {
            Some(DocType::AssocConst)
        } else if i == 9 {
            Some(DocType::TraitItemMethod)
        } else if i == 10 {
            Some(DocType::TraitItemConst)
        } else if i == 11 {
            Some(DocType::TraitItemType)
        } else if i == 12 {
            Some(DocType::TraitItemMacro)
        } else if i == 13 {
            Some(DocType::AssocType)
        } else if i == 14 {
            Some(DocType::Macro)
        } else {
            None
        }
    }

    /// Positions and categories correspond one to one.
    pub proof fn lemma_index_at(self)
        ensures
            self.index() < DocType::count(),
            DocType::at(self.index()) == Some(self),
    {
    }

    /// A position below the count is the position of the category found
    /// there, and no other position holds a category.
    pub proof fn lemma_at_index(i: nat)
        ensures
            DocType::at(i) is Some <==> i < DocType::count(),
            DocType::at(i) matches Some(k) ==> k.index() == i,
    {
    }

    /// The position of this category.
    pub fn to_index(&self) -> (i: usize)
        ensures
            i == self.index(),
            i < DocType::count(),
    {
        match self {
            DocType::Function => 0,
            DocType::Module => 1,
            DocType::Enum => 2,
            DocType::Variant => 3,
            DocType::Struct => 4,
            DocType::StructField => 5,
            DocType::Const => 6,
            DocType::Trait => 7,
            DocType::AssocConst => 8,
            DocType::TraitItemMethod => 9,
            DocType::TraitItemConst => 10,
            DocType::TraitItemType => 11,
            DocType::TraitItemMacro => 12,
            DocType::AssocType => 13,
            DocType::Macro => 14,
        }
    }

    /// The category at position `i`, or `None` where `i` is no position.
    pub fn from_index(i: usize) -> (kind: Option<DocType>)
        ensures
            kind == DocType::at(i as nat),
    {
        match i {
            0 => Some(DocType::Function),
            1 => Some(DocType::Module),
            2 => Some(DocType::Enum),
            3 => Some(DocType::Variant),
            4 => Some(DocType::Struct),
            5 => Some(DocType::StructField),
            6 => Some(DocType::Const),
            7 => Some(DocType::Trait),
            8 => Some(DocType::AssocConst),
            9 => Some(DocType::TraitItemMethod),
            10 => Some(DocType::TraitItemConst),
            11 => Some(DocType::TraitItemType),
            12 => Some(DocType::TraitItemMacro),
            13 => Some(DocType::AssocType),
            14 => Some(DocType::Macro),
            _ => None,
        }
    }

    /// The heading as a string slice.
    pub fn as_str(&self) -> (s: &'static str)
        ensures
            s@ == self.label(),
    {
        match self {
            DocType::Function => "Functions",
            DocType::Module => "Modules",
            DocType::Enum => "Enums",
            DocType::Variant => "Variants",
            DocType::Struct => "Structs",
            DocType::StructField => "Struct Fields",
            DocType::Const => "Constants",
            DocType::Trait => "Traits",
            DocType::AssocConst => "Associated Constants",
            DocType::TraitItemConst => "Trait Constants",
            DocType::TraitItemMethod => "Trait Methods",
            DocType::TraitItemType => "Trait Types",
            DocType::TraitItemMacro => "Trait Macros",
            DocType::AssocType => "Associated Types",
            DocType::Macro => "Macros",
        }
    }

    /// The heading as an owned string.
    pub fn to_string(&self) -> (s: String)
        ensures
            s@ == self.label(),
    {
        String::from_str(self.as_str())
    }
}

} // verus!
