//! The documentation record: what it is, where it is kept and how the items
//! under it are listed.

use vstd::prelude::*;
use vstd::string::*;
use crate::kinds::DocType;
use crate::links::{link_names, link_views, DocLink, DocRelatedItems, LinkView};
use crate::path::ModPath;
use crate::payload::{
    Attributes, Constant, Enum, Function, Module, Struct, Trait, TraitItem, TraitItemKind,
    Visibility,
};
use crate::text::{
    join, join_strings, lemma_join_push, lemma_occurs_around, lemma_occurs_in_joined,
    lemma_occurs_not_in_shorter, occurs_in, views,
};

verus! {

/// What a record describes: one payload for each kind of entity.
#[derive(PartialEq, Eq, Debug)]
pub enum DocInnerData {
    FnDoc(Function),
    ModuleDoc(Module),
    EnumDoc(Enum),
    StructDoc(Struct),
    ConstDoc(Constant),
    TraitDoc(Trait),
    TraitItemDoc(TraitItem),
}

/// Whether a record can be of the category: the others are categories of
/// linked items only.
pub open spec fn is_record_type(kind: DocType) -> bool {
    match kind {
        DocType::Function
        | DocType::Module
        | DocType::Enum
        | DocType::Struct
        | DocType::Const
        | DocType::Trait
        | DocType::TraitItemConst
        | DocType::TraitItemMethod
        | DocType::TraitItemType
        | DocType::TraitItemMacro => true,
        _ => false,
    }
}

/// The category of a member of a trait.
pub open spec fn trait_item_type(node: TraitItemKind) -> DocType {
    match node {
        TraitItemKind::Const => DocType::TraitItemConst,
        TraitItemKind::Method => DocType::TraitItemMethod,
        TraitItemKind::Type => DocType::TraitItemType,
        TraitItemKind::Macro => DocType::TraitItemMacro,
    }
}

impl DocInnerData {
    /// The category of the entity: one for each kind of payload, and for a
    /// member of a trait one for each kind of member.
    pub open spec fn doc_type(&self) -> DocType {
        match self {
            DocInnerData::FnDoc(_) => DocType::Function,
            DocInnerData::ModuleDoc(_) => DocType::Module,
            DocInnerData::EnumDoc(_) => DocType::Enum,
            DocInnerData::StructDoc(_) => DocType::Struct,
            DocInnerData::ConstDoc(_) => DocType::Const,
            DocInnerData::TraitDoc(_) => DocType::Trait,
            DocInnerData::TraitItemDoc(item) => trait_item_type(item.node),
        }
    }

    /// Whether two payloads are payloads for the same kind of entity.
    pub open spec fn same_variant(&self, other: &DocInnerData) -> bool {
        match (self, other) {
            (DocInnerData::FnDoc(_), DocInnerData::FnDoc(_)) => true,
            (DocInnerData::ModuleDoc(_), DocInnerData::ModuleDoc(_)) => true,
            (DocInnerData::EnumDoc(_), DocInnerData::EnumDoc(_)) => true,
            (DocInnerData::StructDoc(_), DocInnerData::StructDoc(_)) => true,
            (DocInnerData::ConstDoc(_), DocInnerData::ConstDoc(_)) => true,
            (DocInnerData::TraitDoc(_), DocInnerData::TraitDoc(_)) => true,
            (DocInnerData::TraitItemDoc(_), DocInnerData::TraitItemDoc(_)) => true,
            _ => false,
        }
    }

    /// Whether two payloads are for the same kind of entity and, where they
    /// are for members of a trait, for the same kind of member.
    pub open spec fn same_kind(&self, other: &DocInnerData) -> bool {
        match (self, other) {
            (DocInnerData::TraitItemDoc(a), DocInnerData::TraitItemDoc(b)) => a.node == b.node,
            _ => self.same_variant(other),
        }
    }

    /// The declaration that the payload carries.
    pub open spec fn decl(&self) -> Seq<char> {
        match self {
            DocInnerData::FnDoc(p) => p.decl@,
            DocInnerData::ModuleDoc(p) => p.decl@,
            DocInnerData::EnumDoc(p) => p.decl@,
            DocInnerData::StructDoc(p) => p.decl@,
            DocInnerData::ConstDoc(p) => p.decl@,
            DocInnerData::TraitDoc(p) => p.decl@,
            DocInnerData::TraitItemDoc(p) => p.decl@,
        }
    }

    /// What the name of the record's file begins with.
    pub open spec fn file_prefix(&self) -> Seq<char> {
        match self {
            DocInnerData::ModuleDoc(_) => "mdesc-"@,
            DocInnerData::EnumDoc(_) => "edesc-"@,
            DocInnerData::StructDoc(_) => "sdesc-"@,
            DocInnerData::ConstDoc(_) => "cdesc-"@,
            DocInnerData::TraitDoc(_) => "tdesc-"@,
            DocInnerData::FnDoc(_) | DocInnerData::TraitItemDoc(_) => ""@,
        }
    }

    /// The categories of items that are listed under an entity of this kind,
    /// in the order in which they are listed.
    pub open spec fn categories(&self) -> Seq<DocType> {
        match self {
            DocInnerData::ModuleDoc(_) => seq![
                DocType::Function,
                DocType::Module,
                DocType::Enum,
                DocType::Struct,
                DocType::Trait,
                DocType::Const,
            ],
            DocInnerData::TraitDoc(_) => seq![
                DocType::AssocConst,
                DocType::TraitItemMethod,
                DocType::AssocType,
                DocType::Macro,
            ],
            DocInnerData::StructDoc(_) => seq![
                DocType::StructField,
                DocType::Function,
                DocType::AssocConst,
                DocType::AssocType,
                DocType::Macro,
            ],
            DocInnerData::EnumDoc(_) => seq![DocType::Function, DocType::Variant],
            _ => Seq::empty(),
        }
    }

    /// The declaration that the payload carries.
    pub fn declaration(&self) -> (decl: &String)
        ensures
            decl@ == self.decl(),
    {
        match self {
            DocInnerData::FnDoc(p) => &p.decl,
            DocInnerData::ModuleDoc(p) => &p.decl,
            DocInnerData::EnumDoc(p) => &p.decl,
            DocInnerData::StructDoc(p) => &p.decl,
            DocInnerData::ConstDoc(p) => &p.decl,
            DocInnerData::TraitDoc(p) => &p.decl,
            DocInnerData::TraitItemDoc(p) => &p.decl,
        }
    }

    /// The payload of the given category with the given declaration, or
    /// `None` where no record is of that category.
    pub fn of_type(kind: DocType, decl: String) -> (data: Option<DocInnerData>)
        ensures
            data is Some <==> is_record_type(kind),
            data matches Some(d) ==> d.doc_type() == kind && d.decl() == decl@,
    {
        match kind {
            DocType::Function => Some(DocInnerData::FnDoc(Function { decl })),
            DocType::Module => Some(DocInnerData::ModuleDoc(Module { decl })),
            DocType::Enum => Some(DocInnerData::EnumDoc(Enum { decl })),
            DocType::Struct => Some(DocInnerData::StructDoc(Struct { decl })),
            DocType::Const => Some(DocInnerData::ConstDoc(Constant { decl })),
            DocType::Trait => Some(DocInnerData::TraitDoc(Trait { decl })),
            DocType::TraitItemConst => Some(
                DocInnerData::TraitItemDoc(TraitItem { node: TraitItemKind::Const, decl }),
            ),
            DocType::TraitItemMethod => Some(
                DocInnerData::TraitItemDoc(TraitItem { node: TraitItemKind::Method, decl }),
            ),
            DocType::TraitItemType => Some(
                DocInnerData::TraitItemDoc(TraitItem { node: TraitItemKind::Type, decl }),
            ),
            DocType::TraitItemMacro => Some(
                DocInnerData::TraitItemDoc(TraitItem { node: TraitItemKind::Macro, decl }),
            ),
            _ => None,
        }
    }

    /// The prefix of the file name: it tells the kinds of entity apart that
    /// may share a name within one module.
    pub fn get_doc_file_prefix(&self) -> (prefix: &'static str)
        ensures
            prefix@ == self.file_prefix(),
    {
        match self {
            DocInnerData::ModuleDoc(_) => "mdesc-",
            DocInnerData::EnumDoc(_) => "edesc-",
            DocInnerData::StructDoc(_) => "sdesc-",
            DocInnerData::ConstDoc(_) => "cdesc-",
            DocInnerData::TraitDoc(_) => "tdesc-",
            DocInnerData::FnDoc(_) | DocInnerData::TraitItemDoc(_) => "",
        }
    }

    /// The categories listed under an entity of this kind, in listing order.
    pub fn subitem_categories(&self) -> (cats: Vec<DocType>)
        ensures
            cats@ == self.categories(),
    {
        let cats = match self {
            DocInnerData::ModuleDoc(_) => vec![
                DocType::Function,
                DocType::Module,
                DocType::Enum,
                DocType::Struct,
                DocType::Trait,
                DocType::Const,
            ],
            DocInnerData::TraitDoc(_) => vec![
                DocType::AssocConst,
                DocType::TraitItemMethod,
                DocType::AssocType,
                DocType::Macro,
            ],
            DocInnerData::StructDoc(_) => vec![
                DocType::StructField,
                DocType::Function,
                DocType::AssocConst,
                DocType::AssocType,
                DocType::Macro,
            ],
            DocInnerData::EnumDoc(_) => vec![DocType::Function, DocType::Variant],
            _ => Vec::new(),
        };
        assert(cats@ =~= self.categories());
        cats
    }
}

/// The listing of one category: a heading line, then one line for each link
/// with its name. A category that is absent or empty has no listing.
pub open spec fn section(links: Map<DocType, Seq<LinkView>>, kind: DocType) -> Option<Seq<char>> {
    if links.dom().contains(kind) && links[kind].len() > 0 {
        Some("==== "@ + kind.label() + "\n"@ + join(link_names(links[kind]), "\n"@))
    } else {
        None
    }
}

/// The listings of the categories of `cats` that have one, in the order of
/// `cats`.
pub open spec fn sections(links: Map<DocType, Seq<LinkView>>, cats: Seq<DocType>) -> Seq<
    Seq<char>,
>
    decreases cats.len(),
{
    if cats.len() == 0 {
        Seq::empty()
    } else {
        let before = sections(links, cats.drop_last());
        match section(links, cats.last()) {
            Some(s) => before.push(s),
            None => before,
        }
    }
}

/// The name of a record's file: the prefix of its kind, its name and the
/// extension.
pub open spec fn file_name(prefix: Seq<char>, name: Seq<char>) -> Seq<char> {
    prefix + name + ".odoc"@
}

/// The file of a record, relative to the documentation root: one directory
/// for each segment of the module path, then the file name.
pub open spec fn file_path(mod_path: Seq<Seq<char>>, file: Seq<char>) -> Seq<char> {
    join(mod_path.push(file), "/"@)
}

/// The name that stands for the documentation root in a path that has not
/// been made relative to it.
pub open spec fn root_placeholder() -> Seq<char> {
    "{{root}}"@
}

/// Whether the root placeholder occurs neither in `name` nor in a segment of
/// `mod_path`.
pub open spec fn free_of_placeholder(mod_path: Seq<Seq<char>>, name: Seq<char>) -> bool {
    &&& !occurs_in(root_placeholder(), name)
    &&& forall|i: int|
        0 <= i < mod_path.len() ==> !occurs_in(root_placeholder(), #[trigger] mod_path[i])
}

/// Payloads of the same kind are of the same category, and payloads of the
/// same category are of the same kind: the category of a record depends on
/// the kind of its payload, for a member of a trait on the kind of member,
/// and on nothing else.
pub proof fn lemma_doc_type_by_kind(a: DocInnerData, b: DocInnerData)
    ensures
        a.same_kind(&b) <==> a.doc_type() == b.doc_type(),
{
}

/// Payloads for the same kind of entity have the same file name prefix and
/// list the same categories in the same order.
pub proof fn lemma_prefix_and_categories_by_variant(a: DocInnerData, b: DocInnerData)
    requires
        a.same_variant(&b),
    ensures
        a.file_prefix() == b.file_prefix(),
        a.categories() == b.categories(),
{
}

/// The listing of a record depends on the kind of entity and on which links
/// are found under which category, not on the order in which the categories
/// were filled.
pub proof fn lemma_listing_by_links(a: NewDocTemp_, b: NewDocTemp_)
    requires
        a.inner_data.same_variant(&b.inner_data),
        a.links@ =~= b.links@,
    ensures
        a.listing() == b.listing(),
{
    lemma_prefix_and_categories_by_variant(a.inner_data, b.inner_data);
}

/// The listings of the first `upto` categories open the listings of all of
/// them.
pub proof fn lemma_sections_prefix(
    links: Map<DocType, Seq<LinkView>>,
    cats: Seq<DocType>,
    upto: int,
)
    requires
        0 <= upto <= cats.len(),
    ensures
        sections(links, cats.take(upto)).len() <= sections(links, cats).len(),
        sections(links, cats).take(sections(links, cats.take(upto)).len() as int) == sections(
            links,
            cats.take(upto),
        ),
    decreases cats.len() - upto,
{
    if upto == cats.len() {
        assert(cats.take(upto) =~= cats);
        assert(sections(links, cats).take(sections(links, cats).len() as int) =~= sections(
            links,
            cats,
        ));
    } else {
        lemma_sections_prefix(links, cats, upto + 1);
        assert(cats.take(upto + 1).drop_last() =~= cats.take(upto));
        let shorter = sections(links, cats.take(upto));
        let longer = sections(links, cats.take(upto + 1));
        assert(longer.take(shorter.len() as int) =~= shorter);
        assert(sections(links, cats).take(longer.len() as int).take(shorter.len() as int)
            =~= sections(links, cats).take(shorter.len() as int));
    }
}

/// Of two categories that both have a listing, the one that comes first in
/// `cats` has its listing first: the order of the listings is the order of
/// the categories.
pub proof fn lemma_sections_order(
    links: Map<DocType, Seq<LinkView>>,
    cats: Seq<DocType>,
    i: int,
    j: int,
)
    requires
        0 <= i < j < cats.len(),
        section(links, cats[i]) is Some,
        section(links, cats[j]) is Some,
    ensures
        ({
            let all = sections(links, cats);
            let p = sections(links, cats.take(i)).len() as int;
            let q = sections(links, cats.take(j)).len() as int;
            &&& p < q < all.len()
            &&& Some(all[p]) == section(links, cats[i])
            &&& Some(all[q]) == section(links, cats[j])
        }),
{
    let all = sections(links, cats);
    let upto_i = sections(links, cats.take(i));
    let past_i = sections(links, cats.take(i + 1));
    let upto_j = sections(links, cats.take(j));
    let past_j = sections(links, cats.take(j + 1));
    assert(cats.take(i + 1).drop_last() =~= cats.take(i));
    assert(cats.take(j + 1).drop_last() =~= cats.take(j));
    assert(cats.take(i + 1).last() == cats[i]);
    assert(cats.take(j + 1).last() == cats[j]);
    lemma_sections_prefix(links, cats, i + 1);
    lemma_sections_prefix(links, cats, j + 1);
    assert(cats.take(j).take(i + 1) =~= cats.take(i + 1));
    lemma_sections_prefix(links, cats.take(j), i + 1);
    assert(all.take(past_i.len() as int)[upto_i.len() as int] == past_i[upto_i.len() as int]);
    assert(all.take(past_j.len() as int)[upto_j.len() as int] == past_j[upto_j.len() as int]);
}

/// A pattern that does not hold `-` and is not shorter than `prefix`, where
/// `prefix` is empty or ends in `-`, occurs in `prefix + name` exactly if it
/// occurs in `name`.
proof fn lemma_occurs_after_prefix(pattern: Seq<char>, prefix: Seq<char>, name: Seq<char>)
    requires
        !pattern.contains('-'),
        prefix.len() <= pattern.len(),
        prefix.len() > 0 ==> prefix.last() == '-',
    ensures
        occurs_in(pattern, prefix + name) <==> occurs_in(pattern, name),
{
    if prefix.len() == 0 {
        assert(prefix + name =~= name);
    } else {
        let stem = prefix.drop_last();
        assert(prefix + name =~= stem + seq!['-'] + name);
        lemma_occurs_around(pattern, stem, '-', name);
        lemma_occurs_not_in_shorter(pattern, stem);
    }
}

/// The file name of a record is never the root placeholder, whatever the
/// name of the record: it ends in the extension.
pub proof fn lemma_file_name_not_placeholder(item: NewDocTemp_)
    ensures
        item.file_name() != root_placeholder(),
{
    reveal_strlit("{{root}}");
    reveal_strlit(".odoc");
    let file = item.file_name();
    if file.len() == root_placeholder().len() {
        assert(file[file.len() - 1] == 'c');
        assert(root_placeholder()[7] == '}');
    }
}

/// The file path of a record holds the root placeholder exactly if the name
/// of the record or a segment of its module path holds it.
pub proof fn lemma_file_path_placeholder(item: NewDocTemp_)
    ensures
        !occurs_in(root_placeholder(), item.file_path()) <==> free_of_placeholder(
            item.mod_path@,
            item.name@,
        ),
{
    let pattern = root_placeholder();
    let prefix = item.inner_data.file_prefix();
    let name = item.name@;
    let file = item.file_name();
    let parts = item.mod_path@.push(file);
    reveal_strlit("{{root}}");
    reveal_strlit("/");
    reveal_strlit(".odoc");
    reveal_strlit("mdesc-");
    reveal_strlit("edesc-");
    reveal_strlit("sdesc-");
    reveal_strlit("cdesc-");
    reveal_strlit("tdesc-");
    reveal_strlit("");
    assert(!pattern.contains('/') && !pattern.contains('-') && !pattern.contains('.'));
    assert("/"@ =~= seq!['/']);
    // The file name holds the pattern exactly if the name does.
    lemma_occurs_after_prefix(pattern, prefix, name);
    let tail = ".odoc"@.subrange(1, 5);
    assert(file =~= (prefix + name) + seq!['.'] + tail);
    lemma_occurs_around(pattern, prefix + name, '.', tail);
    lemma_occurs_not_in_shorter(pattern, tail);
    assert(occurs_in(pattern, file) <==> occurs_in(pattern, name));
    // The path holds it exactly if one of its parts does.
    lemma_occurs_in_joined(pattern, parts, '/');
    if occurs_in(pattern, item.file_path()) {
        let i = choose|i: int| 0 <= i < parts.len() && occurs_in(pattern, #[trigger] parts[i]);
        if i < item.mod_path@.len() {
            assert(occurs_in(pattern, item.mod_path@[i]));
        }
    }
    if !free_of_placeholder(item.mod_path@, name) {
        if occurs_in(pattern, name) {
            assert(occurs_in(pattern, parts[parts.len() - 1]));
        } else {
            let i = choose|i: int|
                0 <= i < item.mod_path@.len() && occurs_in(pattern, #[trigger] item.mod_path@[i]);
            assert(occurs_in(pattern, parts[i]));
        }
    }
}

/// A documentation record for one source entity.
#[derive(PartialEq, Eq, Debug)]
pub struct NewDocTemp_ {
    pub name: String,
    pub attrs: Attributes,
    pub mod_path: ModPath,
    pub inner_data: DocInnerData,
    pub visibility: Option<Visibility>,
    pub links: DocRelatedItems,
}

/// What a record holds.
pub struct DocView {
    pub name: Seq<char>,
    pub attrs: Seq<Seq<char>>,
    pub mod_path: Seq<Seq<char>>,
    pub kind: DocType,
    pub decl: Seq<char>,
    pub visibility: Option<Visibility>,
    pub links: Map<DocType, Seq<LinkView>>,
}

impl View for NewDocTemp_ {
    type V = DocView;

    open spec fn view(&self) -> DocView {
        DocView {
            name: self.name@,
            attrs: self.attrs@,
            mod_path: self.mod_path@,
            kind: self.inner_data.doc_type(),
            decl: self.inner_data.decl(),
            visibility: self.visibility,
            links: self.links@,
        }
    }
}

impl NewDocTemp_ {
    /// The name of the file that holds this record.
    pub open spec fn file_name(&self) -> Seq<char> {
        file_name(self.inner_data.file_prefix(), self.name@)
    }

    /// The file that holds this record, relative to the documentation root.
    pub open spec fn file_path(&self) -> Seq<char> {
        file_path(self.mod_path@, self.file_name())
    }

    /// The listing of the items under this record: the listings of the
    /// categories of its kind, a blank line between neighbours.
    pub open spec fn listing(&self) -> Seq<char> {
        join(sections(self.links@, self.inner_data.categories()), "\n\n"@)
    }

    /// The name of the file that holds this record.
    pub fn get_doc_filename(&self) -> (file: String)
        ensures
            file@ == self.file_name(),
    {
        let mut file = String::from_str(self.inner_data.get_doc_file_prefix());
        file.append(self.name.as_str());
        file.append(".odoc");
        file
    }

    /// The category of this record.
    pub fn get_type(&self) -> (kind: DocType)
        ensures
            kind == self.inner_data.doc_type(),
    {
        match &self.inner_data {
            DocInnerData::FnDoc(_) => DocType::Function,
            DocInnerData::ModuleDoc(_) => DocType::Module,
            DocInnerData::EnumDoc(_) => DocType::Enum,
            DocInnerData::StructDoc(_) => DocType::Struct,
            DocInnerData::ConstDoc(_) => DocType::Const,
            DocInnerData::TraitDoc(_) => DocType::Trait,
            DocInnerData::TraitItemDoc(item) => match item.node {
                TraitItemKind::Const => DocType::TraitItemConst,
                TraitItemKind::Method => DocType::TraitItemMethod,
                TraitItemKind::Type => DocType::TraitItemType,
                TraitItemKind::Macro => DocType::TraitItemMacro,
            },
        }
    }

    /// The listing of the items under this record. Which categories are
    /// listed, and in which order, depends on the kind of the record alone;
    /// a category without links is left out.
    pub fn subitems(&self) -> (text: String)
        ensures
            text@ == self.listing(),
    {
        let categories = self.inner_data.subitem_categories();
        let mut parts: Vec<String> = Vec::new();
        let mut i: usize = 0;
        while i < categories.len()
            invariant
                i <= categories.len(),
                categories@ == self.inner_data.categories(),
                views(parts@) == sections(self.links@, categories@.take(i as int)),
            decreases categories.len() - i,
        {
            proof {
                assert(categories@.take(i + 1).drop_last() =~= categories@.take(i as int));
            }
            let ghost before = views(parts@);
            match self.subitems_in_category(&categories[i]) {
                Some(s) => {
                    parts.push(s);
                    assert(views(parts@) =~= before.push(s@));
                },
                None => {},
            }
            i += 1;
        }
        assert(categories@.take(categories.len() as int) =~= categories@);
        join_strings(&parts, "\n\n")
    }

    /// The listing of one category, or `None` where this record has no link
    /// of that category.
    pub fn subitems_in_category(&self, type_: &DocType) -> (text: Option<String>)
        ensures
            text is Some <==> section(self.links@, *type_) is Some,
            text matches Some(s) ==> Some(s@) == section(self.links@, *type_),
    {
        match self.links.get(type_) {
            Some(items) => {
                if items.len() > 0 {
                    let mut names: Vec<String> = Vec::new();
                    let mut i: usize = 0;
                    while i < items.len()
                        invariant
                            i <= items.len(),
                            views(names@) == link_names(link_views(items@)).take(i as int),
                        decreases items.len() - i,
                    {
                        let ghost before = views(names@);
                        names.push(items[i].name.clone());
                        assert(views(names@) =~= before.push(items[i as int].name@));
                        assert(views(names@) =~= link_names(link_views(items@)).take(i + 1));
                        i += 1;
                    }
                    assert(link_names(link_views(items@)).take(items.len() as int) =~= link_names(
                        link_views(items@),
                    ));
                    let items_str = join_strings(&names, "\n");
                    let mut text = String::from_str("==== ");
                    text.append(type_.as_str());
                    text.append("\n");
                    text.append(items_str.as_str());
                    Some(text)
                } else {
                    None
                }
            },
            None => None,
        }
    }

    /// The file that holds this record, relative to the documentation root:
    /// the directories of its module path, then its file name.
    pub fn to_filepath(&self) -> (path: String)
        ensures
            path@ == self.file_path(),
            free_of_placeholder(self.mod_path@, self.name@) ==> !occurs_in(
                root_placeholder(),
                path@,
            ),
    {
        let file = self.get_doc_filename();
        proof {
            lemma_join_push(self.mod_path@, file@, "/"@);
            lemma_file_path_placeholder(*self);
        }
        if self.mod_path.segments.len() == 0 {
            file
        } else {
            let mut path = self.mod_path.to_filepath();
            path.append("/");
            path.append(file.as_str());
            path
        }
    }
}

} // verus!
