//! References from a record to the items that belong under it.

use vstd::prelude::*;
use crate::kinds::DocType;
use crate::path::ModPath;

verus! {

/// A reference to another documented item: the name it is shown under and
/// the module path it is found at.
#[derive(Hash, PartialEq, Eq, Debug)]
pub struct DocLink {
    pub name: String,
    pub path: ModPath,
}

/// What a link holds.
pub struct LinkView {
    pub name: Seq<char>,
    pub path: Seq<Seq<char>>,
}

impl View for DocLink {
    type V = LinkView;

    open spec fn view(&self) -> LinkView {
        LinkView { name: self.name@, path: self.path@ }
    }
}

impl Clone for DocLink {
    fn clone(&self) -> (copy: DocLink)
        ensures
            copy@ == self@,
    {
        DocLink { name: self.name.clone(), path: self.path.clone() }
    }
}

/// What a list of links holds, in order.
pub open spec fn link_views(links: Seq<DocLink>) -> Seq<LinkView> {
    Seq::new(links.len(), |i: int| links[i]@)
}

/// The names of a list of links, in order.
pub open spec fn link_names(links: Seq<LinkView>) -> Seq<Seq<char>> {
    Seq::new(links.len(), |i: int| links[i].name)
}

/// For each category, the links listed under it, in the order in which they
/// were given. A category is either absent or holds one list.
#[derive(PartialEq, Eq, Debug)]
pub struct DocRelatedItems {
    slots: Vec<Option<Vec<DocLink>>>,
}

impl DocRelatedItems {
    #[verifier::type_invariant]
    spec fn well_formed(&self) -> bool {
        self.slots@.len() == DocType::count()
    }

    /// An empty mapping.
    pub fn new() -> (m: DocRelatedItems)
        ensures
            m@ == Map::<DocType, Seq<LinkView>>::empty(),
    {
        let mut slots: Vec<Option<Vec<DocLink>>> = Vec::new();
        let mut i: usize = 0;
        while i < 15
            invariant
                i <= 15,
                slots@.len() == i,
                forall|j: int| 0 <= j < i ==> slots@[j] is None,
            decreases 15 - i,
        {
            slots.push(None);
            i += 1;
        }
        let m = DocRelatedItems { slots };
        assert(m@ =~= Map::<DocType, Seq<LinkView>>::empty());
        m
    }

    /// Puts `links` under `kind` and hands back the list that was there
    /// before, if there was one.
    pub fn insert(&mut self, kind: DocType, links: Vec<DocLink>) -> (old_links: Option<
        Vec<DocLink>,
    >)
        ensures
            final(self)@ == old(self)@.insert(kind, link_views(links@)),
            old_links is Some <==> old(self)@.dom().contains(kind),
            old_links matches Some(l) ==> link_views(l@) == old(self)@[kind],
    {
        proof {
            use_type_invariant(&*self);
        }
        let i = kind.to_index();
        let mut slot = Some(links);
        std::mem::swap(&mut self.slots[i], &mut slot);
        assert(self@ =~= old(self)@.insert(kind, link_views(links@)));
        slot
    }

    /// The links listed under `kind`, if the category is present.
    pub fn get(&self, kind: &DocType) -> (found: Option<&Vec<DocLink>>)
        ensures
            found is Some <==> self@.dom().contains(*kind),
            found matches Some(l) ==> link_views(l@) == self@[*kind],
    {
        proof {
            use_type_invariant(self);
        }
        self.slots[kind.to_index()].as_ref()
    }
}

impl View for DocRelatedItems {
    type V = Map<DocType, Seq<LinkView>>;

    closed spec fn view(&self) -> Map<DocType, Seq<LinkView>> {
        Map::new(
            |k: DocType| self.slots@[k.index() as int] is Some,
            |k: DocType| link_views(self.slots@[k.index() as int].unwrap()@),
        )
    }
}

} // verus!
