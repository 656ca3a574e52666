//! The plain form of a record and its encoding.
//!
//! A record is written to its file as bytes. On the way it takes a plain form
//! made of strings, numbers and lists alone, in which categories, kinds and
//! visibilities are numbers. The plain form is what the encoder is given and
//! what the decoder gives back; turning a record into it and checking what
//! came back is done here.

use vstd::prelude::*;
use vstd::string::*;
use crate::item::{is_record_type, DocInnerData, DocView, NewDocTemp_};
use crate::kinds::DocType;
use crate::links::{link_views, DocLink, DocRelatedItems, LinkView};
use crate::path::ModPath;
use crate::payload::{Attributes, Visibility};
use crate::text::{copy_strings, same_strings, views};

verus! {

/// A link in plain form: its name and the segments of its path.
pub type PlainLink = (String, Vec<String>);

/// A record in plain form: its name, its attributes, the segments of its
/// module path, the number of its category with its declaration, the number
/// of its visibility, and for each category that has links the number of the
/// category with the links.
pub type Record = (
    String,
    Vec<String>,
    Vec<String>,
    (u32, String),
    Option<u32>,
    Vec<(u32, Vec<PlainLink>)>,
);

/// What a link in plain form holds.
pub type PlainLinkView = (Seq<char>, Seq<Seq<char>>);

/// What a record in plain form holds.
pub type RecordView = (
    Seq<char>,
    Seq<Seq<char>>,
    Seq<Seq<char>>,
    (u32, Seq<char>),
    Option<u32>,
    Seq<(u32, Seq<PlainLinkView>)>,
);

/// Why a plain record is not the plain form of any record.
#[derive(Clone, Copy, PartialEq, Eq, Structural, Debug)]
pub enum RecordError {
    /// The number given for the category is not that of a category that a
    /// record can be of.
    UnknownKind(u32),
    /// The number given for the visibility stands for none.
    UnknownVisibility(u32),
    /// The number given for a category of links stands for none.
    UnknownCategory(u32),
}

/// Why a record could not be turned into bytes.
#[derive(PartialEq, Eq, Debug)]
pub enum EncodeError {
    /// The encoder failed; `reason` is what it said.
    Encoder { reason: String },
    /// The decoder failed on the bytes that the encoder had made; `reason`
    /// is what it said.
    Decoder { reason: String },
    /// The decoder read the bytes that the encoder had made as another plain
    /// record than the one they were made from.
    Mismatch,
}

impl EncodeError {
    /// What went wrong: what the encoder or the decoder said, or that the
    /// bytes were read back as something else.
    pub open spec fn text(&self) -> Seq<char> {
        match self {
            EncodeError::Encoder { reason } => reason@,
            EncodeError::Decoder { reason } => reason@,
            EncodeError::Mismatch => "The encoded record does not read back as it was"@,
        }
    }

    /// What went wrong, as a string.
    pub fn to_string(&self) -> (s: String)
        ensures
            s@ == self.text(),
    {
        match self {
            EncodeError::Encoder { reason } => reason.clone(),
            EncodeError::Decoder { reason } => reason.clone(),
            EncodeError::Mismatch => String::from_str(
                "The encoded record does not read back as it was",
            ),
        }
    }
}

/// Why bytes could not be read as a record.
#[derive(Debug)]
pub enum DecodeError {
    /// The bytes are not the encoding of a plain record.
    Malformed { reason: String },
    /// The bytes hold a plain record that is not the plain form of a record.
    Invalid(RecordError),
}

/// Links in plain form.
pub open spec fn plain_links(links: Seq<LinkView>) -> Seq<PlainLinkView> {
    Seq::new(links.len(), |i: int| (links[i].name, links[i].path))
}

/// The links that plain links stand for.
pub open spec fn linked(plain: Seq<PlainLinkView>) -> Seq<LinkView> {
    Seq::new(plain.len(), |i: int| LinkView { name: plain[i].0, path: plain[i].1 })
}

/// The link lists of the categories whose position is below `upto`, each with
/// the position of its category, by rising position.
pub open spec fn link_entries(links: Map<DocType, Seq<LinkView>>, upto: nat) -> Seq<
    (u32, Seq<PlainLinkView>),
>
    decreases upto,
{
    if upto == 0 {
        Seq::empty()
    } else {
        let before = link_entries(links, (upto - 1) as nat);
        match DocType::at((upto - 1) as nat) {
            Some(kind) if links.dom().contains(kind) => before.push(
                ((upto - 1) as u32, plain_links(links[kind])),
            ),
            _ => before,
        }
    }
}

/// The plain form of a record.
pub open spec fn record_of(doc: DocView) -> RecordView {
    (
        doc.name,
        doc.attrs,
        doc.mod_path,
        (doc.kind.index() as u32, doc.decl),
        match doc.visibility {
            Some(v) => Some(v.tag()),
            None => None,
        },
        link_entries(doc.links, DocType::count()),
    )
}

/// The mapping that numbered link lists stand for, or the first number among
/// them that is not that of a category. Where a category comes twice, the
/// later list stands.
pub open spec fn links_of(entries: Seq<(u32, Seq<PlainLinkView>)>) -> Result<
    Map<DocType, Seq<LinkView>>,
    RecordError,
>
    decreases entries.len(),
{
    if entries.len() == 0 {
        Ok(Map::empty())
    } else {
        match links_of(entries.drop_last()) {
            Err(e) => Err(e),
            Ok(links) => match DocType::at(entries.last().0 as nat) {
                Some(kind) => Ok(links.insert(kind, linked(entries.last().1))),
                None => Err(RecordError::UnknownCategory(entries.last().0)),
            },
        }
    }
}

/// The record that a plain record stands for, or the first thing in it that
/// stands for nothing: the category is looked at first, then the visibility,
/// then the links.
pub open spec fn doc_of(record: RecordView) -> Result<DocView, RecordError> {
    match DocType::at(record.3.0 as nat) {
        Some(kind) if is_record_type(kind) => {
            let visibility = match record.4 {
                Some(tag) => Visibility::at(tag),
                None => None,
            };
            if record.4 is Some && visibility is None {
                Err(RecordError::UnknownVisibility(record.4.unwrap()))
            } else {
                match links_of(record.5) {
                    Err(e) => Err(e),
                    Ok(links) => Ok(
                        DocView {
                            name: record.0,
                            attrs: record.1,
                            mod_path: record.2,
                            kind,
                            decl: record.3.1,
                            visibility,
                            links,
                        },
                    ),
                }
            }
        },
        _ => Err(RecordError::UnknownKind(record.3.0)),
    }
}

/// Whether `bytes` are read as the record `doc`: the decoder reads a plain
/// record from them, and that plain record stands for `doc`.
pub open spec fn reads_as(bytes: Seq<u8>, doc: DocView) -> bool {
    decoding(bytes) matches Some(record) && doc_of(record) == Ok::<DocView, RecordError>(doc)
}

/// The bytes that stand for the record `doc`: those that the encoder gives
/// for its plain form, where it gives any and the decoder reads them as that
/// plain form again.
pub open spec fn bytes_of(doc: DocView) -> Option<Seq<u8>> {
    match encoding(record_of(doc)) {
        Some(bytes) => if decoding(bytes) == Some(record_of(doc)) {
            Some(bytes)
        } else {
            None
        },
        None => None,
    }
}

/// The bytes that the encoder gives for a plain record, if it gives any.
pub uninterp spec fn encoding(record: RecordView) -> Option<Seq<u8>>;

/// The plain record that the decoder reads from bytes, if it reads one.
pub uninterp spec fn decoding(bytes: Seq<u8>) -> Option<RecordView>;

/// The error of `bincode`, of which nothing but its text is used.
#[verifier::external_type_specification]
#[verifier::external_body]
pub struct ExErrorKind(bincode::ErrorKind);

/// Calls `bincode::serialize` on a plain record, with no limit on the size.
/// It writes into a vector, so whether it gives bytes, and which, depends on
/// the strings, numbers and lists of the record alone. That is named:
/// `encoding`, which is `None` where the call fails. Nothing says that the
/// call succeeds.
#[verifier::external_body]
fn serialize_record(record: &Record) -> (res: Result<Vec<u8>, Box<bincode::ErrorKind>>)
    ensures
        res matches Ok(bytes) ==> encoding(record.deep_view()) == Some(bytes@),
        res is Err ==> encoding(record.deep_view()) is None,
{
    bincode::serialize(record, bincode::Infinite)
}

/// Calls `bincode::deserialize` for a plain record. What it reads depends on
/// the bytes alone, so it is named: `decoding`, which is `None` where the
/// call fails.
#[verifier::external_body]
fn deserialize_record(bytes: &[u8]) -> (res: Result<Record, Box<bincode::ErrorKind>>)
    ensures
        res matches Ok(record) ==> decoding(bytes@) == Some(record.deep_view()),
        res is Err ==> decoding(bytes@) is None,
{
    bincode::deserialize(bytes)
}

/// The text of an error of `bincode`, as its `Display` writes it.
#[verifier::external_body]
fn error_text(error: &bincode::ErrorKind) -> String {
    error.to_string()
}

/// The deep view of a list of strings is the list of their texts.
pub proof fn lemma_strings_deep_view(strings: Vec<String>)
    ensures
        strings.deep_view() == views(strings@),
{
    assert(strings.deep_view() =~= views(strings@));
}

/// Turning links into plain form and back gives the links.
pub proof fn lemma_linked_plain(links: Seq<LinkView>)
    ensures
        linked(plain_links(links)) == links,
{
    assert(linked(plain_links(links)) =~= links);
}

/// The numbered link lists of the categories below `upto` stand for the
/// mapping of those categories.
pub proof fn lemma_links_of_entries(links: Map<DocType, Seq<LinkView>>, upto: nat)
    requires
        upto <= DocType::count(),
    ensures
        links_of(link_entries(links, upto)) == Ok::<Map<DocType, Seq<LinkView>>, RecordError>(
            links.restrict(Set::new(|k: DocType| k.index() < upto)),
        ),
    decreases upto,
{
    let below = |n: nat| Set::new(|k: DocType| k.index() < n);
    if upto == 0 {
        assert(links.restrict(below(0)) =~= Map::empty());
    } else {
        let at = (upto - 1) as nat;
        lemma_links_of_entries(links, at);
        DocType::lemma_at_index(at);
        let kind = DocType::at(at).unwrap();
        let before = link_entries(links, at);
        if links.dom().contains(kind) {
            let entries = before.push((at as u32, plain_links(links[kind])));
            assert(entries.drop_last() =~= before);
            lemma_linked_plain(links[kind]);
            assert(links.restrict(below(at)).insert(kind, links[kind]) =~= links.restrict(
                below(upto),
            )) by {
                assert forall|k: DocType| k.index() < upto <==> (k.index() < at || k == kind) by {
                    k.lemma_index_at();
                }
            }
        } else {
            assert(links.restrict(below(at)) =~= links.restrict(below(upto))) by {
                assert forall|k: DocType| k.index() < upto <==> (k.index() < at || k == kind) by {
                    k.lemma_index_at();
                }
            }
        }
    }
}

/// Turning a record into a plain record and reading that plain record gives
/// the record: the plain form loses nothing, neither the kind of the record
/// nor whether a category is absent or empty, and it is read without an
/// error.
pub proof fn lemma_record_round_trip(item: NewDocTemp_)
    ensures
        doc_of(record_of(item@)) == Ok::<DocView, RecordError>(item@),
{
    let doc = item@;
    let record = record_of(doc);
    doc.kind.lemma_index_at();
    assert(DocType::at(record.3.0 as nat) == Some(doc.kind));
    assert(is_record_type(doc.kind));
    lemma_links_of_entries(doc.links, DocType::count());
    assert(doc.links.restrict(Set::new(|k: DocType| k.index() < DocType::count())) =~= doc.links)
        by {
        assert forall|k: DocType| k.index() < DocType::count() by {
            k.lemma_index_at();
        }
    }
    match doc.visibility {
        Some(v) => {
            assert(Visibility::at(v.tag()) == Some(v));
        },
        None => {},
    }
}

/// Whether two lists of plain links hold the same links in the same order.
pub fn same_plain_links(a: &Vec<PlainLink>, b: &Vec<PlainLink>) -> (same: bool)
    ensures
        same == (a.deep_view() == b.deep_view()),
{
    if a.len() != b.len() {
        assert(a.deep_view().len() != b.deep_view().len());
        return false;
    }
    let mut i: usize = 0;
    while i < a.len()
        invariant
            a.len() == b.len(),
            i <= a.len(),
            forall|j: int| 0 <= j < i ==> a.deep_view()[j] == b.deep_view()[j],
        decreases a.len() - i,
    {
        proof {
            lemma_strings_deep_view(a[i as int].1);
            lemma_strings_deep_view(b[i as int].1);
        }
        if a[i].0 != b[i].0 || !same_strings(&a[i].1, &b[i].1) {
            assert(a.deep_view()[i as int] != b.deep_view()[i as int]);
            return false;
        }
        i += 1;
    }
    assert(a.deep_view() =~= b.deep_view());
    true
}

/// Whether two lists of numbered link lists hold the same numbers with the
/// same links in the same order.
pub fn same_link_entries(a: &Vec<(u32, Vec<PlainLink>)>, b: &Vec<(u32, Vec<PlainLink>)>) -> (same:
    bool)
    ensures
        same == (a.deep_view() == b.deep_view()),
{
    if a.len() != b.len() {
        assert(a.deep_view().len() != b.deep_view().len());
        return false;
    }
    let mut i: usize = 0;
    while i < a.len()
        invariant
            a.len() == b.len(),
            i <= a.len(),
            forall|j: int| 0 <= j < i ==> a.deep_view()[j] == b.deep_view()[j],
        decreases a.len() - i,
    {
        if a[i].0 != b[i].0 || !same_plain_links(&a[i].1, &b[i].1) {
            assert(a.deep_view()[i as int] != b.deep_view()[i as int]);
            return false;
        }
        i += 1;
    }
    assert(a.deep_view() =~= b.deep_view());
    true
}

/// Whether two plain records hold the same.
pub fn same_record(a: &Record, b: &Record) -> (same: bool)
    ensures
        same == (a.deep_view() == b.deep_view()),
{
    proof {
        lemma_strings_deep_view(a.1);
        lemma_strings_deep_view(b.1);
        lemma_strings_deep_view(a.2);
        lemma_strings_deep_view(b.2);
    }
    let same_visibility = match (a.4, b.4) {
        (Some(x), Some(y)) => x == y,
        (None, None) => true,
        _ => false,
    };
    a.0 == b.0 && same_strings(&a.1, &b.1) && same_strings(&a.2, &b.2) && a.3.0 == b.3.0 && a.3.1
        == b.3.1 && same_visibility && same_link_entries(&a.5, &b.5)
}

/// The plain form of a list of links.
pub fn links_to_plain(links: &Vec<DocLink>) -> (plain: Vec<PlainLink>)
    ensures
        plain.deep_view() == plain_links(link_views(links@)),
{
    let mut plain: Vec<PlainLink> = Vec::new();
    let mut i: usize = 0;
    while i < links.len()
        invariant
            i <= links.len(),
            plain.deep_view() == plain_links(link_views(links@)).take(i as int),
        decreases links.len() - i,
    {
        let name = links[i].name.clone();
        let path = copy_strings(&links[i].path.segments);
        proof {
            lemma_strings_deep_view(path);
        }
        let ghost before = plain.deep_view();
        plain.push((name, path));
        assert(plain.deep_view() =~= before.push((links[i as int].name@, links[i as int].path@)));
        assert(plain.deep_view() =~= plain_links(link_views(links@)).take(i + 1));
        i += 1;
    }
    assert(plain_links(link_views(links@)).take(links.len() as int) =~= plain_links(
        link_views(links@),
    ));
    plain
}

/// The links that a list of plain links stands for.
pub fn links_from_plain(plain: &Vec<PlainLink>) -> (links: Vec<DocLink>)
    ensures
        link_views(links@) == linked(plain.deep_view()),
{
    let mut links: Vec<DocLink> = Vec::new();
    let mut i: usize = 0;
    while i < plain.len()
        invariant
            i <= plain.len(),
            link_views(links@) == linked(plain.deep_view()).take(i as int),
        decreases plain.len() - i,
    {
        let name = plain[i].0.clone();
        let segments = copy_strings(&plain[i].1);
        proof {
            lemma_strings_deep_view(plain[i as int].1);
        }
        let ghost before = link_views(links@);
        links.push(DocLink { name, path: ModPath::new(segments) });
        assert(link_views(links@) =~= before.push(
            LinkView { name: plain[i as int].0@, path: views(plain[i as int].1@) },
        ));
        assert(link_views(links@) =~= linked(plain.deep_view()).take(i + 1));
        i += 1;
    }
    assert(linked(plain.deep_view()).take(plain.len() as int) =~= linked(plain.deep_view()));
    links
}

impl NewDocTemp_ {
    /// The plain form of this record.
    pub fn to_record(&self) -> (record: Record)
        ensures
            record.deep_view() == record_of(self@),
    {
        let name = self.name.clone();
        let attrs = copy_strings(&self.attrs.entries);
        let mod_path = copy_strings(&self.mod_path.segments);
        let kind = self.get_type().to_index() as u32;
        let decl = self.inner_data.declaration().clone();
        let visibility = match &self.visibility {
            Some(v) => Some(v.to_tag()),
            None => None,
        };
        let mut entries: Vec<(u32, Vec<PlainLink>)> = Vec::new();
        let mut i: usize = 0;
        while i < 15
            invariant
                i <= 15,
                entries.deep_view() == link_entries(self.links@, i as nat),
            decreases 15 - i,
        {
            let ghost before = entries.deep_view();
            match DocType::from_index(i) {
                Some(category) => {
                    match self.links.get(&category) {
                        Some(links) => {
                            let plain = links_to_plain(links);
                            entries.push((i as u32, plain));
                            assert(entries.deep_view() =~= before.push(
                                (i as u32, plain.deep_view()),
                            ));
                        },
                        None => {},
                    }
                },
                None => {},
            }
            i += 1;
        }
        proof {
            lemma_strings_deep_view(attrs);
            lemma_strings_deep_view(mod_path);
        }
        (name, attrs, mod_path, (kind, decl), visibility, entries)
    }

    /// The record that a plain record stands for. A number in it that stands
    /// for nothing is an error; the first such number is reported.
    #[verifier::loop_isolation(false)]
    pub fn from_record(record: &Record) -> (res: Result<NewDocTemp_, RecordError>)
        ensures
            match doc_of(record.deep_view()) {
                Ok(doc) => res matches Ok(item) && item@ == doc,
                Err(e) => res matches Err(found) && found == e,
            },
    {
        let kind_tag = record.3.0;
        let inner_data = match DocType::from_index(kind_tag as usize) {
            Some(kind) => match DocInnerData::of_type(kind, record.3.1.clone()) {
                Some(data) => data,
                None => {
                    return Err(RecordError::UnknownKind(kind_tag));
                },
            },
            None => {
                return Err(RecordError::UnknownKind(kind_tag));
            },
        };
        let visibility = match record.4 {
            Some(tag) => match Visibility::from_tag(tag) {
                Some(v) => Some(v),
                None => {
                    return Err(RecordError::UnknownVisibility(tag));
                },
            },
            None => None,
        };
        let mut links = DocRelatedItems::new();
        let mut i: usize = 0;
        while i < record.5.len()
            invariant
                i <= record.5.len(),
                links_of(record.5.deep_view().take(i as int)) == Ok::<
                    Map<DocType, Seq<LinkView>>,
                    RecordError,
                >(links@),
            decreases record.5.len() - i,
        {
            proof {
                assert(record.5.deep_view().take(i + 1).drop_last() =~= record.5.deep_view().take(
                    i as int,
                ));
            }
            let tag = record.5[i].0;
            match DocType::from_index(tag as usize) {
                Some(category) => {
                    links.insert(category, links_from_plain(&record.5[i].1));
                },
                None => {
                    proof {
                        let upto = record.5.deep_view().take(i + 1);
                        assert(upto.last().0 == tag);
                        assert(links_of(upto) == Err::<Map<DocType, Seq<LinkView>>, RecordError>(
                            RecordError::UnknownCategory(tag),
                        ));
                        lemma_links_of_error(record.5.deep_view(), i + 1);
                    }
                    return Err(RecordError::UnknownCategory(tag));
                },
            }
            i += 1;
        }
        proof {
            assert(record.5.deep_view().take(record.5.len() as int) =~= record.5.deep_view());
            lemma_strings_deep_view(record.1);
            lemma_strings_deep_view(record.2);
        }
        let attrs = Attributes { entries: copy_strings(&record.1) };
        let mod_path = ModPath::new(copy_strings(&record.2));
        Ok(NewDocTemp_ { name: record.0.clone(), attrs, mod_path, inner_data, visibility, links })
    }

    /// The bytes that stand for this record: the encoding of its plain form.
    ///
    /// The bytes are read back before they are handed out, and handed out
    /// only where they are read as the plain form they were made from. So
    /// whatever this function hands out, `from_bytes` reads as this record.
    /// It fails where the encoder gives no bytes, where the decoder reads
    /// nothing from the bytes, and where it reads another plain record.
    pub fn to_bytes(&self) -> (res: Result<Vec<u8>, EncodeError>)
        ensures
            match encoding(record_of(self@)) {
                Some(made) => match decoding(made) {
                    Some(back) => if back == record_of(self@) {
                        res matches Ok(bytes) && bytes@ == made
                    } else {
                        res matches Err(EncodeError::Mismatch)
                    },
                    None => res matches Err(EncodeError::Decoder { .. }),
                },
                None => res matches Err(EncodeError::Encoder { .. }),
            },
            match bytes_of(self@) {
                Some(made) => res matches Ok(bytes) && bytes@ == made,
                None => res is Err,
            },
            res matches Ok(bytes) ==> reads_as(bytes@, self@),
    {
        let record = self.to_record();
        proof {
            lemma_record_round_trip(*self);
        }
        match serialize_record(&record) {
            Ok(bytes) => {
                let read_back = deserialize_record(bytes.as_slice());
                NewDocTemp_::checked_bytes(&record, bytes, read_back)
            },
            Err(e) => Err(EncodeError::Encoder { reason: error_text(&*e) }),
        }
    }

    /// What is handed out for the bytes that the encoder made of `record`,
    /// given what the decoder made of them: the bytes where they were read
    /// back as `record`, else what is wrong with them.
    pub fn checked_bytes(
        record: &Record,
        bytes: Vec<u8>,
        read_back: Result<Record, Box<bincode::ErrorKind>>,
    ) -> (res: Result<Vec<u8>, EncodeError>)
        ensures
            match read_back {
                Ok(back) => if back.deep_view() == record.deep_view() {
                    res == Ok::<Vec<u8>, EncodeError>(bytes)
                } else {
                    res == Err::<Vec<u8>, EncodeError>(EncodeError::Mismatch)
                },
                Err(_) => res matches Err(EncodeError::Decoder { .. }),
            },
    {
        match read_back {
            Ok(back) => {
                if same_record(&back, record) {
                    Ok(bytes)
                } else {
                    Err(EncodeError::Mismatch)
                }
            },
            Err(e) => Err(EncodeError::Decoder { reason: error_text(&*e) }),
        }
    }

    /// The record that bytes stand for. The bytes have to be the encoding of
    /// a plain record, and the plain record the plain form of a record.
    pub fn from_bytes(bytes: &[u8]) -> (res: Result<NewDocTemp_, DecodeError>)
        ensures
            match decoding(bytes@) {
                Some(record) => match doc_of(record) {
                    Ok(doc) => res matches Ok(item) && item@ == doc,
                    Err(e) => res matches Err(DecodeError::Invalid(found)) && found == e,
                },
                None => res matches Err(DecodeError::Malformed { .. }),
            },
            forall|doc: DocView| #[trigger]
                reads_as(bytes@, doc) ==> (res matches Ok(item) && item@ == doc),
    {
        match deserialize_record(bytes) {
            Ok(record) => match NewDocTemp_::from_record(&record) {
                Ok(item) => Ok(item),
                Err(e) => Err(DecodeError::Invalid(e)),
            },
            Err(e) => Err(DecodeError::Malformed { reason: error_text(&*e) }),
        }
    }
}

/// Where the first `upto` of the numbered link lists hold a number that is
/// not that of a category, so do all of them, and the first such number is
/// the same.
pub proof fn lemma_links_of_error(entries: Seq<(u32, Seq<PlainLinkView>)>, upto: int)
    requires
        0 <= upto <= entries.len(),
        links_of(entries.take(upto)) is Err,
    ensures
        links_of(entries) == links_of(entries.take(upto)),
    decreases entries.len() - upto,
{
    if upto == entries.len() {
        assert(entries.take(upto) =~= entries);
    } else {
        assert(entries.take(upto + 1).drop_last() =~= entries.take(upto));
        lemma_links_of_error(entries, upto + 1);
    }
}

} // verus!
