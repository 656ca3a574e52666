use docstore::record::{
    links_from_plain, links_to_plain, same_link_entries, same_plain_links, same_record,
};
use docstore::text::same_strings;
use docstore::{
    Attributes, Constant, DecodeError, DocInnerData, EncodeError, DocLink, DocRelatedItems, DocType, Enum,
    Function, ModPath, Module, NewDocTemp_, Record, RecordError, Struct, Trait, TraitItem,
    TraitItemKind, Visibility,
};

fn strings(parts: &[&str]) -> Vec<String> {
    parts.iter().map(|s| s.to_string()).collect()
}

fn link(name: &str, path: &[&str]) -> DocLink {
    DocLink { name: name.to_string(), path: ModPath::new(strings(path)) }
}

fn bare(name: &str, inner_data: DocInnerData) -> NewDocTemp_ {
    NewDocTemp_ {
        name: name.to_string(),
        attrs: Attributes { entries: vec![] },
        mod_path: ModPath::new(strings(&["krate", "m"])),
        inner_data,
        visibility: None,
        links: DocRelatedItems::new(),
    }
}

fn populated(name: &str, inner_data: DocInnerData) -> NewDocTemp_ {
    let mut item = bare(name, inner_data);
    item.attrs = Attributes { entries: strings(&["/// Does things.", "#[inline]"]) };
    item.visibility = Some(Visibility::Restricted);
    item.links.insert(DocType::Macro, vec![link("m", &["krate"])]);
    item.links.insert(
        DocType::Function,
        vec![link("zeta", &["krate", "m"]), link("alpha", &[]), link("zeta", &["other"])],
    );
    item.links.insert(DocType::Struct, vec![]);
    item
}

fn every_kind() -> Vec<DocInnerData> {
    vec![
        DocInnerData::FnDoc(Function { decl: "fn f(x: u8) -> u8".to_string() }),
        DocInnerData::ModuleDoc(Module { decl: "mod m".to_string() }),
        DocInnerData::EnumDoc(Enum { decl: "enum E { A, B }".to_string() }),
        DocInnerData::StructDoc(Struct { decl: "struct S { x: u8 }".to_string() }),
        DocInnerData::ConstDoc(Constant { decl: "const N: usize = 3".to_string() }),
        DocInnerData::TraitDoc(Trait { decl: "trait T".to_string() }),
        DocInnerData::TraitItemDoc(TraitItem {
            node: TraitItemKind::Const,
            decl: "const ID: u32".to_string(),
        }),
        DocInnerData::TraitItemDoc(TraitItem {
            node: TraitItemKind::Method,
            decl: "fn run(&self)".to_string(),
        }),
        DocInnerData::TraitItemDoc(TraitItem {
            node: TraitItemKind::Type,
            decl: "type Out".to_string(),
        }),
        DocInnerData::TraitItemDoc(TraitItem {
            node: TraitItemKind::Macro,
            decl: "mac!()".to_string(),
        }),
    ]
}

fn plain(kind: u32, visibility: Option<u32>, links: Vec<(u32, Vec<(String, Vec<String>)>)>) -> Record {
    ("n".to_string(), vec![], strings(&["a"]), (kind, "decl".to_string()), visibility, links)
}

#[test]
fn plain_form_of_a_record() {
    let item = populated("f", DocInnerData::StructDoc(Struct { decl: "struct f".to_string() }));
    let expected: Record = (
        "f".to_string(),
        strings(&["/// Does things.", "#[inline]"]),
        strings(&["krate", "m"]),
        (4, "struct f".to_string()),
        Some(1),
        vec![
            (
                0,
                vec![
                    ("zeta".to_string(), strings(&["krate", "m"])),
                    ("alpha".to_string(), strings(&[])),
                    ("zeta".to_string(), strings(&["other"])),
                ],
            ),
            (4, vec![]),
            (14, vec![("m".to_string(), strings(&["krate"]))]),
        ],
    );
    assert_eq!(item.to_record(), expected);
}

#[test]
fn plain_form_numbers_the_kinds_by_category() {
    let numbers: Vec<u32> =
        every_kind().into_iter().map(|data| (bare("x", data).to_record().3).0).collect();
    assert_eq!(numbers, vec![0, 1, 2, 4, 6, 7, 10, 9, 11, 12]);
}

#[test]
fn plain_links_go_both_ways() {
    let list = vec![link("a", &["x", "y"]), link("b", &[])];
    let plain_list = links_to_plain(&list);
    assert_eq!(
        plain_list,
        vec![("a".to_string(), strings(&["x", "y"])), ("b".to_string(), strings(&[]))]
    );
    assert_eq!(links_from_plain(&plain_list), list);
}

#[test]
fn plain_form_and_back_gives_the_record() {
    for data in every_kind() {
        let item = bare("thing", data);
        assert_eq!(NewDocTemp_::from_record(&item.to_record()), Ok(item));
    }
    for data in every_kind() {
        let item = populated("thing", data);
        assert_eq!(NewDocTemp_::from_record(&item.to_record()), Ok(item));
    }
}

#[test]
fn bytes_and_back_give_the_record_without_links() {
    for data in every_kind() {
        let item = bare("thing", data);
        let bytes = item.to_bytes().unwrap();
        assert_eq!(NewDocTemp_::from_bytes(&bytes).unwrap(), item);
    }
}

#[test]
fn bytes_and_back_give_the_record_with_links() {
    for data in every_kind() {
        let item = populated("thing", data);
        let bytes = item.to_bytes().unwrap();
        assert_eq!(NewDocTemp_::from_bytes(&bytes).unwrap(), item);
    }
}

#[test]
fn bytes_and_back_keep_every_visibility() {
    for visibility in
        [None, Some(Visibility::Public), Some(Visibility::Restricted), Some(Visibility::Private)]
    {
        let mut item = bare("v", DocInnerData::FnDoc(Function { decl: "fn v()".to_string() }));
        item.visibility = visibility;
        let back = NewDocTemp_::from_bytes(&item.to_bytes().unwrap()).unwrap();
        assert_eq!(back.visibility, visibility);
        assert_eq!(back, item);
    }
}

#[test]
fn bytes_of_a_small_record() {
    let mut item = bare("f", DocInnerData::FnDoc(Function { decl: "fn f()".to_string() }));
    item.mod_path = ModPath::new(strings(&["a"]));
    item.visibility = Some(Visibility::Public);
    let mut expected: Vec<u8> = vec![];
    expected.extend_from_slice(&[1, 0, 0, 0, 0, 0, 0, 0, b'f']);
    expected.extend_from_slice(&[0, 0, 0, 0, 0, 0, 0, 0]);
    expected.extend_from_slice(&[1, 0, 0, 0, 0, 0, 0, 0]);
    expected.extend_from_slice(&[1, 0, 0, 0, 0, 0, 0, 0, b'a']);
    expected.extend_from_slice(&[0, 0, 0, 0]);
    expected.extend_from_slice(&[6, 0, 0, 0, 0, 0, 0, 0]);
    expected.extend_from_slice(b"fn f()");
    expected.extend_from_slice(&[1, 0, 0, 0, 0]);
    expected.extend_from_slice(&[0, 0, 0, 0, 0, 0, 0, 0]);
    assert_eq!(item.to_bytes(), Ok(expected));
}

#[test]
fn bytes_are_those_of_the_plain_form() {
    let item = populated("S", DocInnerData::StructDoc(Struct { decl: "struct S".to_string() }));
    let direct = bincode::serialize(&item.to_record(), bincode::Infinite).unwrap();
    assert_eq!(item.to_bytes(), Ok(direct));
}

#[test]
fn bytes_differ_where_records_differ() {
    let a = bare("a", DocInnerData::EnumDoc(Enum { decl: "enum a".to_string() }));
    let b = bare("a", DocInnerData::StructDoc(Struct { decl: "enum a".to_string() }));
    assert_ne!(a.to_bytes().unwrap(), b.to_bytes().unwrap());
}

#[test]
fn unknown_kind_number_is_refused() {
    assert_eq!(
        NewDocTemp_::from_record(&plain(15, None, vec![])),
        Err(RecordError::UnknownKind(15))
    );
    assert_eq!(
        NewDocTemp_::from_record(&plain(u32::MAX, None, vec![])),
        Err(RecordError::UnknownKind(u32::MAX))
    );
}

#[test]
fn category_that_no_record_is_of_is_refused() {
    for kind in [3u32, 5, 8, 13, 14] {
        assert_eq!(
            NewDocTemp_::from_record(&plain(kind, None, vec![])),
            Err(RecordError::UnknownKind(kind))
        );
    }
}

#[test]
fn unknown_visibility_number_is_refused() {
    assert_eq!(
        NewDocTemp_::from_record(&plain(0, Some(3), vec![])),
        Err(RecordError::UnknownVisibility(3))
    );
}

#[test]
fn unknown_link_category_is_refused() {
    let links = vec![(0, vec![]), (15, vec![]), (99, vec![])];
    assert_eq!(
        NewDocTemp_::from_record(&plain(1, Some(0), links)),
        Err(RecordError::UnknownCategory(15))
    );
}

#[test]
fn kind_is_looked_at_before_visibility_and_links() {
    assert_eq!(
        NewDocTemp_::from_record(&plain(40, Some(9), vec![(77, vec![])])),
        Err(RecordError::UnknownKind(40))
    );
    assert_eq!(
        NewDocTemp_::from_record(&plain(2, Some(9), vec![(77, vec![])])),
        Err(RecordError::UnknownVisibility(9))
    );
}

#[test]
fn later_list_of_a_category_stands() {
    let links = vec![
        (7, vec![("first".to_string(), vec![])]),
        (7, vec![("second".to_string(), strings(&["p"]))]),
    ];
    let item = NewDocTemp_::from_record(&plain(1, None, links)).unwrap();
    assert_eq!(item.links.get(&DocType::Trait), Some(&vec![link("second", &["p"])]));
}

#[test]
fn plain_record_is_read_as_written() {
    let links = vec![(9, vec![("run".to_string(), strings(&["k", "T"]))])];
    let item = NewDocTemp_::from_record(&plain(7, Some(2), links)).unwrap();
    assert_eq!(item.name, "n");
    assert_eq!(item.attrs, Attributes { entries: vec![] });
    assert_eq!(item.mod_path, ModPath::new(strings(&["a"])));
    assert_eq!(item.inner_data, DocInnerData::TraitDoc(Trait { decl: "decl".to_string() }));
    assert_eq!(item.visibility, Some(Visibility::Private));
    assert_eq!(item.links.get(&DocType::TraitItemMethod), Some(&vec![link("run", &["k", "T"])]));
    assert_eq!(item.links.get(&DocType::Function), None);
}

#[test]
fn cut_bytes_are_malformed() {
    let item = populated("S", DocInnerData::StructDoc(Struct { decl: "struct S".to_string() }));
    let bytes = item.to_bytes().unwrap();
    for cut in [0, 1, 8, bytes.len() / 2, bytes.len() - 1] {
        assert!(matches!(
            NewDocTemp_::from_bytes(&bytes[..cut]),
            Err(DecodeError::Malformed { .. })
        ));
    }
}

#[test]
fn bad_option_tag_is_malformed_and_says_so() {
    let mut item = bare("f", DocInnerData::FnDoc(Function { decl: "fn f()".to_string() }));
    item.mod_path = ModPath::new(vec![]);
    let mut bytes = item.to_bytes().unwrap();
    // name (8 + 1), attributes (8), module path (8), kind (4), declaration (8 + 6)
    let at = 9 + 8 + 8 + 4 + 14;
    assert_eq!(bytes[at], 0);
    bytes[at] = 7;
    match NewDocTemp_::from_bytes(&bytes) {
        Err(DecodeError::Malformed { reason }) => {
            assert_eq!(reason, "tag for enum is not valid, found 7")
        }
        other => panic!("read as {:?}", other),
    }
}

#[test]
fn bytes_with_a_bad_number_are_invalid() {
    let record = plain(3, None, vec![]);
    let bytes = bincode::serialize(&record, bincode::Infinite).unwrap();
    assert!(matches!(
        NewDocTemp_::from_bytes(&bytes),
        Err(DecodeError::Invalid(RecordError::UnknownKind(3)))
    ));
    let record = plain(0, Some(5), vec![]);
    let bytes = bincode::serialize(&record, bincode::Infinite).unwrap();
    assert!(matches!(
        NewDocTemp_::from_bytes(&bytes),
        Err(DecodeError::Invalid(RecordError::UnknownVisibility(5)))
    ));
    let record = plain(0, None, vec![(20, vec![])]);
    let bytes = bincode::serialize(&record, bincode::Infinite).unwrap();
    assert!(matches!(
        NewDocTemp_::from_bytes(&bytes),
        Err(DecodeError::Invalid(RecordError::UnknownCategory(20)))
    ));
}

#[test]
fn lists_of_strings_are_compared_one_by_one() {
    assert!(same_strings(&strings(&[]), &strings(&[])));
    assert!(same_strings(&strings(&["a", "b"]), &strings(&["a", "b"])));
    assert!(!same_strings(&strings(&["a", "b"]), &strings(&["a"])));
    assert!(!same_strings(&strings(&["a", "b"]), &strings(&["b", "a"])));
    assert!(!same_strings(&strings(&["a", ""]), &strings(&["a", "b"])));
}

#[test]
fn plain_links_are_compared_by_name_and_path() {
    let a = vec![("n".to_string(), strings(&["p", "q"]))];
    assert!(same_plain_links(&a, &vec![("n".to_string(), strings(&["p", "q"]))]));
    assert!(!same_plain_links(&a, &vec![("m".to_string(), strings(&["p", "q"]))]));
    assert!(!same_plain_links(&a, &vec![("n".to_string(), strings(&["p"]))]));
    assert!(!same_plain_links(&a, &vec![]));
    assert!(same_link_entries(&vec![(3, a.clone())], &vec![(3, a.clone())]));
    assert!(!same_link_entries(&vec![(3, a.clone())], &vec![(4, a.clone())]));
    assert!(!same_link_entries(&vec![(3, a.clone())], &vec![(3, vec![])]));
    assert!(!same_link_entries(&vec![(3, a.clone())], &vec![(3, a.clone()), (3, a)]));
}

#[test]
fn plain_records_are_compared_in_every_part() {
    let links = || vec![(0u32, vec![("f".to_string(), strings(&["k"]))])];
    let base = || plain(1, Some(0), links());
    assert!(same_record(&base(), &base()));
    let mut other = base();
    other.0 = "m".to_string();
    assert!(!same_record(&base(), &other));
    let mut other = base();
    other.1 = strings(&["#[x]"]);
    assert!(!same_record(&base(), &other));
    let mut other = base();
    other.2 = strings(&["a", "b"]);
    assert!(!same_record(&base(), &other));
    let mut other = base();
    (other.3).0 = 2;
    assert!(!same_record(&base(), &other));
    let mut other = base();
    (other.3).1 = "other".to_string();
    assert!(!same_record(&base(), &other));
    let mut other = base();
    other.4 = None;
    assert!(!same_record(&base(), &other));
    let mut other = base();
    other.4 = Some(1);
    assert!(!same_record(&base(), &other));
    let mut other = base();
    other.5 = vec![];
    assert!(!same_record(&base(), &other));
    assert!(same_record(&plain(0, None, vec![]), &plain(0, None, vec![])));
}

#[test]
fn bytes_that_read_back_are_handed_out() {
    let record = plain(1, Some(0), vec![]);
    assert_eq!(NewDocTemp_::checked_bytes(&record, vec![1, 2, 3], Ok(record.clone())), Ok(vec![1, 2, 3]));
}

#[test]
fn bytes_that_read_back_as_something_else_are_held_back() {
    let record = plain(1, Some(0), vec![]);
    let other = plain(1, Some(1), vec![]);
    assert_eq!(
        NewDocTemp_::checked_bytes(&record, vec![1, 2, 3], Ok(other)),
        Err(EncodeError::Mismatch)
    );
}

#[test]
fn bytes_that_do_not_read_back_are_held_back() {
    let record = plain(1, Some(0), vec![]);
    let failure = Box::new(bincode::ErrorKind::InvalidTagEncoding(9));
    assert_eq!(
        NewDocTemp_::checked_bytes(&record, vec![1, 2, 3], Err(failure)),
        Err(EncodeError::Decoder { reason: "tag for enum is not valid, found 9".to_string() })
    );
}

#[test]
fn encode_error_text_is_reason_or_mismatch() {
    assert_eq!(EncodeError::Encoder { reason: "e".to_string() }.to_string(), "e");
    assert_eq!(EncodeError::Decoder { reason: "d".to_string() }.to_string(), "d");
    assert_eq!(
        EncodeError::Mismatch.to_string(),
        "The encoded record does not read back as it was"
    );
}
