use docstore::save::place_under;
use docstore::{
    Attributes, DocInnerData, DocRelatedItems, EncodeError, Function, ModPath, Module,
    NewDocTemp_, SaveError, SaveProgress, SaveStep,
};

fn strings(parts: &[&str]) -> Vec<String> {
    parts.iter().map(|s| s.to_string()).collect()
}

fn module_record() -> NewDocTemp_ {
    NewDocTemp_ {
        name: "foo".to_string(),
        attrs: Attributes { entries: vec![] },
        mod_path: ModPath::new(strings(&["a", "b"])),
        inner_data: DocInnerData::ModuleDoc(Module { decl: "mod foo".to_string() }),
        visibility: None,
        links: DocRelatedItems::new(),
    }
}

fn top_level_function() -> NewDocTemp_ {
    NewDocTemp_ {
        name: "main".to_string(),
        attrs: Attributes { entries: vec![] },
        mod_path: ModPath::new(vec![]),
        inner_data: DocInnerData::FnDoc(Function { decl: "fn main()".to_string() }),
        visibility: None,
        links: DocRelatedItems::new(),
    }
}

fn progress(
    doc_root: Option<Result<&str, &str>>,
    dir_created: Option<Result<(), &str>>,
    written: Option<Result<(), &str>>,
) -> SaveProgress {
    SaveProgress {
        doc_root: doc_root.map(|r| r.map(|s| s.to_string()).map_err(|s| s.to_string())),
        dir_created: dir_created.map(|r| r.map_err(|s| s.to_string())),
        written: written.map(|r| r.map_err(|s| s.to_string())),
    }
}

#[test]
fn place_below_a_root() {
    assert_eq!(place_under("/docs", "a/b"), "/docs/a/b");
    assert_eq!(place_under("", "a/b"), "a/b");
    assert_eq!(place_under("/docs", ""), "/docs");
    assert_eq!(place_under("", ""), "");
    assert_eq!(place_under("rel/root", "x.odoc"), "rel/root/x.odoc");
}

#[test]
fn new_progress_has_nothing_done() {
    assert_eq!(SaveProgress::new(), progress(None, None, None));
}

#[test]
fn save_begins_by_resolving_the_root() {
    assert_eq!(module_record().save(&SaveProgress::new()), SaveStep::ResolveDocRoot);
}

#[test]
fn save_creates_the_directory_of_the_module_path() {
    let step = module_record().save(&progress(Some(Ok("/home/u/.docs/krate-1.0")), None, None));
    assert_eq!(step, SaveStep::CreateDirAll { dir: "/home/u/.docs/krate-1.0/a/b".to_string() });
}

#[test]
fn save_of_a_top_level_record_creates_the_root() {
    let step = top_level_function().save(&progress(Some(Ok("/docs")), None, None));
    assert_eq!(step, SaveStep::CreateDirAll { dir: "/docs".to_string() });
}

#[test]
fn save_writes_the_bytes_of_the_record_to_its_file() {
    let item = module_record();
    let step = item.save(&progress(Some(Ok("/docs")), Some(Ok(())), None));
    assert_eq!(
        step,
        SaveStep::WriteBytes {
            path: "/docs/a/b/mdesc-foo.odoc".to_string(),
            bytes: item.to_bytes().unwrap(),
        }
    );
}

#[test]
fn saved_bytes_read_back_as_the_record() {
    let item = module_record();
    match item.save(&progress(Some(Ok("/docs")), Some(Ok(())), None)) {
        SaveStep::WriteBytes { bytes, .. } => {
            assert_eq!(NewDocTemp_::from_bytes(&bytes).unwrap(), item)
        }
        other => panic!("next step is {:?}", other),
    }
}

#[test]
fn save_ends_well_after_the_write() {
    let step = module_record().save(&progress(Some(Ok("/docs")), Some(Ok(())), Some(Ok(()))));
    assert_eq!(step, SaveStep::Done(Ok(())));
}

#[test]
fn save_runs_through_its_steps_in_order() {
    let item = module_record();
    let mut so_far = SaveProgress::new();
    let mut seen = vec![];
    loop {
        match item.save(&so_far) {
            SaveStep::ResolveDocRoot => {
                seen.push("resolve");
                so_far.doc_root = Some(Ok("root".to_string()));
            }
            SaveStep::CreateDirAll { dir } => {
                seen.push("mkdir");
                assert_eq!(dir, "root/a/b");
                so_far.dir_created = Some(Ok(()));
            }
            SaveStep::WriteBytes { path, .. } => {
                seen.push("write");
                assert_eq!(path, "root/a/b/mdesc-foo.odoc");
                so_far.written = Some(Ok(()));
            }
            SaveStep::Done(result) => {
                assert_eq!(result, Ok(()));
                break;
            }
        }
    }
    assert_eq!(seen, vec!["resolve", "mkdir", "write"]);
}

#[test]
fn unresolved_root_ends_the_save() {
    let step = module_record().save(&progress(Some(Err("no home directory")), None, None));
    assert_eq!(
        step,
        SaveStep::Done(Err(SaveError::DocRoot { cause: "no home directory".to_string() }))
    );
}

#[test]
fn unresolved_root_wins_over_later_outcomes() {
    let step = module_record().save(&progress(Some(Err("gone")), Some(Ok(())), Some(Ok(()))));
    assert_eq!(step, SaveStep::Done(Err(SaveError::DocRoot { cause: "gone".to_string() })));
}

#[test]
fn failed_directory_creation_names_the_directory() {
    let step =
        module_record().save(&progress(Some(Ok("/docs")), Some(Err("permission denied")), None));
    assert_eq!(
        step,
        SaveStep::Done(Err(SaveError::CreateDir {
            message: "Failed to create directory /docs/a/b".to_string(),
            cause: "permission denied".to_string(),
        }))
    );
}

#[test]
fn failed_encoding_names_the_module_path() {
    let step = module_record().after_encoding(
        "/docs/a/b/mdesc-foo.odoc".to_string(),
        Err(EncodeError::Encoder { reason: "too large".to_string() }),
    );
    assert_eq!(
        step,
        SaveStep::Done(Err(SaveError::Serialize {
            message: "Could not serialize doc a::b".to_string(),
            cause: EncodeError::Encoder { reason: "too large".to_string() },
        }))
    );
    let step = top_level_function().after_encoding("main.odoc".to_string(), Err(EncodeError::Mismatch));
    assert_eq!(
        step,
        SaveStep::Done(Err(SaveError::Serialize {
            message: "Could not serialize doc ".to_string(),
            cause: EncodeError::Mismatch,
        }))
    );
}

#[test]
fn encoded_bytes_are_to_be_written() {
    let step = module_record().after_encoding("out/x.odoc".to_string(), Ok(vec![1, 2, 3]));
    assert_eq!(step, SaveStep::WriteBytes { path: "out/x.odoc".to_string(), bytes: vec![1, 2, 3] });
}

#[test]
fn failed_write_is_handed_on() {
    let step =
        module_record().save(&progress(Some(Ok("/docs")), Some(Ok(())), Some(Err("disk full"))));
    assert_eq!(step, SaveStep::Done(Err(SaveError::Write { cause: "disk full".to_string() })));
}

#[test]
fn error_text_is_message_or_cause() {
    assert_eq!(SaveError::DocRoot { cause: "c".to_string() }.to_string(), "c");
    assert_eq!(
        SaveError::CreateDir { message: "m".to_string(), cause: "c".to_string() }.to_string(),
        "m"
    );
    assert_eq!(
        SaveError::Serialize { message: "m".to_string(), cause: EncodeError::Mismatch }
            .to_string(),
        "m"
    );
    assert_eq!(SaveError::Write { cause: "c".to_string() }.to_string(), "c");
}
