//! Saving a record: which step comes next, and what each failure becomes.
//!
//! A record is saved in four steps. The documentation root of the crate is
//! resolved; the directory of the record's file is created, with every
//! directory above it that is missing; the record is turned into bytes; the
//! bytes are written to the file. Resolving, creating and writing are done
//! by whoever drives the save. What is decided here is the order of the
//! steps, the directory and the file, and the error a failed step ends with.

use vstd::prelude::*;
use vstd::string::*;
use crate::item::NewDocTemp_;
use crate::path::{dir_of, display_of};
use crate::record::{bytes_of, reads_as, EncodeError};

verus! {

/// Why a save ended without a file.
#[derive(PartialEq, Eq, Debug)]
pub enum SaveError {
    /// The documentation root could not be resolved; `cause` is what the
    /// resolver said.
    DocRoot { cause: String },
    /// The directory of the file could not be created; `message` names the
    /// directory, `cause` is what the file system said.
    CreateDir { message: String, cause: String },
    /// The record could not be turned into bytes; `message` names the module
    /// path of the record, `cause` is what went wrong.
    Serialize { message: String, cause: EncodeError },
    /// The file could not be written; `cause` is what the writer said.
    Write { cause: String },
}

/// What has come back so far from the steps that are done outside. A step
/// that has not been done is `None`; a step that failed holds what was said
/// of the failure.
#[derive(PartialEq, Eq, Debug)]
pub struct SaveProgress {
    pub doc_root: Option<Result<String, String>>,
    pub dir_created: Option<Result<(), String>>,
    pub written: Option<Result<(), String>>,
}

/// What is to be done next in a save.
#[derive(PartialEq, Eq, Debug)]
pub enum SaveStep {
    /// Resolve the documentation root of the crate.
    ResolveDocRoot,
    /// Create `dir` and every directory above it that is missing.
    CreateDirAll { dir: String },
    /// Write `bytes` to the file `path`.
    WriteBytes { path: String, bytes: Vec<u8> },
    /// Nothing: the save has ended, well or with an error.
    Done(Result<(), SaveError>),
}

/// The place of `rel` below `root`: the two with a `/` between them, or the
/// one of them that is not empty.
pub open spec fn under(root: Seq<char>, rel: Seq<char>) -> Seq<char> {
    if root.len() == 0 {
        rel
    } else if rel.len() == 0 {
        root
    } else {
        root + "/"@ + rel
    }
}

/// The message of a save that could not create the directory `dir`.
pub open spec fn create_dir_message(dir: Seq<char>) -> Seq<char> {
    "Failed to create directory "@ + dir
}

/// The message of a save that could not turn the record at `mod_path` into
/// bytes.
pub open spec fn serialize_message(mod_path: Seq<Seq<char>>) -> Seq<char> {
    "Could not serialize doc "@ + display_of(mod_path)
}

/// The place of `rel` below `root`.
pub fn place_under(root: &str, rel: &str) -> (path: String)
    ensures
        path@ == under(root@, rel@),
{
    if root.is_empty() {
        String::from_str(rel)
    } else if rel.is_empty() {
        String::from_str(root)
    } else {
        let mut path = String::from_str(root);
        path.append("/");
        path.append(rel);
        path
    }
}

impl SaveError {
    /// What went wrong, in the words that this error was made with: the
    /// message of an error that has one, and of the others the cause.
    pub open spec fn text(&self) -> Seq<char> {
        match self {
            SaveError::DocRoot { cause } => cause@,
            SaveError::CreateDir { message, .. } => message@,
            SaveError::Serialize { message, .. } => message@,
            SaveError::Write { cause } => cause@,
        }
    }

    /// What went wrong, as a string.
    pub fn to_string(&self) -> (s: String)
        ensures
            s@ == self.text(),
    {
        match self {
            SaveError::DocRoot { cause } => cause.clone(),
            SaveError::CreateDir { message, .. } => message.clone(),
            SaveError::Serialize { message, .. } => message.clone(),
            SaveError::Write { cause } => cause.clone(),
        }
    }
}

impl SaveProgress {
    /// The progress of a save of which no step has been done.
    pub fn new() -> (progress: SaveProgress)
        ensures
            progress.doc_root is None,
            progress.dir_created is None,
            progress.written is None,
    {
        SaveProgress { doc_root: None, dir_created: None, written: None }
    }
}

impl NewDocTemp_ {
    /// The file of this record below the documentation root `root`.
    pub open spec fn target_path(&self, root: Seq<char>) -> Seq<char> {
        under(root, self.file_path())
    }

    /// The directory of this record's file below the documentation root
    /// `root`: the directories of its module path.
    pub open spec fn target_dir(&self, root: Seq<char>) -> Seq<char> {
        under(root, dir_of(self.mod_path@))
    }

    /// What follows the attempt to turn this record into bytes: the bytes
    /// are to be written to `path`, or the save ends with the failure, whose
    /// message names the module path of the record.
    pub fn after_encoding(&self, path: String, encoded: Result<Vec<u8>, EncodeError>) -> (step:
        SaveStep)
        ensures
            match encoded {
                Ok(bytes) => step == (SaveStep::WriteBytes { path, bytes }),
                Err(cause) => step matches SaveStep::Done(
                    Err(SaveError::Serialize { message, cause: said }),
                ) && message@ == serialize_message(self.mod_path@) && said == cause,
            },
    {
        match encoded {
            Ok(bytes) => SaveStep::WriteBytes { path, bytes },
            Err(cause) => {
                let mut message = String::from_str("Could not serialize doc ");
                message.append(self.mod_path.to_string().as_str());
                SaveStep::Done(Err(SaveError::Serialize { message, cause }))
            },
        }
    }

    /// The next step of saving this record, given what the steps done so far
    /// have come back with.
    ///
    /// The steps come in one order: the root, the directory, the file. A
    /// step is asked for only when every step before it has succeeded, and a
    /// failed step ends the save with its error. The record is turned into
    /// bytes once the directory is there and before the file is written.
    /// Where the record has bytes that stand for it, those are to be written,
    /// and `from_bytes` reads them as this record; where it has none, the
    /// save ends with the failure.
    pub fn save(&self, progress: &SaveProgress) -> (step: SaveStep)
        ensures
            match progress.doc_root {
                None => step is ResolveDocRoot,
                Some(Err(cause)) => step matches SaveStep::Done(
                    Err(SaveError::DocRoot { cause: said }),
                ) && said@ == cause@,
                Some(Ok(root)) => match progress.dir_created {
                    None => step matches SaveStep::CreateDirAll { dir } && dir@
                        == self.target_dir(root@),
                    Some(Err(cause)) => step matches SaveStep::Done(
                        Err(SaveError::CreateDir { message, cause: said }),
                    ) && message@ == create_dir_message(self.target_dir(root@)) && said@
                        == cause@,
                    Some(Ok(_)) => match progress.written {
                        None => match bytes_of(self@) {
                            Some(made) => step matches SaveStep::WriteBytes { path, bytes }
                                && path@ == self.target_path(root@) && bytes@ == made
                                && reads_as(bytes@, self@),
                            None => step matches SaveStep::Done(
                                Err(SaveError::Serialize { message, .. }),
                            ) && message@ == serialize_message(self.mod_path@),
                        },
                        Some(Err(cause)) => step matches SaveStep::Done(
                            Err(SaveError::Write { cause: said }),
                        ) && said@ == cause@,
                        Some(Ok(_)) => step matches SaveStep::Done(Ok(_)),
                    },
                },
            },
    {
        match &progress.doc_root {
            None => SaveStep::ResolveDocRoot,
            Some(Err(cause)) => SaveStep::Done(Err(SaveError::DocRoot { cause: cause.clone() })),
            Some(Ok(root)) => match &progress.dir_created {
                None => {
                    let dir = place_under(root.as_str(), self.mod_path.to_filepath().as_str());
                    SaveStep::CreateDirAll { dir }
                },
                Some(Err(cause)) => {
                    let dir = place_under(root.as_str(), self.mod_path.to_filepath().as_str());
                    let mut message = String::from_str("Failed to create directory ");
                    message.append(dir.as_str());
                    SaveStep::Done(Err(SaveError::CreateDir { message, cause: cause.clone() }))
                },
                Some(Ok(_)) => match &progress.written {
                    None => {
                        let path = place_under(root.as_str(), self.to_filepath().as_str());
                        self.after_encoding(path, self.to_bytes())
                    },
                    Some(Err(cause)) => SaveStep::Done(
                        Err(SaveError::Write { cause: cause.clone() }),
                    ),
                    Some(Ok(_)) => SaveStep::Done(Ok(())),
                },
            },
        }
    }
}

} // verus!
