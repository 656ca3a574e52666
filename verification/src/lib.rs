//! A store of documentation records.
//!
//! A record describes one source entity (a function, a module, a struct, ...).
//! The crate classifies records, derives the file each one is kept in from its
//! module path and kind, renders the listing of its related items, and turns a
//! record into the bytes that are written to that file.

pub mod item;
pub mod kinds;
pub mod links;
pub mod path;
pub mod payload;
pub mod record;
pub mod save;
pub mod text;

pub use item::{DocInnerData, NewDocTemp_};
pub use kinds::DocType;
pub use links::{DocLink, DocRelatedItems};
pub use path::ModPath;
pub use payload::{
    Attributes, Constant, Enum, Function, Module, Struct, Trait, TraitItem, TraitItemKind,
    Visibility,
};
pub use record::{DecodeError, EncodeError, Record, RecordError};
pub use save::{SaveError, SaveProgress, SaveStep};
