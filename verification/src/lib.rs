//! Persistence and asset-ingestion rules of a vocabulary flashcard tool.
//!
//! The store keeps vocabulary records, of which the default records are
//! protected, a set of at most five active words in the order in which they
//! were last made active, and key/value settings. The asset directories take
//! uploaded images and sounds, whole or in chunks.
//!
//! * [`records`]: the entities and the errors.
//! * [`model`]: what the store holds, and what each operation makes of it.
//! * [`rules`]: the decisions that every operation takes.
//! * [`database`]: the store, kept in memory.
//! * [`laws`]: what holds of the store whatever it contains.
//! * [`payload`]: encoded uploads.
//! * [`listing`]: which files a listing names.
//! * [`files`]: the files of an asset directory, and chunks written into them.
//! * [`assets`]: the two asset directories.
//! * [`paths`]: the directories of the application and the paths below them.
//! * [`logs`]: the log file's name, entries and recent lines.
//! * [`text`]: operations on text that the others are built from.

pub mod assets;
pub mod database;
pub mod files;
pub mod laws;
pub mod listing;
pub mod logs;
pub mod model;
pub mod paths;
pub mod payload;
pub mod records;
pub mod rules;
pub mod text;
