//! Editor tooling for Objective-C projects that keep no description of how
//! they are built.
//!
//! The library has two parts. The first recovers, from the transcript of a
//! build, how each file was compiled: `xcodebuild_parser` reads the
//! transcript into compile records, `cdb` keeps the records by file, and
//! `xcodebuild` holds what a build is run with. The second shapes what an
//! analysis engine tells into answers for an editor: `helpers` writes findings
//! and completions as text and reads the place of a query,
//! `code_completion`, `diagnostic` and `source_location` hold what the engine
//! tells, and `translation_unit` decides where the search for a definition
//! goes. `commands` works out what a command line asks for, `types` and
//! `rfsevents` hold the kinds that the engine and the watcher of the file
//! system count by number, and `text` holds the work on characters that all
//! of these share.
//!
//! The engine itself, the build tool and the files on disk are not reached
//! from here: the library takes what they give as values and hands values
//! back.

pub mod cdb;
pub mod code_completion;
pub mod commands;
pub mod diagnostic;
pub mod helpers;
pub mod rfsevents;
pub mod source_location;
pub mod text;
pub mod translation_unit;
pub mod types;
pub mod xcodebuild;
pub mod xcodebuild_parser;
