//! Planning core for three filesystem chores of a package fetch pipeline:
//! mirroring a directory tree, finding the freshest modification time under a
//! tree, and unpacking a downloaded archive.
//!
//! Nothing here touches the disk. Each operation takes what was observed of the
//! filesystem as plain values and returns what has to be done, or what the
//! answer is, with a contract that says exactly which.

pub mod archive;
pub mod copy;
pub mod digest;
pub mod mtime;
pub mod path;
pub mod timestamp;
pub mod tree;

pub use archive::{
    first_directory, sniff_format, untar_archive, ArchiveError, ArchiveFormat, Extraction,
    ExtractionResult,
};
pub use copy::{copy_action, copy_folder, CopyAction, CopyPlan};
pub use digest::{content_hash, to_hex_lower};
pub use mtime::{entry_mtime, latest_mtime, mtime_recursive, EntryProbe, TreeScan};
pub use path::TreePath;
pub use timestamp::FileTimestamp;
pub use tree::{TreeEntry, WalkItem};
