//! Unpacking a downloaded archive, in two steps around the extraction itself.
//!
//! Before anything is written, `untar_archive` looks at the bytes that were
//! read: it tells a zip archive from a gzip-compressed tar by their first
//! bytes, refuses anything else, and computes the content hash if one is
//! wanted. After the extraction, `Extraction::finish` picks the archive's
//! root folder out of the listing of the destination.

use crate::digest::{content_hash, hex_lower, sha256_digest};
use crate::path::TreePath;
use crate::tree::{walk_view, TreeEntryView, WalkItem};
use vstd::prelude::*;

verus! {

/// The archive formats that can be unpacked.
#[derive(Clone, Copy, Debug, PartialEq, Eq, Structural)]
pub enum ArchiveFormat {
    /// A zip archive.
    Zip,
    /// A tar stream compressed with gzip.
    TarGz,
}

/// Why an archive was refused.
#[derive(Clone, Copy, Debug, PartialEq, Eq, Structural)]
pub enum ArchiveError {
    /// The bytes start like neither a zip archive nor a gzip stream, or there
    /// are fewer than four of them.
    UnrecognizedFormat,
}

impl ArchiveError {
    /// The error in words.
    pub fn message(&self) -> (text: String)
        ensures
            text@ == "not tar.gz or a .zip archive"@,
    {
        "not tar.gz or a .zip archive".to_owned()
    }
}

/// The format that the first four bytes announce: `50 4B 03 04` opens a zip
/// archive, `1F 8B` a gzip stream, whatever the two bytes after it. Anything
/// else, and anything shorter than four bytes, announces none.
pub open spec fn format_of(bytes: Seq<u8>) -> Option<ArchiveFormat> {
    if bytes.len() < 4 {
        None
    } else if bytes[0] == 0x50 && bytes[1] == 0x4b && bytes[2] == 0x03 && bytes[3] == 0x04 {
        Some(ArchiveFormat::Zip)
    } else if bytes[0] == 0x1f && bytes[1] == 0x8b {
        Some(ArchiveFormat::TarGz)
    } else {
        None
    }
}

/// Tells the format of an archive from its first bytes.
pub fn sniff_format(buffer: &[u8]) -> (r: Result<ArchiveFormat, ArchiveError>)
    ensures
        r == match format_of(buffer@) {
            Some(format) => Ok::<ArchiveFormat, ArchiveError>(format),
            None => Err(ArchiveError::UnrecognizedFormat),
        },
{
    if buffer.len() < 4 {
        return Err(ArchiveError::UnrecognizedFormat);
    }
    if buffer[0] == 0x50 && buffer[1] == 0x4b && buffer[2] == 0x03 && buffer[3] == 0x04 {
        Ok(ArchiveFormat::Zip)
    } else if buffer[0] == 0x1f && buffer[1] == 0x8b {
        Ok(ArchiveFormat::TarGz)
    } else {
        Err(ArchiveError::UnrecognizedFormat)
    }
}

/// What was decided of an archive before its extraction: which extractor to
/// run, and the content hash if one was asked for.
#[derive(Debug)]
pub struct Extraction {
    pub format: ArchiveFormat,
    pub hash: Option<String>,
}

/// What an extraction gives back: the first folder found at the root of the
/// destination, if there is one, and the content hash, if one was asked for.
#[derive(Debug)]
pub struct ExtractionResult {
    pub root: Option<TreePath>,
    pub hash: Option<String>,
}

/// The hash that goes with an archive: its content hash when one is wanted,
/// nothing otherwise.
pub open spec fn wanted_hash(bytes: Seq<u8>, compute_hash: bool) -> Option<Seq<char>> {
    if compute_hash {
        Some(hex_lower(sha256_digest(bytes)))
    } else {
        None
    }
}

/// An optional string as contracts see it.
pub open spec fn text_view(text: Option<String>) -> Option<Seq<char>> {
    match text {
        Some(s) => Some(s@),
        None => None,
    }
}

impl Extraction {
    /// The extraction is the one decided for an archive of these bytes: its
    /// format is the one that the bytes announce, and its hash is the content
    /// hash of the bytes when one was wanted, and absent otherwise.
    pub open spec fn decided_for(&self, bytes: Seq<u8>, compute_hash: bool) -> bool {
        &&& format_of(bytes) == Some(self.format)
        &&& text_view(self.hash) == wanted_hash(bytes, compute_hash)
    }
}

/// Decides how the archive held in `buffer` is to be unpacked.
///
/// The hash, when wanted, is that of the bytes as they were read, whichever
/// format they turn out to have. Bytes of no known format are refused, and
/// then nothing is to be extracted.
pub fn untar_archive(buffer: &[u8], compute_hash: bool) -> (r: Result<Extraction, ArchiveError>)
    ensures
        r is Ok <==> format_of(buffer@) is Some,
        r matches Ok(extraction) ==> extraction.decided_for(buffer@, compute_hash),
        r matches Err(e) ==> e == ArchiveError::UnrecognizedFormat,
{
    let hash = if compute_hash {
        Some(content_hash(buffer))
    } else {
        None
    };
    match sniff_format(buffer) {
        Ok(format) => Ok(Extraction { format, hash }),
        Err(e) => Err(e),
    }
}

/// Step `i` of the listing is a directory.
pub open spec fn is_directory_at(listing: Seq<Option<TreeEntryView>>, i: int) -> bool {
    listing[i] matches Some(entry) && entry.is_dir
}

/// `found` is the first directory of the listing: the path of a step that is
/// a directory, with no directory before it; or nothing, when no step is a
/// directory. Steps that could not be read are passed over.
pub open spec fn is_first_directory(
    listing: Seq<Option<TreeEntryView>>,
    found: Option<Seq<Seq<char>>>,
) -> bool {
    match found {
        Some(path) => exists|i: int|
            0 <= i < listing.len() && #[trigger] is_directory_at(listing, i) && (listing[i]->0).path
                == path && forall|j: int| 0 <= j < i ==> !#[trigger] is_directory_at(listing, j),
        None => forall|i: int| 0 <= i < listing.len() ==> !#[trigger] is_directory_at(listing, i),
    }
}

/// A path, if any, as contracts see it.
pub open spec fn path_view(path: Option<TreePath>) -> Option<Seq<Seq<char>>> {
    match path {
        Some(p) => Some(p@),
        None => None,
    }
}

/// The first directory among the children of a directory, in listing order.
pub fn first_directory(listing: &Vec<WalkItem>) -> (found: Option<TreePath>)
    ensures
        is_first_directory(walk_view(listing@), path_view(found)),
{
    let ghost steps = walk_view(listing@);
    let mut i: usize = 0;
    while i < listing.len()
        invariant
            steps == walk_view(listing@),
            i <= listing@.len(),
            forall|j: int| 0 <= j < i ==> !#[trigger] is_directory_at(steps, j),
        decreases listing@.len() - i,
    {
        match &listing[i] {
            WalkItem::Entry(entry) => {
                if entry.is_dir {
                    let path = entry.path.clone();
                    assert(is_directory_at(steps, i as int));
                    return Some(path);
                }
            },
            WalkItem::Unreadable => {},
        }
        i += 1;
    }
    None
}

impl Extraction {
    /// Closes an extraction: given the children of the destination as they
    /// are listed once the archive is unpacked, reports the first directory
    /// among them together with the hash decided at the start.
    pub fn finish(self, listing: &Vec<WalkItem>) -> (result: ExtractionResult)
        ensures
            is_first_directory(walk_view(listing@), path_view(result.root)),
            result.hash == self.hash,
    {
        ExtractionResult { root: first_directory(listing), hash: self.hash }
    }
}

/// The hash that an extraction reports is that of the bytes as they were
/// read, whichever extractor ran and whatever it left at the destination.
pub proof fn lemma_reported_hash_is_of_the_bytes_read(
    bytes: Seq<u8>,
    extraction: Extraction,
    result: ExtractionResult,
)
    requires
        extraction.decided_for(bytes, true),
        result.hash == extraction.hash,
    ensures
        text_view(result.hash) == Some(hex_lower(sha256_digest(bytes))),
{
}

/// Bytes that open with four zero bytes are of no known format, and neither
/// is anything shorter than four bytes.
pub proof fn lemma_unknown_openings(bytes: Seq<u8>)
    ensures
        bytes.len() < 4 ==> format_of(bytes) is None,
        bytes.len() >= 4 && bytes[0] == 0 && bytes[1] == 0 && bytes[2] == 0 && bytes[3] == 0
            ==> format_of(bytes) is None,
{
}

} // verus!
