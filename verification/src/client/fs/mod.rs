//! Remote file system types: file metadata, directory listings and the
//! chunking and positioning rules of remote files.

pub mod file;

use vstd::prelude::*;

use crate::protocol::FileAttributes;

verus! {

/// Metadata of a remote file.
pub type Metadata = FileAttributes;

/// Entries of a remote directory, as (file name, metadata) pairs.
pub struct ReadDir {
    pub entries: Vec<(String, Metadata)>,
}

} // verus!
