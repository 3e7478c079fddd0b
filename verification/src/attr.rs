//! File attributes for the two namespace entries.
//!
//! Both entries report the same fixed permissions, owner, and sentinel
//! timestamps; only the identity, the kind, and (for the file) the size
//! differ. Attributes are recomputed from current state on every request,
//! never stored.

use vstd::prelude::*;

verus! {

/// Identity of the root directory.
pub const ROOT_INO: u64 = 1;

/// Identity of the quote file.
pub const QUOTE_INO: u64 = 2;

/// Advisory time-to-live, in seconds, attached to every attribute-bearing
/// reply as a caching hint for the calling layer. Not enforced internally.
pub const TTL_SECS: u64 = 5;

/// The kind of a namespace entry.
#[derive(Clone, Copy, Debug, PartialEq, Eq, Structural)]
pub enum FileKind {
    Directory,
    RegularFile,
}

/// A snapshot of an entry's attributes. Timestamps are seconds since the
/// epoch and are fixed at the sentinel value zero — they are never updated.
#[derive(Clone, Copy, Debug, PartialEq, Eq, Structural)]
pub struct FileAttr {
    pub ino: u64,
    pub size: u64,
    pub blocks: u64,
    pub atime_secs: u64,
    pub mtime_secs: u64,
    pub ctime_secs: u64,
    pub crtime_secs: u64,
    pub kind: FileKind,
    pub perm: u16,
    pub nlink: u32,
    pub uid: u32,
    pub gid: u32,
    pub rdev: u32,
    pub flags: u32,
    pub blksize: u32,
}

/// The constant attributes of the root directory.
pub open spec fn dir_attr_spec() -> FileAttr {
    FileAttr {
        ino: ROOT_INO,
        size: 0,
        blocks: 0,
        atime_secs: 0,
        mtime_secs: 0,
        ctime_secs: 0,
        crtime_secs: 0,
        kind: FileKind::Directory,
        perm: 0o755,
        nlink: 2,
        uid: 301,
        gid: 0,
        rdev: 0,
        flags: 0,
        blksize: 512,
    }
}

/// The attributes of the quote file for a given content size.
pub open spec fn file_attr_spec(file_size: u64) -> FileAttr {
    FileAttr {
        ino: QUOTE_INO,
        size: file_size,
        blocks: 0,
        atime_secs: 0,
        mtime_secs: 0,
        ctime_secs: 0,
        crtime_secs: 0,
        kind: FileKind::RegularFile,
        perm: 0o755,
        nlink: 2,
        uid: 301,
        gid: 0,
        rdev: 0,
        flags: 0,
        blksize: 512,
    }
}

/// Builds the root directory's attributes.
pub fn dir_attr() -> (r: FileAttr)
    ensures
        r == dir_attr_spec(),
{
    FileAttr {
        ino: ROOT_INO,
        size: 0,
        blocks: 0,
        atime_secs: 0,
        mtime_secs: 0,
        ctime_secs: 0,
        crtime_secs: 0,
        kind: FileKind::Directory,
        perm: 0o755,
        nlink: 2,
        uid: 301,
        gid: 0,
        rdev: 0,
        flags: 0,
        blksize: 512,
    }
}

/// Builds the quote file's attributes for the given content size.
pub fn generate_file_attr(file_size: u64) -> (r: FileAttr)
    ensures
        r == file_attr_spec(file_size),
{
    FileAttr {
        ino: QUOTE_INO,
        size: file_size,
        blocks: 0,
        atime_secs: 0,
        mtime_secs: 0,
        ctime_secs: 0,
        crtime_secs: 0,
        kind: FileKind::RegularFile,
        perm: 0o755,
        nlink: 2,
        uid: 301,
        gid: 0,
        rdev: 0,
        flags: 0,
        blksize: 512,
    }
}

} // verus!
