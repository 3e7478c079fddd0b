//! The filesystem core: a fixed two-entry namespace (root directory and one
//! regular file) answering identity, attribute, listing, and read requests.
//!
//! The core exclusively owns the quote content for the life of a mount and
//! is the only entity that mutates it. Content is refreshed on successful
//! name resolution, never on attribute lookups or reads, so reads of an
//! already-resolved file see one coherent snapshot.

use vstd::prelude::*;

use crate::attr::FileAttr;
use crate::attr::FileKind;
use crate::attr::QUOTE_INO;
use crate::attr::ROOT_INO;
use crate::attr::dir_attr;
use crate::attr::dir_attr_spec;
use crate::attr::file_attr_spec;
use crate::attr::generate_file_attr;
use crate::content::FetchOutcome;
use crate::content::NEWLINE;
use crate::content::lemma_normalized_text_single_newline;
use crate::content::lossy_decode_of;
use crate::content::normalize_quote;
use crate::content::normalized_of;
use crate::content::normalized_text;
use crate::content::trimmed_of;

verus! {

/// Why a request was not answered.
#[derive(Clone, Copy, Debug, PartialEq, Eq, Structural)]
pub enum FsError {
    /// The operation targeted an identity, (parent, name) pair, or path the
    /// namespace does not recognize.
    NotFound,
    /// The external generation command exited unsuccessfully or could not be
    /// spawned; the previous content is left untouched.
    GenerationFailure,
}

impl FsError {
    /// A diagnostic message for the error, for the host to log or attach
    /// to its reply.
    pub fn message(&self) -> (r: &'static str)
        ensures
            self is NotFound ==> r@ == "entry does not exist"@,
            self is GenerationFailure ==> r@ == "Failed to execute command"@,
    {
        match self {
            FsError::NotFound => "entry does not exist",
            FsError::GenerationFailure => "Failed to execute command",
        }
    }
}

/// The filesystem core's state: the current quote text and its byte length.
pub struct QuoteFs {
    file_size: u64,
    file_content: Vec<u8>,
}

impl QuoteFs {
    /// The byte length the core currently reports for the quote file.
    pub closed spec fn size_spec(&self) -> u64 {
        self.file_size
    }

    /// The bytes the quote file currently serves.
    pub closed spec fn content_spec(&self) -> Seq<u8> {
        self.file_content@
    }

    /// The core's invariant: the reported length always equals the byte
    /// length of the content, and the content is some text without
    /// surrounding whitespace followed by exactly one trailing newline.
    pub open spec fn wf(&self) -> bool {
        &&& self.size_spec() == self.content_spec().len()
        &&& exists|t: Seq<char>| normalized_text(self.content_spec(), t)
    }

    /// Creates a core holding the default content, used until the quote
    /// file's name is first resolved. The placeholder is served in the
    /// same normalized shape as every quote: trimmed text plus exactly
    /// one trailing newline.
    pub fn new() -> (r: QuoteFs)
        ensures
            r.wf(),
            r.content_spec() == default_content_spec(),
    {
        let text: String = "This is a default content".to_owned();
        let mut file_content = text.as_str().as_bytes_vec();
        file_content.push(NEWLINE);
        let file_size = file_content.len() as u64;
        proof {
            reveal_strlit("This is a default content");
            assert(normalized_text(file_content@, "This is a default content"@));
        }
        QuoteFs { file_size, file_content }
    }

    /// Applies one outcome of the external generation command: on success
    /// the content becomes the normalized command output; on failure the
    /// previous content is left untouched and the call fails instead.
    pub fn update_file(&mut self, fetch: FetchOutcome) -> (r: Result<(), FsError>)
        ensures
            match fetch {
                FetchOutcome::Success(raw) => {
                    &&& r is Ok
                    &&& final(self).content_spec() == normalized_of(raw@)
                    &&& final(self).wf()
                },
                FetchOutcome::Failure => {
                    &&& r == Err::<(), FsError>(FsError::GenerationFailure)
                    &&& *final(self) == *old(self)
                },
            },
    {
        match fetch {
            FetchOutcome::Success(raw) => {
                let quote = normalize_quote(&raw);
                let size = quote.len() as u64;
                self.file_content = quote;
                self.file_size = size;
                proof {
                    assert(normalized_text(
                        self.file_content@,
                        trimmed_of(lossy_decode_of(raw@)),
                    ));
                }
                Ok(())
            },
            FetchOutcome::Failure => Err(FsError::GenerationFailure),
        }
    }

    /// Decides whether a resolution request names the quote file: only the
    /// pair (root directory, `"random_quote.txt"`) resolves; every other
    /// (parent, name) pair is unknown to the namespace.
    pub fn lookup_matches(parent: u64, name: &String) -> (b: bool)
        ensures
            b <==> (parent == ROOT_INO && name@ == quote_file_name()),
    {
        let expected: String = "random_quote.txt".to_owned();
        parent == ROOT_INO && name.eq(&expected)
    }

    /// Completes a successful name resolution once the generation command
    /// has run: applies the refresh and returns the quote file's attributes
    /// at the new size. On a failed refresh the previous content is left
    /// untouched and the resolution fails with `GenerationFailure`.
    pub fn lookup_resolve(&mut self, fetch: FetchOutcome) -> (r: Result<FileAttr, FsError>)
        ensures
            match fetch {
                FetchOutcome::Success(raw) => {
                    &&& final(self).content_spec() == normalized_of(raw@)
                    &&& final(self).wf()
                    &&& r == Ok::<FileAttr, FsError>(file_attr_spec(final(self).size_spec()))
                },
                FetchOutcome::Failure => {
                    &&& r == Err::<FileAttr, FsError>(FsError::GenerationFailure)
                    &&& *final(self) == *old(self)
                },
            },
    {
        match self.update_file(fetch) {
            Ok(()) => Ok(generate_file_attr(self.file_size)),
            Err(e) => Err(e),
        }
    }

    /// Answers an attribute request: the root directory's constant
    /// attributes, the quote file's attributes at the current cached size
    /// (no refresh), or `NotFound` for any other identity.
    pub fn getattr(&self, ino: u64) -> (r: Result<FileAttr, FsError>)
        ensures
            ino == ROOT_INO ==> r == Ok::<FileAttr, FsError>(dir_attr_spec()),
            ino == QUOTE_INO ==> r == Ok::<FileAttr, FsError>(file_attr_spec(self.size_spec())),
            ino != ROOT_INO && ino != QUOTE_INO ==> r == Err::<FileAttr, FsError>(FsError::NotFound),
    {
        if ino == ROOT_INO {
            Ok(dir_attr())
        } else if ino == QUOTE_INO {
            Ok(generate_file_attr(self.file_size))
        } else {
            Err(FsError::NotFound)
        }
    }

    /// Serves a byte-range read of the quote file: everything from the
    /// offset through the end of the current content. An offset at or past
    /// the content length yields an empty result; only the quote file is
    /// readable.
    pub fn read(&self, ino: u64, offset: u64) -> (r: Result<Vec<u8>, FsError>)
        ensures
            ino == QUOTE_INO ==> (r matches Ok(data) && data@ == read_bytes_spec(
                self.content_spec(),
                offset,
            )),
            ino != QUOTE_INO ==> r == Err::<Vec<u8>, FsError>(FsError::NotFound),
    {
        if ino == QUOTE_INO {
            let len = self.file_content.len();
            if offset >= len as u64 {
                proof {
                    assert(read_bytes_spec(self.content_spec(), offset) =~= Seq::<u8>::empty());
                }
                Ok(Vec::new())
            } else {
                let tail = vstd::slice::slice_subrange(
                    self.file_content.as_slice(),
                    offset as usize,
                    len,
                );
                let data = vstd::slice::slice_to_vec(tail);
                proof {
                    assert(data@ =~= read_bytes_spec(self.content_spec(), offset));
                }
                Ok(data)
            }
        } else {
            Err(FsError::NotFound)
        }
    }

    /// Lists the root directory from a zero-based position in its fixed
    /// three-entry listing, tagging each entry with a cursor for resumption;
    /// only the root directory is listable.
    pub fn readdir(&self, ino: u64, start_offset: u64) -> (r: Result<Vec<DirEntry>, FsError>)
        ensures
            ino == ROOT_INO ==> (r matches Ok(entries) && entries_view(entries@)
                == listing_spec(start_offset)),
            ino != ROOT_INO ==> r == Err::<Vec<DirEntry>, FsError>(FsError::NotFound),
    {
        if ino != ROOT_INO {
            return Err(FsError::NotFound);
        }
        let mut entries: Vec<DirEntry> = Vec::new();
        if start_offset <= 0 {
            entries.push(
                DirEntry {
                    ino: ROOT_INO,
                    cursor: 1,
                    kind: FileKind::Directory,
                    name: ".".to_owned(),
                },
            );
        }
        if start_offset <= 1 {
            entries.push(
                DirEntry {
                    ino: ROOT_INO,
                    cursor: 2,
                    kind: FileKind::Directory,
                    name: "..".to_owned(),
                },
            );
        }
        if start_offset <= 2 {
            entries.push(
                DirEntry {
                    ino: QUOTE_INO,
                    cursor: 3,
                    kind: FileKind::RegularFile,
                    name: "random_quote.txt".to_owned(),
                },
            );
        }
        proof {
            assert(entries_view(entries@) =~= listing_spec(start_offset));
        }
        Ok(entries)
    }
}

/// One entry of a directory listing: the identity it reports, a cursor for
/// resuming the listing after this entry, its kind, and its name.
#[derive(Debug)]
pub struct DirEntry {
    pub ino: u64,
    pub cursor: u64,
    pub kind: FileKind,
    pub name: String,
}

/// The plain value an emitted directory entry carries.
pub open spec fn entry_view(e: DirEntry) -> (u64, u64, FileKind, Seq<char>) {
    (e.ino, e.cursor, e.kind, e.name@)
}

/// The plain values a whole listing carries, in order.
pub open spec fn entries_view(es: Seq<DirEntry>) -> Seq<(u64, u64, FileKind, Seq<char>)> {
    es.map_values(|e: DirEntry| entry_view(e))
}

/// The name under which the quote file resolves.
pub open spec fn quote_file_name() -> Seq<char> {
    "random_quote.txt"@
}

/// The fixed listing of the root directory: self, parent, quote file.
/// The identities are the namespace's own: "." and ".." both name the
/// root (the root of a mount is its own parent), and the quote file is
/// listed under its lookup identity. The cursors are the one-based
/// positions in this list.
pub open spec fn full_listing_spec() -> Seq<(u64, u64, FileKind, Seq<char>)> {
    seq![
        (ROOT_INO, 1u64, FileKind::Directory, "."@),
        (ROOT_INO, 2u64, FileKind::Directory, ".."@),
        (QUOTE_INO, 3u64, FileKind::RegularFile, "random_quote.txt"@),
    ]
}

/// What a listing starting at the given zero-based position yields.
pub open spec fn listing_spec(start_offset: u64) -> Seq<(u64, u64, FileKind, Seq<char>)> {
    if start_offset >= 3 {
        Seq::empty()
    } else {
        full_listing_spec().skip(start_offset as int)
    }
}

/// What a read of the quote file's content at the given offset yields: the
/// suffix of the content from the offset on, or nothing once the offset is
/// at or past the end.
pub open spec fn read_bytes_spec(content: Seq<u8>, offset: u64) -> Seq<u8> {
    if offset <= content.len() {
        content.skip(offset as int)
    } else {
        Seq::empty()
    }
}

/// The bytes of the placeholder text a fresh core holds before the first
/// successful refresh, already in normalized shape.
pub open spec fn default_content_spec() -> Seq<u8> {
    vstd::utf8::encode_utf8("This is a default content"@).push(NEWLINE)
}

/// Every valid read returns the suffix of the current content starting at
/// the offset; at an offset equal to the content length the result is
/// empty.
pub proof fn lemma_read_is_suffix(fs: QuoteFs, offset: u64)
    requires
        offset <= fs.content_spec().len(),
    ensures
        read_bytes_spec(fs.content_spec(), offset) == fs.content_spec().skip(offset as int),
        offset == fs.content_spec().len() ==> read_bytes_spec(fs.content_spec(), offset)
            == Seq::<u8>::empty(),
{
    if offset == fs.content_spec().len() {
        assert(fs.content_spec().skip(offset as int) =~= Seq::<u8>::empty());
    }
}

/// Reads without an intervening refresh are consistent slices of one
/// content snapshot: the read at the later offset is exactly the
/// corresponding suffix of the read at the earlier one.
pub proof fn lemma_reads_consistent(fs: QuoteFs, off1: u64, off2: u64)
    requires
        off1 <= off2 <= fs.content_spec().len(),
    ensures
        read_bytes_spec(fs.content_spec(), off2) == read_bytes_spec(fs.content_spec(), off1).skip(
            off2 - off1,
        ),
{
    assert(fs.content_spec().skip(off1 as int).skip(off2 - off1) =~= fs.content_spec().skip(
        off2 as int,
    ));
}

/// Every well-formed content ends with exactly one trailing newline: its
/// last byte is the newline byte, and the byte before it, if any, is not —
/// the trimmed text in front of the appended newline cannot end in
/// whitespace, so it cannot contribute a second one.
pub proof fn lemma_content_ends_with_newline(fs: QuoteFs)
    requires
        fs.wf(),
    ensures
        fs.content_spec().len() > 0,
        fs.content_spec()[fs.content_spec().len() - 1] == NEWLINE,
        fs.content_spec().len() >= 2 ==> fs.content_spec()[fs.content_spec().len() - 2] != NEWLINE,
{
    let t = choose|t: Seq<char>| normalized_text(fs.content_spec(), t);
    lemma_normalized_text_single_newline(fs.content_spec(), t);
}

/// The root directory's listing is the same three fixed entries in the
/// same fixed order on every invocation and in every state; a listing
/// starting at or past position three yields nothing.
pub proof fn lemma_listing_fixed(start_offset: u64)
    ensures
        listing_spec(0).len() == 3,
        start_offset < 3 ==> listing_spec(start_offset) == full_listing_spec().skip(
            start_offset as int,
        ),
        start_offset >= 3 ==> listing_spec(start_offset) == Seq::<
            (u64, u64, FileKind, Seq<char>),
        >::empty(),
{
}

} // verus!
