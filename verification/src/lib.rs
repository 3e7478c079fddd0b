//! A tiny read-only filesystem that serves a single text file whose content
//! is produced by an external generation command.
//!
//! The crate is split along the two roles of the system:
//! - [`content`]: normalizes the raw output of the generation command into
//!   the text blob the file serves;
//! - [`fs`]: the filesystem core itself — the fixed two-entry namespace,
//!   attribute and listing replies, byte-range reads, and the policy for
//!   when the content is refreshed.
//!
//! The host transport (mounting, kernel request decoding, spawning the
//! generation command) lives outside this crate and talks to the core
//! through plain values.

pub mod attr;
pub mod content;
pub mod fs;
