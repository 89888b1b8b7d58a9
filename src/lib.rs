//! Bookkeeping and decisions behind a multiplexer of pseudo-terminal shell
//! sessions: identifier allocation and the session table, the launch plan of
//! a shell, the output relay's step; and, for the file browser beside it, the
//! description, ordering, search and preview of directory entries.

use vstd::prelude::*;

pub mod entry;
pub mod error;
pub mod files;
pub mod listing;
pub mod mime;
pub mod registry;
pub mod relay;
pub mod spawn;

pub use entry::FileEntry;
pub use error::TerminalError;
pub use mime::guess_mime;
pub use registry::SessionRegistry;

verus! {

/// The character view of an optional string.
pub open spec fn opt_view(s: Option<String>) -> Option<Seq<char>> {
    match s {
        Some(t) => Some(t@),
        None => None,
    }
}

} // verus!
