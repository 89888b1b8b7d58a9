use vstd::prelude::*;

use crate::mime::{extension_of, guess_mime, lower_of, mime_of};
use crate::opt_view;

verus! {

/// One entry of a directory listing, as shown to the user.
pub struct FileEntry {
    pub name: String,
    pub path: String,
    pub is_dir: bool,
    pub is_symlink: bool,
    pub is_hidden: bool,
    /// Size in bytes; 0 for a directory.
    pub size: u64,
    /// Last modification time, `YYYY-MM-DD HH:MM` in local time, when known.
    pub modified: Option<String>,
    /// MIME type guessed from the name; never set for a directory.
    pub mime_type: Option<String>,
}

/// A name is hidden by convention when it starts with `.`.
pub open spec fn dot_hidden(name: Seq<char>) -> bool {
    name.len() > 0 && name[0] == '.'
}

/// Whether an entry is hidden: its name starts with `.`, or the file system
/// marks it hidden (`hidden_attribute`, only ever set on Windows).
pub fn is_hidden_file(name: &str, hidden_attribute: bool) -> (r: bool)
    ensures
        r == (hidden_attribute || dot_hidden(name@)),
{
    if hidden_attribute {
        return true;
    }
    if name.unicode_len() == 0 {
        return false;
    }
    name.get_char(0) == '.'
}

impl FileEntry {
    /// Describes an entry from what its metadata says. `is_dir` and `len`
    /// are those of the entry a symbolic link points to (or of the link
    /// itself when the target cannot be read).
    pub fn from_metadata(
        name: String,
        path: String,
        is_symlink: bool,
        hidden_attribute: bool,
        is_dir: bool,
        len: u64,
        modified: Option<String>,
    ) -> (r: FileEntry)
        ensures
            r.name@ == name@,
            r.path@ == path@,
            r.is_symlink == is_symlink,
            r.is_dir == is_dir,
            r.is_hidden == (hidden_attribute || dot_hidden(name@)),
            r.size == (if is_dir { 0 } else { len }),
            opt_view(r.modified) == opt_view(modified),
            opt_view(r.mime_type) == (if is_dir {
                None
            } else {
                mime_of(lower_of(extension_of(name@)))
            }),
    {
        let is_hidden = is_hidden_file(name.as_str(), hidden_attribute);
        let size = if is_dir { 0 } else { len };
        let mime_type = if is_dir { None } else { guess_mime(name.as_str()) };
        FileEntry { name, path, is_dir, is_symlink, is_hidden, size, modified, mime_type }
    }
}

} // verus!
