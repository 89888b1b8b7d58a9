use vstd::prelude::*;

use crate::opt_view;

verus! {

/// The part of a file name after its last `.`; the whole name when it has
/// no `.`.
pub open spec fn extension_of(name: Seq<char>) -> Seq<char>
    decreases name.len(),
{
    if name.len() == 0 {
        name
    } else if name.last() == '.' {
        Seq::empty()
    } else {
        extension_of(name.drop_last()).push(name.last())
    }
}

/// The lower-case form of a string, as Unicode defines it.
pub uninterp spec fn lower_of(s: Seq<char>) -> Seq<char>;

/// Relies on `str::to_lowercase`: the result depends on the characters alone.
#[verifier::external_body]
pub(crate) fn lowercase(s: &str) -> (r: String)
    ensures
        r@ == lower_of(s@),
{
    s.to_lowercase()
}

/// The MIME type that a (lower-case) extension stands for, if it is one of
/// the known ones.
pub open spec fn mime_of(ext: Seq<char>) -> Option<Seq<char>> {
    if ext == "txt"@ || ext == "md"@ || ext == "log"@ || ext == "csv"@ {
        Some("text/plain"@)
    } else if ext == "html"@ || ext == "htm"@ {
        Some("text/html"@)
    } else if ext == "css"@ {
        Some("text/css"@)
    } else if ext == "js"@ || ext == "mjs"@ {
        Some("text/javascript"@)
    } else if ext == "ts"@ || ext == "tsx"@ {
        Some("text/typescript"@)
    } else if ext == "json"@ {
        Some("application/json"@)
    } else if ext == "xml"@ {
        Some("application/xml"@)
    } else if ext == "pdf"@ {
        Some("application/pdf"@)
    } else if ext == "zip"@ {
        Some("application/zip"@)
    } else if ext == "gz"@ || ext == "tar"@ {
        Some("application/gzip"@)
    } else if ext == "png"@ {
        Some("image/png"@)
    } else if ext == "jpg"@ || ext == "jpeg"@ {
        Some("image/jpeg"@)
    } else if ext == "gif"@ {
        Some("image/gif"@)
    } else if ext == "svg"@ {
        Some("image/svg+xml"@)
    } else if ext == "webp"@ {
        Some("image/webp"@)
    } else if ext == "mp3"@ {
        Some("audio/mpeg"@)
    } else if ext == "mp4"@ {
        Some("video/mp4"@)
    } else if ext == "rs"@ {
        Some("text/x-rust"@)
    } else if ext == "toml"@ {
        Some("text/x-toml"@)
    } else if ext == "yaml"@ || ext == "yml"@ {
        Some("text/x-yaml"@)
    } else if ext == "sh"@ || ext == "bash"@ || ext == "zsh"@ {
        Some("text/x-shellscript"@)
    } else {
        None
    }
}

/// Whether two strings hold the same characters.
fn same_chars(a: &str, b: &str) -> (r: bool)
    ensures
        r == (a@ == b@),
{
    let n = a.unicode_len();
    if n != b.unicode_len() {
        return false;
    }
    let mut i: usize = 0;
    while i < n
        invariant
            n == a@.len(),
            n == b@.len(),
            0 <= i <= n,
            a@.subrange(0, i as int) == b@.subrange(0, i as int),
        decreases n - i,
    {
        if a.get_char(i) != b.get_char(i) {
            return false;
        }
        assert(a@.subrange(0, i + 1) =~= a@.subrange(0, i as int).push(a@[i as int]));
        assert(b@.subrange(0, i + 1) =~= b@.subrange(0, i as int).push(b@[i as int]));
        i = i + 1;
    }
    assert(a@ =~= a@.subrange(0, n as int));
    assert(b@ =~= b@.subrange(0, n as int));
    true
}

/// Whether `ext` is one of `options`.
fn is_one_of(ext: &str, options: &[&str]) -> (r: bool)
    ensures
        r == exists|j: int| 0 <= j < options@.len() && ext@ == (#[trigger] options@[j])@,
{
    let mut i: usize = 0;
    while i < options.len()
        invariant
            0 <= i <= options@.len(),
            forall|j: int| 0 <= j < i ==> ext@ != (#[trigger] options@[j])@,
        decreases options@.len() - i,
    {
        if same_chars(ext, options[i]) {
            return true;
        }
        i = i + 1;
    }
    false
}

/// The MIME type of a lower-case extension, if it is a known one.
pub fn mime_for_extension(ext: &str) -> (r: Option<String>)
    ensures
        opt_view(r) == mime_of(ext@),
{
    if is_one_of(ext, &["txt", "md", "log", "csv"]) {
        Some("text/plain".to_owned())
    } else if is_one_of(ext, &["html", "htm"]) {
        Some("text/html".to_owned())
    } else if same_chars(ext, "css") {
        Some("text/css".to_owned())
    } else if is_one_of(ext, &["js", "mjs"]) {
        Some("text/javascript".to_owned())
    } else if is_one_of(ext, &["ts", "tsx"]) {
        Some("text/typescript".to_owned())
    } else if same_chars(ext, "json") {
        Some("application/json".to_owned())
    } else if same_chars(ext, "xml") {
        Some("application/xml".to_owned())
    } else if same_chars(ext, "pdf") {
        Some("application/pdf".to_owned())
    } else if same_chars(ext, "zip") {
        Some("application/zip".to_owned())
    } else if is_one_of(ext, &["gz", "tar"]) {
        Some("application/gzip".to_owned())
    } else if same_chars(ext, "png") {
        Some("image/png".to_owned())
    } else if is_one_of(ext, &["jpg", "jpeg"]) {
        Some("image/jpeg".to_owned())
    } else if same_chars(ext, "gif") {
        Some("image/gif".to_owned())
    } else if same_chars(ext, "svg") {
        Some("image/svg+xml".to_owned())
    } else if same_chars(ext, "webp") {
        Some("image/webp".to_owned())
    } else if same_chars(ext, "mp3") {
        Some("audio/mpeg".to_owned())
    } else if same_chars(ext, "mp4") {
        Some("video/mp4".to_owned())
    } else if same_chars(ext, "rs") {
        Some("text/x-rust".to_owned())
    } else if same_chars(ext, "toml") {
        Some("text/x-toml".to_owned())
    } else if is_one_of(ext, &["yaml", "yml"]) {
        Some("text/x-yaml".to_owned())
    } else if is_one_of(ext, &["sh", "bash", "zsh"]) {
        Some("text/x-shellscript".to_owned())
    } else {
        None
    }
}

/// The extension of a name is the run of characters after its last `.`.
proof fn lemma_extension_is_suffix(name: Seq<char>, k: int)
    requires
        0 <= k <= name.len(),
        forall|j: int| k <= j < name.len() ==> name[j] != '.',
        k == 0 || name[k - 1] == '.',
    ensures
        extension_of(name) == name.subrange(k, name.len() as int),
    decreases name.len(),
{
    if name.len() == k {
        assert(name.subrange(k, name.len() as int) =~= Seq::<char>::empty());
        if k == 0 {
            assert(name =~= Seq::<char>::empty());
        }
    } else {
        let prefix = name.drop_last();
        lemma_extension_is_suffix(prefix, k);
        assert(name.subrange(k, name.len() as int) =~= prefix.subrange(
            k,
            prefix.len() as int,
        ).push(name.last()));
    }
}

/// The part of `name` after its last `.`, or all of it when it has none.
pub fn extension(name: &str) -> (r: &str)
    ensures
        r@ == extension_of(name@),
{
    let n = name.unicode_len();
    let mut k: usize = n;
    while k > 0
        invariant
            n == name@.len(),
            0 <= k <= n,
            forall|j: int| k <= j < n ==> name@[j] != '.',
        ensures
            0 <= k <= n,
            forall|j: int| k <= j < n ==> name@[j] != '.',
            k == 0 || name@[k - 1] == '.',
        decreases k,
    {
        if name.get_char(k - 1) == '.' {
            break;
        }
        k = k - 1;
    }
    proof {
        lemma_extension_is_suffix(name@, k as int);
    }
    name.substring_char(k, n)
}

/// The MIME type of a file, guessed from its name: the extension, taken
/// after the last `.` and lower-cased, looked up among the known ones.
pub fn guess_mime(name: &str) -> (r: Option<String>)
    ensures
        opt_view(r) == mime_of(lower_of(extension_of(name@))),
{
    let ext = lowercase(extension(name));
    mime_for_extension(ext.as_str())
}

} // verus!
