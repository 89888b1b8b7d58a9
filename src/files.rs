use vstd::prelude::*;
use vstd::utf8::{decode_utf8, valid_utf8};

use crate::mime::{lower_of, lowercase};

verus! {

/// How many bytes of a file a preview shows when the caller gives no limit.
pub const DEFAULT_PREVIEW_BYTES: usize = 10000;

/// How many entries a search returns when the caller gives no limit.
pub const DEFAULT_MAX_RESULTS: usize = 200;

/// The first `max` bytes, or all of them when there are fewer.
pub open spec fn preview_cut(bytes: Seq<u8>, max: nat) -> Seq<u8> {
    if bytes.len() > max {
        bytes.subrange(0, max as int)
    } else {
        bytes
    }
}

/// Relies on `std::str::from_utf8`: it accepts exactly the valid UTF-8 byte
/// sequences and then yields the characters they encode.
#[verifier::external_body]
fn utf8_text(bytes: &[u8]) -> (r: Option<String>)
    ensures
        r is Some <==> valid_utf8(bytes@),
        r matches Some(s) ==> s@ == decode_utf8(bytes@),
{
    match std::str::from_utf8(bytes) {
        Ok(s) => Some(s.to_owned()),
        Err(_) => None,
    }
}

/// The text of a file's first bytes: at most `max_bytes` of them (10000
/// when no limit is given), or `None` when they are not valid UTF-8, as in a
/// binary file or where the cut falls inside a character.
pub fn preview_text(bytes: &[u8], max_bytes: Option<usize>) -> (r: Option<String>)
    ensures
        ({
            let max = match max_bytes {
                Some(m) => m,
                None => DEFAULT_PREVIEW_BYTES,
            };
            let cut = preview_cut(bytes@, max as nat);
            &&& r is Some <==> valid_utf8(cut)
            &&& r matches Some(s) ==> s@ == decode_utf8(cut)
        }),
{
    let max = match max_bytes {
        Some(m) => m,
        None => DEFAULT_PREVIEW_BYTES,
    };
    let n = if bytes.len() > max { max } else { bytes.len() };
    let mut cut: Vec<u8> = Vec::new();
    let mut i: usize = 0;
    while i < n
        invariant
            n <= bytes@.len(),
            0 <= i <= n,
            cut@ == bytes@.subrange(0, i as int),
        decreases n - i,
    {
        cut.push(bytes[i]);
        i = i + 1;
        assert(cut@ =~= bytes@.subrange(0, i as int));
    }
    assert(cut@ =~= preview_cut(bytes@, max as nat));
    utf8_text(cut.as_slice())
}

/// `needle` occurs as a contiguous run of `hay`.
pub open spec fn occurs_in(needle: Seq<char>, hay: Seq<char>) -> bool {
    exists|i: int|
        0 <= i && i + needle.len() <= hay.len() && #[trigger] hay.subrange(i, i + needle.len())
            == needle
}

/// The characters of a string, one per slot.
pub(crate) fn chars_of(s: &str) -> (r: Vec<char>)
    ensures
        r@ == s@,
{
    let n = s.unicode_len();
    let mut r: Vec<char> = Vec::new();
    let mut i: usize = 0;
    while i < n
        invariant
            n == s@.len(),
            0 <= i <= n,
            r@ == s@.subrange(0, i as int),
        decreases n - i,
    {
        r.push(s.get_char(i));
        i = i + 1;
        assert(r@ =~= s@.subrange(0, i as int));
    }
    assert(r@ =~= s@);
    r
}

/// Whether `hay` holds `needle` at position `at`.
fn matches_at(hay: &Vec<char>, needle: &Vec<char>, at: usize) -> (r: bool)
    requires
        at + needle@.len() <= hay@.len(),
    ensures
        r == (hay@.subrange(at as int, at + needle@.len()) == needle@),
{
    let hay_len = hay.len();
    let mut j: usize = 0;
    while j < needle.len()
        invariant
            hay_len == hay@.len(),
            at + needle@.len() <= hay@.len(),
            0 <= j <= needle@.len(),
            hay@.subrange(at as int, at + j) == needle@.subrange(0, j as int),
        decreases needle@.len() - j,
    {
        if hay[at + j] != needle[j] {
            assert(hay@.subrange(at as int, at + needle@.len())[j as int] != needle@[j as int]);
            return false;
        }
        j = j + 1;
        assert(hay@.subrange(at as int, at + j) =~= needle@.subrange(0, j as int));
    }
    assert(needle@.subrange(0, j as int) =~= needle@);
    true
}

/// Whether `needle` occurs in `hay`, character for character.
pub fn contains_text(hay: &str, needle: &str) -> (r: bool)
    ensures
        r == occurs_in(needle@, hay@),
{
    let h = chars_of(hay);
    let n = chars_of(needle);
    if n.len() > h.len() {
        return false;
    }
    if n.len() == 0 {
        assert(hay@.subrange(0int, 0int + needle@.len()) =~= needle@);
        return true;
    }
    let hay_len = h.len();
    let last = hay_len - n.len();
    let mut i: usize = 0;
    while i <= last
        invariant
            hay_len == h@.len(),
            h@ == hay@,
            n@ == needle@,
            last == h@.len() - n@.len(),
            last < h@.len(),
            0 <= i <= last + 1,
            forall|k: int| 0 <= k < i ==> #[trigger] hay@.subrange(k, k + needle@.len()) != needle@,
        decreases last + 1 - i,
    {
        if matches_at(&h, &n, i) {
            assert(hay@.subrange(i as int, i + needle@.len()) == needle@);
            return true;
        }
        i = i + 1;
    }
    false
}

/// Whether a file name matches a search query: the query occurs in the
/// name, both lower-cased.
pub fn name_matches(name: &str, query: &str) -> (r: bool)
    ensures
        r == occurs_in(lower_of(query@), lower_of(name@)),
{
    let name_lower = lowercase(name);
    let query_lower = lowercase(query);
    contains_text(name_lower.as_str(), query_lower.as_str())
}

/// What a search does with the next entry of the walk.
pub enum SearchStep {
    /// Enough results were found: stop walking.
    Done,
    /// The entry matches: add it to the results.
    Take,
    /// The entry does not match: go on.
    Skip,
}

/// Decides a search's next move, given how many results it has, its limit
/// (200 when none is given), and the name of the next entry.
pub fn search_step(found: usize, max_results: Option<usize>, name: &str, query: &str) -> (r:
    SearchStep)
    ensures
        ({
            let max = match max_results {
                Some(m) => m,
                None => DEFAULT_MAX_RESULTS,
            };
            &&& r is Done <==> found >= max
            &&& r is Take <==> found < max && occurs_in(lower_of(query@), lower_of(name@))
        }),
{
    let max = match max_results {
        Some(m) => m,
        None => DEFAULT_MAX_RESULTS,
    };
    if found >= max {
        SearchStep::Done
    } else if name_matches(name, query) {
        SearchStep::Take
    } else {
        SearchStep::Skip
    }
}

} // verus!
