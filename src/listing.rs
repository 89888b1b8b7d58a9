use vstd::multiset::Multiset;
use vstd::prelude::*;

use crate::entry::FileEntry;
use crate::files::chars_of;
use crate::mime::{lower_of, lowercase};

verus! {

broadcast use vstd::seq_lib::group_to_multiset_ensures;

/// Lexicographic order of strings by code point, the order in which `str`
/// compares (UTF-8 preserves it byte for byte).
pub open spec fn chars_le(a: Seq<char>, b: Seq<char>) -> bool
    decreases a.len(),
{
    if a.len() == 0 {
        true
    } else if b.len() == 0 {
        false
    } else if a[0] != b[0] {
        a[0] < b[0]
    } else {
        chars_le(a.drop_first(), b.drop_first())
    }
}

/// In a listing `a` may stand before `b`: directories come first, and within
/// each group names go in the order of their lower-case forms.
pub open spec fn listed_before(a: FileEntry, b: FileEntry) -> bool {
    ||| a.is_dir && !b.is_dir
    ||| a.is_dir == b.is_dir && chars_le(lower_of(a.name@), lower_of(b.name@))
}

/// Every entry may stand before every later one.
pub open spec fn listing_sorted(s: Seq<FileEntry>) -> bool {
    forall|i: int, j: int| 0 <= i < j < s.len() ==> listed_before(#[trigger] s[i], #[trigger] s[j])
}

proof fn lemma_chars_le_total(a: Seq<char>, b: Seq<char>)
    ensures
        chars_le(a, b) || chars_le(b, a),
    decreases a.len(),
{
    if a.len() > 0 && b.len() > 0 && a[0] == b[0] {
        lemma_chars_le_total(a.drop_first(), b.drop_first());
    }
}

proof fn lemma_chars_le_trans(a: Seq<char>, b: Seq<char>, c: Seq<char>)
    requires
        chars_le(a, b),
        chars_le(b, c),
    ensures
        chars_le(a, c),
    decreases a.len(),
{
    if a.len() > 0 && b.len() > 0 && c.len() > 0 && a[0] == b[0] && b[0] == c[0] {
        lemma_chars_le_trans(a.drop_first(), b.drop_first(), c.drop_first());
    }
}

proof fn lemma_listed_total(a: FileEntry, b: FileEntry)
    ensures
        listed_before(a, b) || listed_before(b, a),
{
    lemma_chars_le_total(lower_of(a.name@), lower_of(b.name@));
}

proof fn lemma_listed_trans(a: FileEntry, b: FileEntry, c: FileEntry)
    requires
        listed_before(a, b),
        listed_before(b, c),
    ensures
        listed_before(a, c),
{
    if a.is_dir == b.is_dir && b.is_dir == c.is_dir {
        lemma_chars_le_trans(lower_of(a.name@), lower_of(b.name@), lower_of(c.name@));
    }
}

/// Whether `a` comes before `b` or equals it in code-point order.
fn chars_le_exec(a: &Vec<char>, b: &Vec<char>) -> (r: bool)
    ensures
        r == chars_le(a@, b@),
{
    let mut i: usize = 0;
    assert(a@ =~= a@.subrange(0, a@.len() as int));
    assert(b@ =~= b@.subrange(0, b@.len() as int));
    while i < a.len() && i < b.len()
        invariant
            0 <= i <= a@.len(),
            i <= b@.len(),
            chars_le(a@, b@) == chars_le(
                a@.subrange(i as int, a@.len() as int),
                b@.subrange(i as int, b@.len() as int),
            ),
        decreases a@.len() - i,
    {
        if a[i] != b[i] {
            return a[i] < b[i];
        }
        assert(a@.subrange(i + 1, a@.len() as int) =~= a@.subrange(
            i as int,
            a@.len() as int,
        ).drop_first());
        assert(b@.subrange(i + 1, b@.len() as int) =~= b@.subrange(
            i as int,
            b@.len() as int,
        ).drop_first());
        i = i + 1;
    }
    i == a.len()
}

/// Orders a directory listing: directories first, then by lower-case name.
/// Entries that compare equal keep their relative order.
pub fn sort_listing(entries: Vec<FileEntry>) -> (r: Vec<FileEntry>)
    ensures
        r@.to_multiset() == entries@.to_multiset(),
        listing_sorted(r@),
{
    let ghost original = entries@;
    let mut rest = entries;
    let mut out: Vec<FileEntry> = Vec::new();
    let mut keys: Vec<Vec<char>> = Vec::new();
    while rest.len() > 0
        invariant
            out@.to_multiset().add(rest@.to_multiset()) == original.to_multiset(),
            listing_sorted(out@),
            keys@.len() == out@.len(),
            forall|k: int| 0 <= k < out@.len() ==> (#[trigger] keys@[k])@ == lower_of(out@[k].name@),
        decreases rest@.len(),
    {
        let ghost before = rest@;
        let e = rest.remove(0);
        assert(before.remove(0).to_multiset() == before.to_multiset().remove(before[0]));
        let key = chars_of(lowercase(e.name.as_str()).as_str());
        let mut p: usize = 0;
        while p < out.len()
            invariant
                0 <= p <= out@.len(),
                key@ == lower_of(e.name@),
                keys@.len() == out@.len(),
                forall|k: int| 0 <= k < out@.len() ==> (#[trigger] keys@[k])@ == lower_of(out@[k].name@),
                forall|k: int| 0 <= k < p ==> listed_before(#[trigger] out@[k], e),
            ensures
                0 <= p <= out@.len(),
                forall|k: int| 0 <= k < p ==> listed_before(#[trigger] out@[k], e),
                p < out@.len() ==> !listed_before(out@[p as int], e),
            decreases out@.len() - p,
        {
            let o = &out[p];
            let before_e = if o.is_dir != e.is_dir {
                o.is_dir
            } else {
                chars_le_exec(&keys[p], &key)
            };
            if !before_e {
                break;
            }
            p = p + 1;
        }
        proof {
            let s = out@;
            assert forall|k: int| p <= k < s.len() implies listed_before(e, #[trigger] s[k]) by {
                lemma_listed_total(s[p as int], e);
                if k > p {
                    lemma_listed_trans(e, s[p as int], s[k]);
                }
            }
            let t = s.insert(p as int, e);
            assert forall|i: int, j: int| 0 <= i < j < t.len() implies listed_before(
                #[trigger] t[i],
                #[trigger] t[j],
            ) by {
                if j < p {
                    assert(t[i] == s[i] && t[j] == s[j]);
                } else if j == p {
                    assert(t[i] == s[i]);
                } else if i < p {
                    assert(t[i] == s[i] && t[j] == s[j - 1]);
                    lemma_listed_trans(s[i], e, s[j - 1]);
                } else if i == p {
                    assert(t[j] == s[j - 1]);
                } else {
                    assert(t[i] == s[i - 1] && t[j] == s[j - 1]);
                }
            }
        }
        let ghost keys_before = keys@;
        out.insert(p, e);
        keys.insert(p, key);
        proof {
            assert forall|k: int| 0 <= k < out@.len() implies (#[trigger] keys@[k])@ == lower_of(
                out@[k].name@,
            ) by {
                if k < p {
                    assert(keys@[k] == keys_before[k]);
                } else if k > p {
                    assert(keys@[k] == keys_before[k - 1]);
                }
            }
            assert(out@.to_multiset().add(rest@.to_multiset()) =~= original.to_multiset());
        }
    }
    assert(rest@.to_multiset() =~= Multiset::empty());
    assert(out@.to_multiset() =~= original.to_multiset());
    out
}

} // verus!
