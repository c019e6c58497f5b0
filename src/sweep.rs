//! Choosing which entries of a directory a sweep runs.

use vstd::prelude::*;

use crate::script::{ends_with_suffix, has_suffix};

verus! {

/// One entry of a directory listing.
#[derive(Debug)]
pub struct DirEntry {
    /// File name of the entry (its last path component).
    pub name: String,
    /// Whether the entry is a directory.
    pub is_dir: bool,
}

/// Whether a file name marks a hidden entry.
pub open spec fn is_hidden(name: Seq<char>) -> bool {
    name.len() > 0 && name[0] == '.'
}

/// Whether a sweep runs the entry: a visible file whose name carries the
/// script suffix.
pub open spec fn eligible(name: Seq<char>, is_dir: bool) -> bool {
    !is_dir && !is_hidden(name) && has_suffix(name)
}

/// Whether a sweep runs `e`.
pub fn is_eligible(e: &DirEntry) -> (r: bool)
    ensures
        r == eligible(e.name@, e.is_dir),
{
    if e.is_dir {
        return false;
    }
    let name = e.name.as_str();
    if name.unicode_len() > 0 && name.get_char(0) == '.' {
        return false;
    }
    ends_with_suffix(name)
}

/// Positions, in listing order, of the entries that a sweep runs.
pub fn sweep_targets(entries: &Vec<DirEntry>) -> (r: Vec<usize>)
    ensures
        forall|k: int|
            0 <= k < r.len() ==> r[k] < entries.len() && eligible(
                entries[r[k] as int].name@,
                entries[r[k] as int].is_dir,
            ),
        forall|k: int, l: int| 0 <= k < l < r.len() ==> r[k] < r[l],
        forall|i: int|
            0 <= i < entries.len() && eligible(entries[i].name@, entries[i].is_dir) ==> exists|
                k: int,
            |
                0 <= k < r.len() && r[k] == i,
{
    let mut r: Vec<usize> = Vec::new();
    let mut i: usize = 0;
    while i < entries.len()
        invariant
            i <= entries.len(),
            forall|k: int|
                0 <= k < r.len() ==> r[k] < i && eligible(
                    entries[r[k] as int].name@,
                    entries[r[k] as int].is_dir,
                ),
            forall|k: int, l: int| 0 <= k < l < r.len() ==> r[k] < r[l],
            forall|j: int|
                0 <= j < i && eligible(entries[j].name@, entries[j].is_dir) ==> exists|k: int|
                    0 <= k < r.len() && r[k] == j,
        decreases entries.len() - i,
    {
        if is_eligible(&entries[i]) {
            let ghost before = r@;
            r.push(i);
            assert forall|j: int|
                0 <= j < i && eligible(entries[j].name@, entries[j].is_dir) implies exists|k: int|
                0 <= k < r.len() && r[k] == j by {
                let k = choose|k: int| 0 <= k < before.len() && before[k] == j;
                assert(r[k] == before[k]);
            }
            assert(r[r.len() - 1] == i);
        }
        i = i + 1;
    }
    r
}

/// Hidden entries and directories are never run by a sweep, nor is any entry
/// whose name lacks the script suffix.
pub proof fn lemma_sweep_exclusion(name: Seq<char>, is_dir: bool)
    ensures
        is_dir ==> !eligible(name, is_dir),
        is_hidden(name) ==> !eligible(name, is_dir),
        !has_suffix(name) ==> !eligible(name, is_dir),
{
}

} // verus!
