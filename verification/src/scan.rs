//! Selection of regular files from a directory walk.
//!
//! The walk itself is I/O and happens outside the library; it hands over one
//! record per visited entry. Selection keeps exactly the regular files'
//! paths, in walk order, and fails as a whole as soon as any entry could not
//! be read (fail-fast, no best-effort mode).

use vstd::prelude::*;

use crate::errors::Error;

verus! {

/// One entry of a directory walk, as the walker reported it.
pub enum ScanEntry {
    /// A regular file at the given path.
    File { path: String },
    /// A directory or other non-regular entry; never uploaded.
    Other,
    /// An I/O error surfaced while reading this entry.
    ReadFailure,
}

/// No entry of the walk failed to read.
pub open spec fn scan_ok(entries: Seq<ScanEntry>) -> bool {
    forall|i: int| 0 <= i < entries.len() ==> !(entries[i] is ReadFailure)
}

/// The paths of the regular files among `entries`, in walk order.
pub open spec fn selected_paths(entries: Seq<ScanEntry>) -> Seq<Seq<char>>
    decreases entries.len(),
{
    if entries.len() == 0 {
        Seq::empty()
    } else {
        let rest = selected_paths(entries.drop_last());
        match entries.last() {
            ScanEntry::File { path } => rest.push(path@),
            _ => rest,
        }
    }
}

/// The paths of every regular file of a directory walk.
///
/// Fails with `Error::DirectoryRead` exactly when some entry of the walk
/// surfaced an I/O error; otherwise returns the files' paths, complete and
/// in walk order.
pub fn select_regular_files(entries: &Vec<ScanEntry>) -> (r: Result<Vec<String>, Error>)
    ensures
        match r {
            Ok(paths) => scan_ok(entries@) && paths@.map_values(|p: String| p@) == selected_paths(
                entries@,
            ),
            Err(e) => e == Error::DirectoryRead && !scan_ok(entries@),
        },
{
    let mut paths: Vec<String> = Vec::new();
    let n = entries.len();
    let mut i: usize = 0;
    while i < n
        invariant
            n == entries@.len(),
            i <= n,
            scan_ok(entries@.subrange(0, i as int)),
            paths@.map_values(|p: String| p@) == selected_paths(entries@.subrange(0, i as int)),
        decreases n - i,
    {
        let ghost prefix = entries@.subrange(0, i as int);
        match &entries[i] {
            ScanEntry::File { path } => {
                paths.push(path.clone());
            },
            ScanEntry::Other => {},
            ScanEntry::ReadFailure => {
                return Err(Error::DirectoryRead);
            },
        }
        proof {
            let next = entries@.subrange(0, i + 1int);
            assert(next.drop_last() =~= prefix);
            assert(next.last() == entries@[i as int]);
            match entries@[i as int] {
                ScanEntry::File { path } => {
                    assert(paths@.map_values(|p: String| p@) =~= selected_paths(prefix).push(
                        path@,
                    ));
                },
                _ => {},
            }
        }
        i += 1;
    }
    proof {
        assert(entries@.subrange(0, n as int) =~= entries@);
    }
    Ok(paths)
}

/// Enumeration is exact: over a walk whose entries are all regular files
/// with pairwise-distinct paths, the selected paths are exactly the entries'
/// paths — none dropped, none added, none repeated.
pub proof fn lemma_selection_exact(entries: Seq<ScanEntry>)
    requires
        forall|i: int| 0 <= i < entries.len() ==> entries[i] is File,
        forall|i: int, j: int|
            0 <= i < j < entries.len() ==> entries[i]->path@ != entries[j]->path@,
    ensures
        selected_paths(entries).len() == entries.len(),
        forall|i: int|
            0 <= i < entries.len() ==> selected_paths(entries)[i] == entries[i]->path@,
        selected_paths(entries).no_duplicates(),
    decreases entries.len(),
{
    if entries.len() > 0 {
        lemma_selection_exact(entries.drop_last());
    }
}

} // verus!
