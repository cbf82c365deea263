//! Path-to-key logic: expressing a discovered file path relative to the scan
//! root, taking the parent directory of that relative path as the secret key,
//! and extracting the file extension that drives normalization.
//!
//! Paths are plain `/`-separated strings throughout.

use vstd::prelude::*;

use crate::errors::Error;
use crate::strings::rfind_char;

verus! {

/// The remainder of `path` after the root prefix, if `path` lies under
/// `root`: either `root` ends with a separator and `path` strictly extends
/// it, or a separator follows the `root` prefix inside `path`. An empty root
/// leaves the path as it is.
pub open spec fn strip_spec(path: Seq<char>, root: Seq<char>) -> Option<Seq<char>> {
    if root.len() == 0 {
        if path.len() > 0 {
            Some(path)
        } else {
            None
        }
    } else if path.len() > root.len() && path.subrange(0, root.len() as int) == root {
        if root[root.len() - 1] == '/' {
            Some(path.subrange(root.len() as int, path.len() as int))
        } else if path[root.len() as int] == '/' {
            Some(path.subrange(root.len() as int + 1, path.len() as int))
        } else {
            None
        }
    } else {
        None
    }
}

/// `i` is the index of the last separator in `s`.
pub open spec fn is_last_slash(s: Seq<char>, i: int) -> bool {
    &&& 0 <= i < s.len()
    &&& s[i] == '/'
    &&& forall|j: int| i < j < s.len() ==> s[j] != '/'
}

/// `s` contains at least one separator.
pub open spec fn has_slash(s: Seq<char>) -> bool {
    exists|i: int| 0 <= i < s.len() && s[i] == '/'
}

/// The index of the last separator in `s`; meaningful only when one exists.
pub open spec fn last_slash_of(s: Seq<char>) -> int {
    choose|i: int| is_last_slash(s, i)
}

/// The parent directory of a relative path: everything before the last
/// separator, if any.
pub open spec fn key_of(rel: Seq<char>) -> Option<Seq<char>> {
    if exists|i: int| is_last_slash(rel, i) {
        Some(rel.subrange(0, last_slash_of(rel)))
    } else {
        None
    }
}

/// The secret key of a file path under a root: the parent directory of the
/// root-relative path.
pub open spec fn key_spec(path: Seq<char>, root: Seq<char>) -> Option<Seq<char>> {
    match strip_spec(path, root) {
        Some(rel) => key_of(rel),
        None => None,
    }
}

/// A sequence has at most one last separator.
pub proof fn lemma_last_slash_unique(s: Seq<char>, i1: int, i2: int)
    requires
        is_last_slash(s, i1),
        is_last_slash(s, i2),
    ensures
        i1 == i2,
{
    if i1 < i2 {
        assert(s[i2] == '/');
        assert(s[i2] != '/');
    }
    if i2 < i1 {
        assert(s[i1] == '/');
        assert(s[i1] != '/');
    }
}

/// A file whose root-relative path has no parent segment — a file sitting
/// directly at the root — yields no secret key.
pub proof fn lemma_root_file_has_no_key(path: Seq<char>, root: Seq<char>)
    requires
        strip_spec(path, root) is Some,
        !has_slash(strip_spec(path, root).unwrap()),
    ensures
        key_spec(path, root) is None,
{
    let rel = strip_spec(path, root).unwrap();
    assert forall|i: int| !is_last_slash(rel, i) by {
        if is_last_slash(rel, i) {
            assert(0 <= i < rel.len() && rel[i] == '/');
        }
    }
}

/// Expresses `path` relative to the scan root `root`.
///
/// Fails with `Error::PathRelation` exactly when `path` does not lie
/// strictly under `root`.
pub fn strip_root(path: &str, root: &str) -> (r: Result<String, Error>)
    ensures
        match r {
            Ok(rel) => strip_spec(path@, root@) == Some(rel@),
            Err(e) => e == Error::PathRelation && strip_spec(path@, root@) is None,
        },
{
    let np = path.unicode_len();
    let nr = root.unicode_len();
    if nr == 0 {
        if np > 0 {
            return Ok(String::from_str(path));
        } else {
            return Err(Error::PathRelation);
        }
    }
    if np <= nr {
        return Err(Error::PathRelation);
    }
    let mut i: usize = 0;
    while i < nr
        invariant
            np == path@.len(),
            nr == root@.len(),
            0 < nr < np,
            i <= nr,
            forall|j: int| 0 <= j < i ==> path@[j] == root@[j],
        decreases nr - i,
    {
        if path.get_char(i) != root.get_char(i) {
            assert(strip_spec(path@, root@) is None) by {
                assert(path@.subrange(0, nr as int)[i as int] != root@[i as int]);
            }
            return Err(Error::PathRelation);
        }
        i += 1;
    }
    proof {
        assert(path@.subrange(0, nr as int) =~= root@);
    }
    if root.get_char(nr - 1) == '/' {
        let rel = String::from_str(path.substring_char(nr, np));
        return Ok(rel);
    }
    if path.get_char(nr) == '/' {
        let rel = String::from_str(path.substring_char(nr + 1, np));
        return Ok(rel);
    }
    Err(Error::PathRelation)
}

/// The parent directory of the relative path `rel`: everything before the
/// last separator.
///
/// Fails with `Error::PathRelation` exactly when `rel` has no separator,
/// that is, when the file sits directly at the root and has no containing
/// directory to serve as a secret key.
pub fn parent_key(rel: &str) -> (r: Result<String, Error>)
    ensures
        match r {
            Ok(key) => exists|i: int|
                is_last_slash(rel@, i) && key@ == rel@.subrange(0, i),
            Err(e) => e == Error::PathRelation && !has_slash(rel@),
        },
{
    match rfind_char(rel, '/') {
        Some(i) => {
            let key = String::from_str(rel.substring_char(0, i));
            proof {
                assert(is_last_slash(rel@, i as int) && key@ == rel@.subrange(0, i as int));
            }
            Ok(key)
        },
        None => Err(Error::PathRelation),
    }
}

/// The secret key for a discovered file: the parent directory of the file's
/// root-relative path.
///
/// Fails with `Error::PathRelation` exactly when the path does not lie
/// strictly under the root, or when the relative path has no parent segment.
pub fn secret_key_for(path: &str, root: &str) -> (r: Result<String, Error>)
    ensures
        match r {
            Ok(key) => ({
                &&& strip_spec(path@, root@) is Some
                &&& exists|i: int|
                    is_last_slash(strip_spec(path@, root@).unwrap(), i) && key@ == strip_spec(
                        path@,
                        root@,
                    ).unwrap().subrange(0, i)
            }),
            Err(e) => e == Error::PathRelation && (strip_spec(path@, root@) is None || !has_slash(
                strip_spec(path@, root@).unwrap(),
            )),
        },
{
    let rel = strip_root(path, root)?;
    let r = parent_key(rel.as_str());
    proof {
        if r is Ok {
            let key = r.unwrap();
            let i = choose|i: int| is_last_slash(rel@, i) && key@ == rel@.subrange(0, i);
            assert(is_last_slash(strip_spec(path@, root@).unwrap(), i) && key@ == strip_spec(
                path@,
                root@,
            ).unwrap().subrange(0, i));
        }
    }
    r
}

/// `f` is the index of the first character of the file name in `path`: it is
/// preceded by a separator or by nothing, and no separator follows it.
pub open spec fn name_starts_at(path: Seq<char>, f: int) -> bool {
    &&& 0 <= f <= path.len()
    &&& (f == 0 || path[f - 1] == '/')
    &&& forall|j: int| f <= j < path.len() ==> path[j] != '/'
}

/// `d` is the index of the dot that begins the extension of a file name
/// starting at `f`: the last dot of the path, strictly after the file name's
/// first character.
pub open spec fn ext_dot_at(path: Seq<char>, f: int, d: int) -> bool {
    &&& f < d < path.len()
    &&& path[d] == '.'
    &&& forall|j: int| d < j < path.len() ==> path[j] != '.'
}

/// The file name start of a path is unique.
proof fn lemma_name_start_unique(path: Seq<char>, f1: int, f2: int)
    requires
        name_starts_at(path, f1),
        name_starts_at(path, f2),
    ensures
        f1 == f2,
{
    if f1 < f2 {
        assert(path[f2 - 1] == '/');
        assert(path[f2 - 1] != '/');
    }
    if f2 < f1 {
        assert(path[f1 - 1] == '/');
        assert(path[f1 - 1] != '/');
    }
}

/// The extension of the file name at the end of a path, if any: the
/// characters after the last dot, provided that dot stands strictly after
/// the file name's first character.
pub open spec fn ext_of(path: Seq<char>) -> Option<Seq<char>> {
    if exists|f: int, d: int| name_starts_at(path, f) && ext_dot_at(path, f, d) {
        let (f, d) = choose|f: int, d: int| name_starts_at(path, f) && ext_dot_at(path, f, d);
        Some(path.subrange(d + 1, path.len() as int))
    } else {
        None
    }
}

/// A path has at most one extension dot.
pub proof fn lemma_ext_dot_unique(path: Seq<char>, f1: int, d1: int, f2: int, d2: int)
    requires
        name_starts_at(path, f1),
        ext_dot_at(path, f1, d1),
        name_starts_at(path, f2),
        ext_dot_at(path, f2, d2),
    ensures
        d1 == d2,
{
    lemma_name_start_unique(path, f1, f2);
    if d1 < d2 {
        assert(path[d2] == '.');
        assert(path[d2] != '.');
    }
    if d2 < d1 {
        assert(path[d1] == '.');
        assert(path[d1] != '.');
    }
}

/// The extension of the file name at the end of `path`: the characters after
/// the last dot, provided that dot stands strictly after the file name's
/// first character. A name with no dot, or whose only dot is its leading
/// character, has no extension.
pub fn extension_of(path: &str) -> (r: Option<String>)
    ensures
        match r {
            Some(ext) => exists|f: int, d: int|
                name_starts_at(path@, f) && ext_dot_at(path@, f, d) && ext@ == path@.subrange(
                    d + 1,
                    path@.len() as int,
                ),
            None => forall|f: int, d: int|
                name_starts_at(path@, f) ==> !ext_dot_at(path@, f, d),
        },
{
    let np = path.unicode_len();
    let f: usize = match rfind_char(path, '/') {
        Some(i) => i + 1,
        None => 0,
    };
    proof {
        assert(name_starts_at(path@, f as int));
    }
    match rfind_char(path, '.') {
        Some(d) => {
            if d > f {
                let ext = String::from_str(path.substring_char(d + 1, np));
                proof {
                    assert(ext_dot_at(path@, f as int, d as int));
                }
                Some(ext)
            } else {
                proof {
                    assert forall|f2: int, d2: int|
                        name_starts_at(path@, f2) implies !ext_dot_at(path@, f2, d2) by {
                        lemma_name_start_unique(path@, f as int, f2);
                        if ext_dot_at(path@, f2, d2) {
                            assert(path@[d2] == '.');
                            assert(d2 > d);
                            assert(path@[d2] != '.');
                        }
                    }
                }
                None
            }
        },
        None => {
            proof {
                assert forall|f2: int, d2: int|
                    name_starts_at(path@, f2) implies !ext_dot_at(path@, f2, d2) by {
                    if ext_dot_at(path@, f2, d2) {
                        assert(path@[d2] == '.');
                    }
                }
            }
            None
        },
    }
}

} // verus!
