//! Recursive discovery of image candidates under a set of roots.
//!
//! A directory tree is presented to the walker as plain values: each
//! node carries its path, whether its entries could be listed, the full
//! paths of its non-directory entries, and its subdirectories.  A node
//! whose entries could not be listed — because it does not exist, is
//! not a directory, or is unreadable — contributes nothing, and its
//! siblings are unaffected.  Discovery returns every reachable
//! non-directory path whose inferred content type is `image`; the order
//! of the result is unspecified, only its set of paths is promised.

use vstd::prelude::*;
use crate::classify::is_image_path;

verus! {

/// One directory as the walker sees it.  `files` holds the full paths
/// of the non-directory entries; `subdirs` the subdirectories.  An
/// unlistable directory has `readable` false and contributes nothing.
pub struct DirTree {
    /// The directory's own path, kept for reporting.
    pub path: String,
    /// Whether the directory's entries could be listed.
    pub readable: bool,
    /// Full paths of the non-directory entries.
    pub files: Vec<String>,
    /// The subdirectories, each discovered as its own unit.
    pub subdirs: Vec<DirTree>,
}

/// Whether some element of `v` reads as the path `p`.
pub open spec fn seq_has_path(v: Seq<String>, p: Seq<char>) -> bool {
    exists|k: int| 0 <= k < v.len() && v[k]@ == p
}

/// The set of paths an answer vector holds.
pub open spec fn path_set(v: Seq<String>) -> Set<Seq<char>> {
    Set::new(|p: Seq<char>| seq_has_path(v, p))
}

/// Whether `p` is one of the first `n` files of `fs` and is an image
/// candidate.
pub open spec fn file_image_upto(fs: Seq<String>, n: int, p: Seq<char>) -> bool {
    exists|k: int| 0 <= k < n && fs[k]@ == p && is_image_path(p)
}

/// The set of image-candidate paths reachable from one directory:
/// nothing for an unlistable directory, else its own image files
/// together with everything reachable from its subdirectories.
pub open spec fn discovered_images(t: DirTree) -> Set<Seq<char>>
    decreases t,
{
    if !t.readable {
        Set::empty()
    } else {
        Set::new(
            |p: Seq<char>|
                file_image_upto(t.files@, t.files@.len() as int, p) || (exists|k: int|
                    0 <= k < t.subdirs@.len() && discovered_images(t.subdirs@[k]).contains(p)),
        )
    }
}

/// Whether `p` is reachable from one of the first `n` subdirectories.
pub open spec fn subdir_image_upto(ss: Seq<DirTree>, n: int, p: Seq<char>) -> bool {
    exists|k: int| 0 <= k < n && discovered_images(ss[k]).contains(p)
}

/// The set of image-candidate paths reachable from a sequence of roots.
pub open spec fn forest_images(roots: Seq<DirTree>) -> Set<Seq<char>> {
    Set::new(|p: Seq<char>| subdir_image_upto(roots, roots.len() as int, p))
}

/// Appending answer vectors unions their path sets.
proof fn lemma_concat_paths(v: Seq<String>, w: Seq<String>)
    ensures
        forall|p: Seq<char>| seq_has_path(v + w, p) <==> (seq_has_path(v, p) || seq_has_path(w, p)),
{
    assert forall|p: Seq<char>|
        seq_has_path(v + w, p) <==> (seq_has_path(v, p) || seq_has_path(w, p)) by {
        if seq_has_path(v + w, p) {
            let k = choose|k: int| 0 <= k < (v + w).len() && (v + w)[k]@ == p;
            if k < v.len() {
                assert(v[k]@ == p);
            } else {
                assert(w[k - v.len()]@ == p);
            }
        }
        if seq_has_path(v, p) {
            let k = choose|k: int| 0 <= k < v.len() && v[k]@ == p;
            assert((v + w)[k]@ == p);
        }
        if seq_has_path(w, p) {
            let k = choose|k: int| 0 <= k < w.len() && w[k]@ == p;
            assert((v + w)[k + v.len()]@ == p);
        }
    }
}

/// Discover every image-candidate path reachable from one directory.
/// The answer's set of paths is exactly `discovered_images` of the
/// node; an unlistable node yields nothing.
pub fn discover_tree(t: &DirTree) -> (r: Vec<String>)
    ensures
        path_set(r@) == discovered_images(*t),
    decreases *t,
{
    let mut out: Vec<String> = Vec::new();
    if !t.readable {
        proof {
            assert(path_set(out@) =~= discovered_images(*t));
        }
        return out;
    }
    let ghost fs = t.files@;
    let mut i: usize = 0;
    while i < t.files.len()
        invariant
            t.files@ == fs,
            i <= fs.len(),
            forall|p: Seq<char>| seq_has_path(out@, p) <==> file_image_upto(fs, i as int, p),
        decreases fs.len() - i,
    {
        let f = &t.files[i];
        let ghost prev = out@;
        if crate::classify::path_is_image(f.as_str()) {
            out.push(f.clone());
        }
        proof {
            assert forall|p: Seq<char>|
                seq_has_path(out@, p) <==> file_image_upto(fs, i + 1, p) by {
                if seq_has_path(out@, p) {
                    let k = choose|k: int| 0 <= k < out@.len() && out@[k]@ == p;
                    if k < prev.len() {
                        assert(seq_has_path(prev, p));
                    } else {
                        assert(out@[k]@ == fs[i as int]@);
                    }
                }
                if file_image_upto(fs, i + 1, p) {
                    let k = choose|k: int| 0 <= k < i + 1 && fs[k]@ == p && is_image_path(p);
                    if k < i {
                        assert(file_image_upto(fs, i as int, p));
                        let m = choose|m: int| 0 <= m < prev.len() && prev[m]@ == p;
                        assert(out@[m]@ == p);
                    } else {
                        assert(out@[out@.len() - 1]@ == p);
                    }
                }
            }
        }
        i = i + 1;
    }
    let ghost ss = t.subdirs@;
    let mut j: usize = 0;
    while j < t.subdirs.len()
        invariant
            t.files@ == fs,
            t.subdirs@ == ss,
            j <= ss.len(),
            forall|p: Seq<char>|
                seq_has_path(out@, p) <==> (file_image_upto(fs, fs.len() as int, p)
                    || subdir_image_upto(ss, j as int, p)),
        decreases ss.len() - j,
    {
        let ghost prev = out@;
        let mut sub = discover_tree(&t.subdirs[j]);
        let ghost subv = sub@;
        out.append(&mut sub);
        proof {
            assert(out@ == prev + subv);
            lemma_concat_paths(prev, subv);
            assert forall|p: Seq<char>|
                seq_has_path(out@, p) <==> (file_image_upto(fs, fs.len() as int, p)
                    || subdir_image_upto(ss, j + 1, p)) by {
                assert(path_set(subv).contains(p) == seq_has_path(subv, p));
                if seq_has_path(subv, p) {
                    assert(discovered_images(ss[j as int]).contains(p));
                }
                if subdir_image_upto(ss, j + 1, p) {
                    let k = choose|k: int|
                        0 <= k < j + 1 && discovered_images(ss[k]).contains(p);
                    if k < j {
                        assert(subdir_image_upto(ss, j as int, p));
                    } else {
                        assert(seq_has_path(subv, p));
                    }
                }
                if subdir_image_upto(ss, j as int, p) {
                    let k = choose|k: int| 0 <= k < j && discovered_images(ss[k]).contains(p);
                    assert(0 <= k < j + 1 && discovered_images(ss[k]).contains(p));
                }
            }
        }
        j = j + 1;
    }
    proof {
        assert forall|p: Seq<char>|
            path_set(out@).contains(p) == discovered_images(*t).contains(p) by {
            assert(path_set(out@).contains(p) == seq_has_path(out@, p));
        }
        assert(path_set(out@) =~= discovered_images(*t));
    }
    out
}

/// Discover every image-candidate path reachable from the given roots.
/// The answer's set of paths is exactly the union of what each root
/// reaches; a missing, non-directory or unreadable root contributes
/// nothing and does not disturb the others.
pub fn discover(roots: &Vec<DirTree>) -> (r: Vec<String>)
    ensures
        path_set(r@) == forest_images(roots@),
{
    let ghost rs = roots@;
    let mut out: Vec<String> = Vec::new();
    let mut i: usize = 0;
    while i < roots.len()
        invariant
            roots@ == rs,
            i <= rs.len(),
            forall|p: Seq<char>| seq_has_path(out@, p) <==> subdir_image_upto(rs, i as int, p),
        decreases rs.len() - i,
    {
        let ghost prev = out@;
        let mut sub = discover_tree(&roots[i]);
        let ghost subv = sub@;
        out.append(&mut sub);
        proof {
            assert(out@ == prev + subv);
            lemma_concat_paths(prev, subv);
            assert forall|p: Seq<char>|
                seq_has_path(out@, p) <==> subdir_image_upto(rs, i + 1, p) by {
                assert(path_set(subv).contains(p) == seq_has_path(subv, p));
                if seq_has_path(subv, p) {
                    assert(discovered_images(rs[i as int]).contains(p));
                }
                if subdir_image_upto(rs, i + 1, p) {
                    let k = choose|k: int|
                        0 <= k < i + 1 && discovered_images(rs[k]).contains(p);
                    if k < i {
                        assert(subdir_image_upto(rs, i as int, p));
                    } else {
                        assert(seq_has_path(subv, p));
                    }
                }
                if subdir_image_upto(rs, i as int, p) {
                    let k = choose|k: int| 0 <= k < i && discovered_images(rs[k]).contains(p);
                    assert(0 <= k < i + 1 && discovered_images(rs[k]).contains(p));
                }
            }
        }
        i = i + 1;
    }
    proof {
        assert forall|p: Seq<char>|
            path_set(out@).contains(p) == forest_images(rs).contains(p) by {
            assert(path_set(out@).contains(p) == seq_has_path(out@, p));
        }
        assert(path_set(out@) =~= forest_images(rs));
    }
    out
}

/// An unlistable subdirectory is skipped in isolation: it contributes
/// nothing, and what the parent discovers is exactly its own image
/// files together with what every *other* subdirectory reaches.
pub proof fn lemma_unreadable_subdir_isolated(t: DirTree, i: int)
    requires
        t.readable,
        0 <= i < t.subdirs@.len(),
        !t.subdirs@[i].readable,
    ensures
        discovered_images(t.subdirs@[i]) == Set::<Seq<char>>::empty(),
        forall|p: Seq<char>|
            discovered_images(t).contains(p) <==> (file_image_upto(
                t.files@,
                t.files@.len() as int,
                p,
            ) || (exists|k: int|
                0 <= k < t.subdirs@.len() && k != i && discovered_images(t.subdirs@[k]).contains(
                    p,
                ))),
{
    assert(discovered_images(t.subdirs@[i]) =~= Set::<Seq<char>>::empty());
    assert forall|p: Seq<char>|
        discovered_images(t).contains(p) <==> (file_image_upto(t.files@, t.files@.len() as int, p)
            || (exists|k: int|
            0 <= k < t.subdirs@.len() && k != i && discovered_images(t.subdirs@[k]).contains(
                p,
            ))) by {
        if discovered_images(t).contains(p) && !file_image_upto(
            t.files@,
            t.files@.len() as int,
            p,
        ) {
            let k = choose|k: int|
                0 <= k < t.subdirs@.len() && discovered_images(t.subdirs@[k]).contains(p);
            assert(k != i);
        }
    }
}

} // verus!
