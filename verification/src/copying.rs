//! Planning the copy of a passing image into the destination directory.
//!
//! The copy target is the destination directory joined with the source
//! path's file name; a source with no extractable file name cannot be
//! copied and is skipped.  The effect of a copy on the destination
//! directory is modeled as a map from target path to file bytes, with
//! an existing file of the same name silently overwritten.

use vstd::prelude::*;
use vstd::string::*;

verus! {

/// Outcome of one attempted copy.
#[derive(Clone, Copy, Debug, PartialEq, Eq, Structural)]
pub enum CopyResult {
    /// The file was copied to the destination.
    Copied,
    /// The copy failed; the failure is logged and siblings go on.
    Failed,
}

/// The text after the last `/` of the path: the candidate file name.
pub open spec fn after_last_slash(p: Seq<char>) -> Seq<char>
    decreases p.len(),
{
    if p.len() == 0 {
        Seq::empty()
    } else if p.last() == '/' {
        Seq::empty()
    } else {
        after_last_slash(p.drop_last()).push(p.last())
    }
}

/// The file-name component of a path: the text after the last
/// separator.  A path that is empty or ends in a separator has none.
pub open spec fn spec_file_name(p: Seq<char>) -> Option<Seq<char>> {
    if after_last_slash(p).len() == 0 {
        Option::None
    } else {
        Option::Some(after_last_slash(p))
    }
}

/// The copy target of a source path: the destination directory joined
/// with the source's file name.
pub open spec fn spec_destination_path(dest: Seq<char>, source: Seq<char>) -> Option<Seq<char>> {
    match spec_file_name(source) {
        Option::Some(n) => Option::Some(dest + "/"@ + n),
        Option::None => Option::None,
    }
}

/// When every character from `cut` on is a non-separator and `cut` sits
/// right after a separator (or at the start), the text after the last
/// separator is exactly the suffix from `cut`.
proof fn lemma_after_last_slash_suffix(p: Seq<char>, cut: int)
    requires
        0 <= cut <= p.len(),
        forall|j: int| cut <= j < p.len() ==> p[j] != '/',
        cut > 0 ==> p[cut - 1] == '/',
    ensures
        after_last_slash(p) == p.subrange(cut, p.len() as int),
    decreases p.len() - cut,
{
    if cut == p.len() {
        assert(after_last_slash(p) =~= p.subrange(cut, p.len() as int));
    } else {
        let t = p.drop_last();
        lemma_after_last_slash_suffix(t, cut);
        assert(after_last_slash(p) =~= p.subrange(cut, p.len() as int));
    }
}

/// The file name of the source path, if one can be extracted.
pub fn file_name(path: &str) -> (r: Option<String>)
    ensures
        r matches Some(n) ==> spec_file_name(path@) == Option::Some(n@),
        r is None ==> spec_file_name(path@) is None,
{
    let n = path.unicode_len();
    let mut cut: usize = n;
    while cut > 0 && path.get_char(cut - 1) != '/'
        invariant
            n == path@.len(),
            cut <= n,
            forall|j: int| cut <= j < n ==> path@[j] != '/',
        decreases cut,
    {
        cut = cut - 1;
    }
    proof {
        lemma_after_last_slash_suffix(path@, cut as int);
    }
    if cut == n {
        Option::None
    } else {
        Option::Some(String::from_str(path.substring_char(cut, n)))
    }
}

/// The path a source file is copied to: the destination directory, a
/// `/` separator, and the source's file name.  A source without a file
/// name yields no target; its copy is skipped and reported instead.
pub fn destination_path(dest: &str, source: &str) -> (r: Option<String>)
    ensures
        r matches Some(d) ==> spec_destination_path(dest@, source@) == Option::Some(d@),
        r is None ==> spec_destination_path(dest@, source@) is None,
        (r is Some) == (spec_file_name(source@) is Some),
{
    match file_name(source) {
        Option::Some(nm) => {
            let mut out = String::from_str(dest);
            out.append("/");
            out.append(nm.as_str());
            Option::Some(out)
        },
        Option::None => Option::None,
    }
}

/// The destination directory's content after copying `source` into it:
/// the target path now holds the source's bytes, any file previously
/// under that name is overwritten, and nothing else changes.  A source
/// without a file name leaves the directory as it is.
pub open spec fn apply_copy(
    dir: Map<Seq<char>, Seq<u8>>,
    dest: Seq<char>,
    source: Seq<char>,
    contents: Seq<u8>,
) -> Map<Seq<char>, Seq<u8>> {
    match spec_destination_path(dest, source) {
        Option::Some(target) => dir.insert(target, contents),
        Option::None => dir,
    }
}

/// Copying the same passing file twice is idempotent in terms of the
/// destination directory's state: the second copy overwrites the first
/// with the same name and the same bytes, so one identical destination
/// file results.
pub proof fn lemma_copy_idempotent(
    dir: Map<Seq<char>, Seq<u8>>,
    dest: Seq<char>,
    source: Seq<char>,
    contents: Seq<u8>,
)
    ensures
        apply_copy(apply_copy(dir, dest, source, contents), dest, source, contents) == apply_copy(
            dir,
            dest,
            source,
            contents,
        ),
{
    match spec_destination_path(dest, source) {
        Option::Some(target) => {
            assert(dir.insert(target, contents).insert(target, contents) =~= dir.insert(
                target,
                contents,
            ));
        },
        Option::None => {},
    }
}

} // verus!
