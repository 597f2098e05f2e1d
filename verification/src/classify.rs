//! Deciding whether a path denotes an image candidate.
//!
//! The decision is purely syntactic: the content type inferred from the
//! path's extension is consulted, never the file's bytes.  A path with
//! an image extension but undecodable content is still a candidate here
//! and is weeded out later, when the filter fails to read its
//! dimensions.

use vstd::prelude::*;
use vstd::string::*;

verus! {

/// The top-level media type that extension-based content-type inference
/// assigns to a path, if it assigns any.
pub uninterp spec fn guessed_mime_top(path: Seq<char>) -> Option<Seq<char>>;

/// Relies on `mime_guess::MimeGuess::from_path`: the guess is derived
/// from the path's extension alone, with no disk access, so the
/// top-level type of its first entry is a function of the path text.
#[verifier::external_body]
fn mime_top_level(path: &str) -> (r: Option<String>)
    ensures
        r matches Some(t) ==> guessed_mime_top(path@) == Option::Some(t@),
        r is None ==> guessed_mime_top(path@) is None,
{
    mime_guess::MimeGuess::from_path(path).first().map(|m| m.type_().as_str().to_owned())
}

/// A path is an image candidate when its inferred top-level media type
/// is `image`.
pub open spec fn is_image_path(p: Seq<char>) -> bool {
    guessed_mime_top(p) == Option::Some("image"@)
}

/// Whether the path denotes an image candidate: true exactly when a
/// content type can be inferred from its extension and that type's
/// top level is `image`.
pub fn path_is_image(path: &str) -> (r: bool)
    ensures
        r == is_image_path(path@),
{
    match mime_top_level(path) {
        Option::Some(t) => t == String::from_str("image"),
        Option::None => false,
    }
}

} // verus!
