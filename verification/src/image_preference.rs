//! The aspect-ratio preference a run filters images by.

use vstd::prelude::*;
use vstd::string::*;
use vstd::pervasive::unreached;
use crate::text::normalized;

verus! {

/// Orientation bias selected by the configuration: `Wide` keeps images
/// that are at least as wide as they are tall, `Tall` keeps images that
/// are at least as tall as they are wide, and `NoPreference` keeps both.
#[derive(Clone, Copy, Debug, PartialEq, Eq, Structural)]
pub enum ImagePreference {
    Wide,
    Tall,
    NoPreference,
}

/// The preference a piece of configuration text denotes, if any: after
/// normalization, `"wide"` and `"tall"` name their orientation, and the
/// empty text or any of the words for "nothing" name `NoPreference`.
pub open spec fn spec_parse_preference(s: Seq<char>) -> Option<ImagePreference> {
    let n = normalized(s);
    if n == "wide"@ {
        Option::Some(ImagePreference::Wide)
    } else if n == "tall"@ {
        Option::Some(ImagePreference::Tall)
    } else if n == "none"@ || n == "nothing"@ || n == "nil"@ || n == "null"@ || n == "nul"@ || n
        == ""@ {
        Option::Some(ImagePreference::NoPreference)
    } else {
        Option::None
    }
}

impl ImagePreference {
    /// Parse a preference from configuration text, case-insensitively
    /// and ignoring surrounding whitespace; unknown text parses to
    /// nothing.
    pub fn parse(s: &str) -> (r: Option<Self>)
        ensures
            r == spec_parse_preference(s@),
    {
        if crate::text::matches_normalized(s, "wide") {
            Option::Some(ImagePreference::Wide)
        } else if crate::text::matches_normalized(s, "tall") {
            Option::Some(ImagePreference::Tall)
        } else if crate::text::matches_normalized(s, "none") || crate::text::matches_normalized(
            s,
            "nothing",
        ) || crate::text::matches_normalized(s, "nil") || crate::text::matches_normalized(s, "null")
            || crate::text::matches_normalized(s, "nul") || crate::text::matches_normalized(
            s,
            "",
        ) {
            Option::Some(ImagePreference::NoPreference)
        } else {
            Option::None
        }
    }

    /// Convert recognized configuration text to its preference.  Text
    /// that no preference word matches is excluded by the requirement:
    /// such text is a configuration error, reported by the caller.
    pub fn from(value: String) -> (r: Self)
        requires
            spec_parse_preference(value@) is Some,
        ensures
            spec_parse_preference(value@) == Option::Some(r),
    {
        match Self::parse(value.as_str()) {
            Option::Some(p) => p,
            Option::None => unreached(),
        }
    }

    /// The canonical configuration word for this preference.
    pub fn to_text(&self) -> (r: String)
        ensures
            *self == ImagePreference::Wide ==> r@ == "wide"@,
            *self == ImagePreference::Tall ==> r@ == "tall"@,
            *self == ImagePreference::NoPreference ==> r@ == "none"@,
    {
        match self {
            ImagePreference::Wide => String::from_str("wide"),
            ImagePreference::Tall => String::from_str("tall"),
            ImagePreference::NoPreference => String::from_str("none"),
        }
    }
}

/// Writing a preference out and reading it back yields the same
/// preference: the canonical word of each variant parses to that
/// variant, so `parse` after `to_text` is the identity.
pub proof fn lemma_preference_text_round_trip()
    ensures
        spec_parse_preference("wide"@) == Option::Some(ImagePreference::Wide),
        spec_parse_preference("tall"@) == Option::Some(ImagePreference::Tall),
        spec_parse_preference("none"@) == Option::Some(ImagePreference::NoPreference),
{
    reveal_strlit("wide");
    reveal_strlit("tall");
    reveal_strlit("none");
    crate::text::lemma_normalized_fixed_point("wide"@);
    crate::text::lemma_normalized_fixed_point("tall"@);
    crate::text::lemma_normalized_fixed_point("none"@);
    assert("tall"@ != "wide"@) by {
        if "tall"@ == "wide"@ {
            assert("tall"@[0] == "wide"@[0]);
        }
    }
    assert("none"@ != "wide"@) by {
        if "none"@ == "wide"@ {
            assert("none"@[0] == "wide"@[0]);
        }
    }
    assert("none"@ != "tall"@) by {
        if "none"@ == "tall"@ {
            assert("none"@[0] == "tall"@[0]);
        }
    }
}

impl Default for ImagePreference {
    /// The default preference places no constraint on the aspect ratio.
    fn default() -> (r: Self)
        ensures
            r == ImagePreference::NoPreference,
    {
        ImagePreference::NoPreference
    }
}

} // verus!
