//! The output format a run can be asked for.

use vstd::prelude::*;
use vstd::string::*;
use vstd::pervasive::unreached;
use crate::text::normalized;

verus! {

/// What a run produces for the images that pass the filter: the list of
/// their names, or copies of the files themselves.
#[derive(Clone, Copy, Debug, PartialEq, Eq, Structural)]
pub enum DataFormat {
    Names,
    Copies,
}

/// The format a piece of configuration text denotes, if any: after
/// normalization, `"names"`/`"name"` and `"copies"`/`"copy"` are
/// recognized.
pub open spec fn spec_parse_format(s: Seq<char>) -> Option<DataFormat> {
    let n = normalized(s);
    if n == "names"@ || n == "name"@ {
        Option::Some(DataFormat::Names)
    } else if n == "copies"@ || n == "copy"@ {
        Option::Some(DataFormat::Copies)
    } else {
        Option::None
    }
}

impl DataFormat {
    /// Parse a format from configuration text, case-insensitively and
    /// ignoring surrounding whitespace; unknown text parses to nothing.
    pub fn parse(s: &str) -> (r: Option<Self>)
        ensures
            r == spec_parse_format(s@),
    {
        if crate::text::matches_normalized(s, "names") || crate::text::matches_normalized(
            s,
            "name",
        ) {
            Option::Some(DataFormat::Names)
        } else if crate::text::matches_normalized(s, "copies") || crate::text::matches_normalized(
            s,
            "copy",
        ) {
            Option::Some(DataFormat::Copies)
        } else {
            Option::None
        }
    }

    /// Convert recognized configuration text to its format.  Text that
    /// no format word matches is excluded by the requirement: such text
    /// is a configuration error, reported by the caller.
    pub fn from(value: String) -> (r: Self)
        requires
            spec_parse_format(value@) is Some,
        ensures
            spec_parse_format(value@) == Option::Some(r),
    {
        match Self::parse(value.as_str()) {
            Option::Some(f) => f,
            Option::None => unreached(),
        }
    }

    /// The canonical configuration word for this format.
    pub fn to_text(&self) -> (r: String)
        ensures
            *self == DataFormat::Names ==> r@ == "names"@,
            *self == DataFormat::Copies ==> r@ == "copies"@,
    {
        match self {
            DataFormat::Names => String::from_str("names"),
            DataFormat::Copies => String::from_str("copies"),
        }
    }
}

/// Writing a format out and reading it back yields the same format:
/// the canonical word of each variant parses to that variant, so
/// `parse` after `to_text` is the identity.
pub proof fn lemma_format_text_round_trip()
    ensures
        spec_parse_format("names"@) == Option::Some(DataFormat::Names),
        spec_parse_format("copies"@) == Option::Some(DataFormat::Copies),
{
    reveal_strlit("names");
    reveal_strlit("name");
    reveal_strlit("copies");
    crate::text::lemma_normalized_fixed_point("names"@);
    crate::text::lemma_normalized_fixed_point("copies"@);
    assert("copies"@ != "names"@) by {
        if "copies"@ == "names"@ {
            assert("copies"@[0] == "names"@[0]);
        }
    }
    assert("copies"@ != "name"@) by {
        if "copies"@ == "name"@ {
            assert("copies"@[0] == "name"@[0]);
        }
    }
}

impl Default for DataFormat {
    /// By default a run reports names.
    fn default() -> (r: Self)
        ensures
            r == DataFormat::Names,
    {
        DataFormat::Names
    }
}

} // verus!
