//! The run configuration and its resolution into immutable run inputs.
//!
//! Every field arrives optional from the loader; before the pipeline
//! starts, the configuration is resolved into fully-populated values —
//! minima default to zero, the preference to none, the destination to
//! `image_data`, and an absent or empty directory list to the current
//! working directory.  Resolution happens once, up front; no default is
//! filled in lazily by a concurrent task.

use vstd::prelude::*;
use vstd::string::*;
use crate::image_preference::ImagePreference;
use crate::filter::FilterCriteria;

verus! {

/// A run's configuration as the loader hands it over.
pub struct Config {
    pub min_width: Option<u32>,
    pub min_height: Option<u32>,
    pub copy_destination: Option<String>,
    pub preference: Option<ImagePreference>,
    pub directories: Option<Vec<String>>,
}

/// The filter criteria a configuration resolves to: each absent bound
/// is zero, an absent preference constrains nothing.
pub open spec fn spec_criteria(c: Config) -> FilterCriteria {
    FilterCriteria {
        min_width: match c.min_width {
            Option::Some(w) => w,
            Option::None => 0u32,
        },
        min_height: match c.min_height {
            Option::Some(h) => h,
            Option::None => 0u32,
        },
        preference: match c.preference {
            Option::Some(p) => p,
            Option::None => ImagePreference::NoPreference,
        },
    }
}

/// The destination directory a configuration resolves to.
pub open spec fn spec_destination(c: Config) -> Seq<char> {
    match c.copy_destination {
        Option::Some(d) => d@,
        Option::None => "image_data"@,
    }
}

/// The root directories a run traverses: the configured list, or the
/// current working directory when the list is absent or empty.
pub open spec fn spec_resolved_directories(
    directories: Option<Vec<String>>,
    cwd: Seq<char>,
) -> Seq<Seq<char>> {
    match directories {
        Option::Some(d) => if d@.len() > 0 {
            d.deep_view()
        } else {
            seq![cwd]
        },
        Option::None => seq![cwd],
    }
}

impl Config {
    /// The immutable filter criteria of this configuration, shared
    /// read-only by every per-file evaluation of the run.
    pub fn criteria(&self) -> (r: FilterCriteria)
        ensures
            r == spec_criteria(*self),
    {
        FilterCriteria {
            min_width: match self.min_width {
                Option::Some(w) => w,
                Option::None => 0,
            },
            min_height: match self.min_height {
                Option::Some(h) => h,
                Option::None => 0,
            },
            preference: match self.preference {
                Option::Some(p) => p,
                Option::None => ImagePreference::NoPreference,
            },
        }
    }

    /// The destination directory files are copied into: the configured
    /// one, or `image_data` when none is configured.
    pub fn destination(&self) -> (r: String)
        ensures
            r@ == spec_destination(*self),
    {
        match &self.copy_destination {
            Option::Some(d) => d.clone(),
            Option::None => String::from_str("image_data"),
        }
    }
}

/// Resolve the configured directory list into the roots the walker
/// starts from: the list itself when it names at least one directory,
/// else the current working directory alone.
pub fn resolve_directories(directories: Option<Vec<String>>, cwd: String) -> (r: Vec<String>)
    ensures
        r.deep_view() == spec_resolved_directories(directories, cwd@),
{
    let ghost dirs = directories;
    match directories {
        Option::Some(d) => {
            if d.len() > 0 {
                d
            } else {
                let mut v: Vec<String> = Vec::new();
                v.push(cwd);
                proof {
                    assert(v.deep_view() =~= spec_resolved_directories(dirs, cwd@));
                }
                v
            }
        },
        Option::None => {
            let mut v: Vec<String> = Vec::new();
            v.push(cwd);
            proof {
                assert(v.deep_view() =~= spec_resolved_directories(dirs, cwd@));
            }
            v
        },
    }
}

impl Default for Config {
    /// The configuration a run starts from before the user edits it:
    /// permissive minima, no aspect preference, the stock destination,
    /// and a placeholder directory list meant to be replaced.
    fn default() -> (r: Self)
        ensures
            r.min_width == Option::Some(0u32),
            r.min_height == Option::Some(0u32),
            r.preference == Option::Some(ImagePreference::NoPreference),
            r.copy_destination matches Some(d) && d@ == "image_data"@,
            r.directories matches Some(d) && d.deep_view() == seq!["First"@, "second"@, "the third"@],
    {
        let mut dirs: Vec<String> = Vec::new();
        dirs.push(String::from_str("First"));
        dirs.push(String::from_str("second"));
        dirs.push(String::from_str("the third"));
        proof {
            assert(dirs.deep_view() =~= seq!["First"@, "second"@, "the third"@]);
        }
        Config {
            min_width: Option::Some(0),
            min_height: Option::Some(0),
            copy_destination: Option::Some(String::from_str("image_data")),
            preference: Option::Some(ImagePreference::NoPreference),
            directories: Option::Some(dirs),
        }
    }
}

} // verus!
