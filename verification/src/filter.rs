//! Pass/fail evaluation of a single image against the filter criteria.
//!
//! An image passes when both pixel dimensions reach the configured
//! minima and its aspect ratio satisfies the configured preference.
//! Undersized images are rejected for their size; images of the wrong
//! orientation are rejected for their aspect; an image whose dimensions
//! could not be read at all is reported as a failed open.

use vstd::prelude::*;
use crate::image_preference::ImagePreference;

verus! {

/// The minimum-size and aspect-ratio criteria of one run.  Immutable for
/// the duration of the run and shared by every per-file evaluation.
#[derive(Clone, Copy, Debug, PartialEq, Eq, Structural)]
pub struct FilterCriteria {
    pub min_width: u32,
    pub min_height: u32,
    pub preference: ImagePreference,
}

/// Pixel dimensions of a successfully decoded image.
#[derive(Clone, Copy, Debug, PartialEq, Eq, Structural)]
pub struct Dimensions {
    pub width: u32,
    pub height: u32,
}

/// Why an image that could be decoded was not kept.
#[derive(Clone, Copy, Debug, PartialEq, Eq, Structural)]
pub enum RejectReason {
    /// A dimension is below the configured minimum.
    TooSmall,
    /// The dimensions violate the configured aspect preference.
    WrongAspect,
}

/// Outcome of filtering one image path.
#[derive(Clone, Copy, Debug, PartialEq, Eq, Structural)]
pub enum FilterResult {
    /// The image meets the criteria and is to be copied.
    Pass,
    /// The image was decoded but does not meet the criteria.
    Rejected(RejectReason),
    /// The image could not be opened or decoded; it is skipped.
    OpenFailed,
}

/// Both dimensions reach the configured minima.
pub open spec fn size_ok(w: u32, h: u32, c: FilterCriteria) -> bool {
    w >= c.min_width && h >= c.min_height
}

/// The dimensions satisfy the aspect preference.  A square image
/// satisfies `Wide` and `Tall` alike.
pub open spec fn aspect_ok(w: u32, h: u32, p: ImagePreference) -> bool {
    match p {
        ImagePreference::NoPreference => true,
        ImagePreference::Tall => w <= h,
        ImagePreference::Wide => w >= h,
    }
}

/// The filter decision on decoded dimensions `(w, h)`: rejected as too
/// small when a minimum is missed, otherwise rejected for its aspect
/// when the preference is violated, otherwise a pass.
pub open spec fn spec_evaluate(w: u32, h: u32, c: FilterCriteria) -> FilterResult {
    if !size_ok(w, h, c) {
        FilterResult::Rejected(RejectReason::TooSmall)
    } else if !aspect_ok(w, h, c.preference) {
        FilterResult::Rejected(RejectReason::WrongAspect)
    } else {
        FilterResult::Pass
    }
}

/// The filter outcome of one decode attempt: a failed decode is a
/// failed open, decoded dimensions are evaluated against the criteria.
pub open spec fn spec_accepts(decoded: Option<Dimensions>, c: FilterCriteria) -> FilterResult {
    match decoded {
        Option::Some(d) => spec_evaluate(d.width, d.height, c),
        Option::None => FilterResult::OpenFailed,
    }
}

impl FilterCriteria {
    /// Decide pass/fail for decoded dimensions.  The result is rejected
    /// as too small exactly when `w < min_width` or `h < min_height`,
    /// and is a pass exactly when, in addition to meeting the minima,
    /// the dimensions satisfy the aspect preference.
    pub fn evaluate(&self, dims: Dimensions) -> (r: FilterResult)
        ensures
            r == spec_evaluate(dims.width, dims.height, *self),
            (r == FilterResult::Rejected(RejectReason::TooSmall)) <==> (dims.width < self.min_width
                || dims.height < self.min_height),
            (r == FilterResult::Pass) <==> (size_ok(dims.width, dims.height, *self) && aspect_ok(
                dims.width,
                dims.height,
                self.preference,
            )),
    {
        if dims.width < self.min_width || dims.height < self.min_height {
            return FilterResult::Rejected(RejectReason::TooSmall);
        }
        let aspect = match self.preference {
            ImagePreference::NoPreference => true,
            ImagePreference::Tall => dims.width <= dims.height,
            ImagePreference::Wide => dims.width >= dims.height,
        };
        if aspect {
            FilterResult::Pass
        } else {
            FilterResult::Rejected(RejectReason::WrongAspect)
        }
    }

    /// Decide the filter outcome from the result of a decode attempt:
    /// a failed decode is a failed open, a decoded image is evaluated
    /// against the criteria.
    pub fn accepts(&self, decoded: Option<Dimensions>) -> (r: FilterResult)
        ensures
            r == spec_accepts(decoded, *self),
            decoded is None ==> r == FilterResult::OpenFailed,
            decoded matches Some(d) ==> r == spec_evaluate(d.width, d.height, *self),
    {
        match decoded {
            Option::Some(d) => self.evaluate(d),
            Option::None => FilterResult::OpenFailed,
        }
    }
}

/// A square image passes under the `Wide` preference and under the
/// `Tall` preference alike, whenever its side meets the size minima.
pub proof fn lemma_square_passes_both_preferences(w: u32, h: u32, c: FilterCriteria)
    requires
        w == h,
        size_ok(w, h, c),
        c.preference == ImagePreference::Wide || c.preference == ImagePreference::Tall,
    ensures
        spec_evaluate(w, h, c) == FilterResult::Pass,
{
}

} // verus!
