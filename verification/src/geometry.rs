//! Points, sizes and insets, and the box of sizes that a layout pass offers.
//!
//! The coordinates are kurbo's. The tree never computes with them: it hands
//! them from a node to its handle and from the handle to the paint surface.

use vstd::prelude::*;

verus! {

/// `kurbo::Point`: a point, carried as it is.
#[verifier::external_type_specification]
#[verifier::external_body]
pub struct ExPoint(kurbo::Point);

/// `kurbo::Size`: a width and a height, carried as they are.
#[verifier::external_type_specification]
#[verifier::external_body]
pub struct ExSize(kurbo::Size);

/// `kurbo::Insets`: the distances by which a box grows on its four sides,
/// carried as they are.
#[verifier::external_type_specification]
#[verifier::external_body]
pub struct ExInsets(kurbo::Insets);

/// `kurbo::Rect`: a rectangle, carried as it is.
#[verifier::external_type_specification]
#[verifier::external_body]
pub struct ExRect(kurbo::Rect);

/// Whether `point` is the origin of the coordinate system, `kurbo::Point::ORIGIN`.
pub uninterp spec fn is_origin(point: kurbo::Point) -> bool;

/// The constant `kurbo::Point::ORIGIN`: the point whose two coordinates are
/// zero. The contract gives it the name by which the layout contracts speak
/// of it.
#[verifier::external_body]
pub(crate) fn origin() -> (point: kurbo::Point)
    ensures
        is_origin(point),
{
    kurbo::Point::ORIGIN
}

/// The sizes that a node may choose from in a layout pass: no smaller than
/// `min` and no larger than `max`.
#[derive(Clone, Copy)]
pub struct BoxConstraints {
    min: kurbo::Size,
    max: kurbo::Size,
}

impl BoxConstraints {
    pub closed spec fn spec_min(&self) -> kurbo::Size {
        self.min
    }

    pub closed spec fn spec_max(&self) -> kurbo::Size {
        self.max
    }

    /// The constraints with the given smallest and largest size.
    pub fn new(min: kurbo::Size, max: kurbo::Size) -> (bc: BoxConstraints)
        ensures
            bc.spec_min() == min,
            bc.spec_max() == max,
    {
        BoxConstraints { min, max }
    }

    /// The constraints that admit one size only.
    pub fn tight(size: kurbo::Size) -> (bc: BoxConstraints)
        ensures
            bc.spec_min() == size,
            bc.spec_max() == size,
    {
        BoxConstraints { min: size, max: size }
    }

    /// The smallest admissible size.
    #[verifier::when_used_as_spec(spec_min)]
    pub fn min(&self) -> (size: kurbo::Size)
        ensures
            size == self.spec_min(),
    {
        self.min
    }

    /// The largest admissible size.
    #[verifier::when_used_as_spec(spec_max)]
    pub fn max(&self) -> (size: kurbo::Size)
        ensures
            size == self.spec_max(),
    {
        self.max
    }
}

} // verus!
