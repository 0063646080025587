//! The general properties of the merge interface, the normalizer and the
//! dispatch table, stated and proved once for every input.

use vstd::prelude::*;
use crate::categorize::Accessibility;
use crate::categorize::BikeAccessibility;
use crate::categorize::CarAccessibility;
use crate::categorize::EdgeProperties;
use crate::categorize::TrainAccessibility;
use crate::categorize::allow_spec;
use crate::categorize::force_allow_spec;
use crate::categorize::forbid_spec;
use crate::categorize::normalize_spec;
use crate::categorize::soft_forbid_spec;
use crate::categorize::update_spec;

verus! {

/// Normalizing is idempotent: running `normalize` a second time leaves the
/// record exactly as the first run left it.
pub proof fn lemma_normalize_idempotent(e: EdgeProperties)
    ensures
        normalize_spec(normalize_spec(e)) == normalize_spec(e),
{
}

/// An explicit forbid is absorbing against a plain `allow`, for every
/// mode-state type and every attempted value; only `force_allow` overrides
/// it.
pub proof fn lemma_forbid_absorbs_allow<T: Accessibility>(v: T, w: T)
    ensures
        allow_spec(forbid_spec(v), w) == T::forbidden_value(),
        force_allow_spec(forbid_spec(v), w) == w,
{
}

/// A soft forbid never touches a decided field: it only turns `Unknown`
/// into `Forbidden`.
pub proof fn lemma_soft_forbid_noop<T: Accessibility>(v: T)
    ensures
        v != T::unknown_value() ==> soft_forbid_spec(v) == v,
        v == T::unknown_value() ==> soft_forbid_spec(v) == T::forbidden_value(),
{
}

/// A still-undecided backward car field inherits the forward value through
/// `normalize`, exactly as it stood before the call.
pub proof fn lemma_car_backward_inherits(e: EdgeProperties)
    requires
        e.car_backward == CarAccessibility::Unknown,
        e.car_forward != CarAccessibility::Unknown,
    ensures
        normalize_spec(e).car_backward == e.car_forward,
{
}

/// A still-undecided backward bike field inherits the forward value through
/// `normalize`, exactly as it stood before the call.
pub proof fn lemma_bike_backward_inherits(e: EdgeProperties)
    requires
        e.bike_backward == BikeAccessibility::Unknown,
        e.bike_forward != BikeAccessibility::Unknown,
    ensures
        normalize_spec(e).bike_backward == e.bike_forward,
{
}

/// After `normalize`, no directional or train field is left `Unknown`, and
/// the foot field stands exactly as it did before.
pub proof fn lemma_normalize_closure(e: EdgeProperties)
    ensures
        normalize_spec(e).car_forward != CarAccessibility::Unknown,
        normalize_spec(e).car_backward != CarAccessibility::Unknown,
        normalize_spec(e).bike_forward != BikeAccessibility::Unknown,
        normalize_spec(e).bike_backward != BikeAccessibility::Unknown,
        normalize_spec(e).train != TrainAccessibility::Unknown,
        normalize_spec(e).foot == e.foot,
{
}

/// The dispatcher fails safe: a key outside its table changes nothing,
/// whatever the value holds.
pub proof fn lemma_unrecognized_key_is_noop(e: EdgeProperties, key: Seq<char>, val: Seq<char>)
    requires
        key != "highway"@,
        key != "motor_vehicle"@,
        key != "pedestrian"@,
        key != "foot"@,
        key != "path"@,
        key != "sidewalk"@,
        key != "crossing"@,
        key != "cycleway"@,
        key != "bicycle"@,
        key != "busway"@,
        key != "oneway"@,
        key != "junction"@,
        key != "railway"@,
    ensures
        update_spec(e, key, val) == e,
{
}

} // verus!
