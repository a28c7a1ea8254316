//! Optional device capabilities, as `wgpu` represents them.
//!
//! The capability set itself belongs to `wgpu`; this module says what the
//! library relies on when it negotiates capabilities and when it asks whether
//! a device can map its own output memory.

use vstd::prelude::*;
use wgpu::Features;

verus! {

/// `wgpu::Features`: a set of optional capabilities.
#[verifier::external_type_specification]
#[verifier::external_body]
pub struct ExFeatures(Features);

/// The flags held by a capability set. A flag is numbered by its place in
/// `Features::bits()`: bit `i` of word `w` is flag `64 * w + i`.
pub uninterp spec fn feature_flags(features: Features) -> Set<nat>;

/// The number of the flag `Features::MAPPABLE_PRIMARY_BUFFERS`.
pub const MAPPABLE_PRIMARY_BUFFERS: u32 = 7;

/// `Features::empty`: the set without any flag.
pub assume_specification[ Features::empty ]() -> (none: Features)
    ensures
        feature_flags(none) == Set::<nat>::empty(),
;

/// `Features::union`: the flags of either operand.
pub assume_specification[ Features::union ](left: Features, right: Features) -> (both: Features)
    ensures
        feature_flags(both) == feature_flags(left).union(feature_flags(right)),
;

/// `Features::intersection`: the flags common to both operands.
pub assume_specification[ Features::intersection ](left: Features, right: Features) -> (common: Features)
    ensures
        feature_flags(common) == feature_flags(left).intersect(feature_flags(right)),
;

/// `Features::contains`: whether every flag of `wanted` is held by `held`.
pub assume_specification[ Features::contains ](held: Features, wanted: Features) -> (all: bool)
    ensures
        all == feature_flags(wanted).subset_of(feature_flags(held)),
;

/// The constant `Features::MAPPABLE_PRIMARY_BUFFERS`: the set holding that
/// one flag, which `wgpu` defines as bit 7 of the first word.
#[verifier::external_body]
pub(crate) fn mappable_primary_buffers() -> (flag: Features)
    ensures
        feature_flags(flag) == set![MAPPABLE_PRIMARY_BUFFERS as nat],
{
    Features::MAPPABLE_PRIMARY_BUFFERS
}

/// Whether a device holding `features` can map its own storage buffers into
/// host-visible memory.
pub open spec fn maps_primary_buffers(features: Features) -> bool {
    feature_flags(features).contains(MAPPABLE_PRIMARY_BUFFERS as nat)
}

/// Decides `maps_primary_buffers`.
pub fn can_map_primary_buffers(features: Features) -> (mappable: bool)
    ensures
        mappable == maps_primary_buffers(features),
{
    features.contains(mappable_primary_buffers())
}

/// The capabilities to ask of an adapter: those of `requested` that it
/// offers, together with all of `required`.
pub open spec fn negotiated(available: Features, requested: Features, required: Features) -> Set<nat> {
    feature_flags(available).intersect(feature_flags(requested)).union(feature_flags(required))
}

/// Computes the capability set described by `negotiated`.
pub fn negotiate(available: Features, requested: Features, required: Features) -> (asked: Features)
    ensures
        feature_flags(asked) == negotiated(available, requested, required),
{
    available.intersection(requested).union(required)
}

} // verus!
