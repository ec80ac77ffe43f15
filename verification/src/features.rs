//! The optional features that a device is asked for.

use vstd::prelude::*;

verus! {

/// `wgpu::Features`: a set of optional features.
#[verifier::external_type_specification]
#[verifier::external_body]
pub struct ExFeatures(wgpu::Features);

/// The features that a `wgpu::Features` holds, each by its bit in
/// `wgpu::Features::bits`: bit `i` of the first word is `i`, bit `i` of the
/// second word is `64 + i`.
pub uninterp spec fn feature_bits(features: wgpu::Features) -> Set<nat>;

/// The bit of dual-source blending: bit 14 of the second word.
pub open spec fn dual_source_blending_bit() -> nat {
    64 + 14
}

/// `wgpu::Features::empty` holds no feature.
pub assume_specification[ wgpu::Features::empty ]() -> (features: wgpu::Features)
    ensures
        feature_bits(features) == Set::<nat>::empty(),
;

/// `wgpu::Features::contains` tells whether every feature of `other` is one of
/// `features`.
pub assume_specification[ wgpu::Features::contains ](
    features: wgpu::Features,
    other: wgpu::Features,
) -> (r: bool)
    ensures
        r == feature_bits(other).subset_of(feature_bits(features)),
;

/// `wgpu::Features::union` holds the features of both.
pub assume_specification[ wgpu::Features::union ](
    features: wgpu::Features,
    other: wgpu::Features,
) -> (r: wgpu::Features)
    ensures
        feature_bits(r) == feature_bits(features).union(feature_bits(other)),
;

/// `wgpu::Features::DUAL_SOURCE_BLENDING` holds that feature alone.
#[verifier::external_body]
pub(crate) fn dual_source_blending() -> (features: wgpu::Features)
    ensures
        feature_bits(features) == set![dual_source_blending_bit()],
{
    wgpu::Features::DUAL_SOURCE_BLENDING
}

/// Whether dual-source blending is among the features.
pub fn has_dual_source_blending(features: wgpu::Features) -> (r: bool)
    ensures
        r == feature_bits(features).contains(dual_source_blending_bit()),
{
    let wanted = dual_source_blending();
    assert(feature_bits(wanted).contains(dual_source_blending_bit()));
    features.contains(wanted)
}

} // verus!
