//! The handles through which the GPU is reached, and what an adapter reports of
//! itself.

use crate::features::feature_bits;
use crate::limits::{limit_values, Limit};
use vstd::prelude::*;

verus! {

/// `wgpu::Instance`: the entry point to the GPUs of a system.
#[verifier::external_type_specification]
#[verifier::external_body]
pub struct ExInstance(wgpu::Instance);

/// `wgpu::Adapter`: a physical GPU.
#[verifier::external_type_specification]
#[verifier::external_body]
pub struct ExAdapter(wgpu::Adapter);

/// `wgpu::Device`: a connection to a GPU.
#[verifier::external_type_specification]
#[verifier::external_body]
pub struct ExDevice(wgpu::Device);

/// `wgpu::Queue`: the queue on which a device executes commands.
#[verifier::external_type_specification]
#[verifier::external_body]
pub struct ExQueue(wgpu::Queue);

/// `wgpu::AdapterInfo`: the description of an adapter.
#[verifier::external_type_specification]
#[verifier::external_body]
pub struct ExAdapterInfo(wgpu::AdapterInfo);

/// The features that an adapter supports, by their bits. They are fixed when the
/// adapter is opened.
pub uninterp spec fn supported_features(adapter: wgpu::Adapter) -> Set<nat>;

/// The best limits that an adapter supports. They are fixed when the adapter is
/// opened.
pub uninterp spec fn supported_limits(adapter: wgpu::Adapter) -> Map<Limit, nat>;

/// The description that an adapter gives of itself. It is fixed when the adapter
/// is opened.
pub uninterp spec fn description(adapter: wgpu::Adapter) -> wgpu::AdapterInfo;

/// `wgpu::Adapter::features` tells the features that the adapter supports.
pub assume_specification[ wgpu::Adapter::features ](adapter: &wgpu::Adapter) -> (features:
    wgpu::Features)
    ensures
        feature_bits(features) == supported_features(*adapter),
;

/// `wgpu::Adapter::limits` tells the best limits that the adapter supports.
pub assume_specification[ wgpu::Adapter::limits ](adapter: &wgpu::Adapter) -> (limits: wgpu::Limits)
    ensures
        limit_values(limits) == supported_limits(*adapter),
;

/// `wgpu::Adapter::get_info` gives the adapter's description.
pub assume_specification[ wgpu::Adapter::get_info ](adapter: &wgpu::Adapter) -> (info:
    wgpu::AdapterInfo)
    ensures
        info == description(*adapter),
;

/// The `Clone` of `wgpu::Instance` gives another handle to the same instance.
pub assume_specification[ <wgpu::Instance as Clone>::clone ](instance: &wgpu::Instance) -> (r:
    wgpu::Instance)
    ensures
        r == *instance,
;

} // verus!
