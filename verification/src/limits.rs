//! The limits that a device is asked for.

use vstd::prelude::*;

verus! {

/// `wgpu::Limits`: the limits of a device.
#[verifier::external_type_specification]
#[verifier::external_body]
pub struct ExLimits(wgpu::Limits);

/// The limits of a device, one for each field of [`wgpu::Limits`].
pub enum Limit {
    MaxTextureDimension1d,
    MaxTextureDimension2d,
    MaxTextureDimension3d,
    MaxTextureArrayLayers,
    MaxBindGroups,
    MaxBindingsPerBindGroup,
    MaxDynamicUniformBuffersPerPipelineLayout,
    MaxDynamicStorageBuffersPerPipelineLayout,
    MaxSampledTexturesPerShaderStage,
    MaxSamplersPerShaderStage,
    MaxStorageBuffersPerShaderStage,
    MaxStorageTexturesPerShaderStage,
    MaxUniformBuffersPerShaderStage,
    MaxBindingArrayElementsPerShaderStage,
    MaxBindingArrayAccelerationStructureElementsPerShaderStage,
    MaxBindingArraySamplerElementsPerShaderStage,
    MaxUniformBufferBindingSize,
    MaxStorageBufferBindingSize,
    MaxVertexBuffers,
    MaxBufferSize,
    MaxVertexAttributes,
    MaxVertexBufferArrayStride,
    MaxInterStageShaderVariables,
    MinUniformBufferOffsetAlignment,
    MinStorageBufferOffsetAlignment,
    MaxColorAttachments,
    MaxColorAttachmentBytesPerSample,
    MaxComputeWorkgroupStorageSize,
    MaxComputeInvocationsPerWorkgroup,
    MaxComputeWorkgroupSizeX,
    MaxComputeWorkgroupSizeY,
    MaxComputeWorkgroupSizeZ,
    MaxComputeWorkgroupsPerDimension,
    MaxImmediateSize,
    MaxNonSamplerBindings,
    MaxTaskMeshWorkgroupTotalCount,
    MaxTaskMeshWorkgroupsPerDimension,
    MaxTaskInvocationsPerWorkgroup,
    MaxTaskInvocationsPerDimension,
    MaxMeshInvocationsPerWorkgroup,
    MaxMeshInvocationsPerDimension,
    MaxTaskPayloadSize,
    MaxMeshOutputVertices,
    MaxMeshOutputPrimitives,
    MaxMeshOutputLayers,
    MaxMeshMultiviewViewCount,
    MaxBlasPrimitiveCount,
    MaxBlasGeometryCount,
    MaxTlasInstanceCount,
    MaxAccelerationStructuresPerShaderStage,
    MaxMultiviewViewCount,
}

/// The limits that a `wgpu::Limits` holds.
pub uninterp spec fn limit_values(limits: wgpu::Limits) -> Map<Limit, nat>;

/// Whether a limit bounds the size of textures.
pub open spec fn is_resolution(limit: Limit) -> bool {
    ||| limit is MaxTextureDimension1d
    ||| limit is MaxTextureDimension2d
    ||| limit is MaxTextureDimension3d
}

/// Whether a limit is an alignment of buffer offsets.
pub open spec fn is_alignment(limit: Limit) -> bool {
    ||| limit is MinUniformBufferOffsetAlignment
    ||| limit is MinStorageBufferOffsetAlignment
}

/// The limits of `base`, except that those that `taken` picks are as in `other`.
pub open spec fn taking(
    base: Map<Limit, nat>,
    other: Map<Limit, nat>,
    taken: spec_fn(Limit) -> bool,
) -> Map<Limit, nat> {
    Map::new(
        |limit: Limit| true,
        |limit: Limit|
            if taken(limit) {
                other[limit]
            } else {
                base[limit]
            },
    )
}

/// The conservative value of each limit, which every adapter can be expected to
/// support.
pub open spec fn conservative_value(limit: Limit) -> nat {
    match limit {
        Limit::MaxTextureDimension1d => 2048,
        Limit::MaxTextureDimension2d => 2048,
        Limit::MaxTextureDimension3d => 256,
        Limit::MaxTextureArrayLayers => 256,
        Limit::MaxBindGroups => 4,
        Limit::MaxBindingsPerBindGroup => 1000,
        Limit::MaxDynamicUniformBuffersPerPipelineLayout => 8,
        Limit::MaxDynamicStorageBuffersPerPipelineLayout => 4,
        Limit::MaxSampledTexturesPerShaderStage => 16,
        Limit::MaxSamplersPerShaderStage => 16,
        Limit::MaxStorageBuffersPerShaderStage => 4,
        Limit::MaxStorageTexturesPerShaderStage => 4,
        Limit::MaxUniformBuffersPerShaderStage => 12,
        Limit::MaxBindingArrayElementsPerShaderStage => 0,
        Limit::MaxBindingArrayAccelerationStructureElementsPerShaderStage => 0,
        Limit::MaxBindingArraySamplerElementsPerShaderStage => 0,
        Limit::MaxUniformBufferBindingSize => 16384,
        Limit::MaxStorageBufferBindingSize => 134217728,
        Limit::MaxVertexBuffers => 8,
        Limit::MaxBufferSize => 268435456,
        Limit::MaxVertexAttributes => 16,
        Limit::MaxVertexBufferArrayStride => 2048,
        Limit::MaxInterStageShaderVariables => 15,
        Limit::MinUniformBufferOffsetAlignment => 256,
        Limit::MinStorageBufferOffsetAlignment => 256,
        Limit::MaxColorAttachments => 4,
        Limit::MaxColorAttachmentBytesPerSample => 32,
        Limit::MaxComputeWorkgroupStorageSize => 16352,
        Limit::MaxComputeInvocationsPerWorkgroup => 256,
        Limit::MaxComputeWorkgroupSizeX => 256,
        Limit::MaxComputeWorkgroupSizeY => 256,
        Limit::MaxComputeWorkgroupSizeZ => 64,
        Limit::MaxComputeWorkgroupsPerDimension => 65535,
        Limit::MaxImmediateSize => 0,
        Limit::MaxNonSamplerBindings => 1000000,
        Limit::MaxTaskMeshWorkgroupTotalCount => 0,
        Limit::MaxTaskMeshWorkgroupsPerDimension => 0,
        Limit::MaxTaskInvocationsPerWorkgroup => 0,
        Limit::MaxTaskInvocationsPerDimension => 0,
        Limit::MaxMeshInvocationsPerWorkgroup => 0,
        Limit::MaxMeshInvocationsPerDimension => 0,
        Limit::MaxTaskPayloadSize => 0,
        Limit::MaxMeshOutputVertices => 0,
        Limit::MaxMeshOutputPrimitives => 0,
        Limit::MaxMeshOutputLayers => 0,
        Limit::MaxMeshMultiviewViewCount => 0,
        Limit::MaxBlasPrimitiveCount => 0,
        Limit::MaxBlasGeometryCount => 0,
        Limit::MaxTlasInstanceCount => 0,
        Limit::MaxAccelerationStructuresPerShaderStage => 0,
        Limit::MaxMultiviewViewCount => 0,
    }
}

/// The conservative value of all limits.
pub open spec fn conservative_limits() -> Map<Limit, nat> {
    Map::new(|limit: Limit| true, |limit: Limit| conservative_value(limit))
}

/// The conservative limits, except that resolution and alignment are those of
/// the adapter.
pub open spec fn adapted_limits(adapter: Map<Limit, nat>) -> Map<Limit, nat> {
    taking(
        conservative_limits(),
        adapter,
        |limit: Limit| is_resolution(limit) || is_alignment(limit),
    )
}

/// `wgpu::Limits::downlevel_defaults` gives each limit its conservative value.
pub assume_specification[ wgpu::Limits::downlevel_defaults ]() -> (limits: wgpu::Limits)
    ensures
        limit_values(limits) == conservative_limits(),
;

/// `wgpu::Limits::using_resolution` takes the texture dimensions from `other`
/// and leaves every other limit as it was.
pub assume_specification[ wgpu::Limits::using_resolution ](
    limits: wgpu::Limits,
    other: wgpu::Limits,
) -> (r: wgpu::Limits)
    ensures
        limit_values(r) == taking(
            limit_values(limits),
            limit_values(other),
            |limit: Limit| is_resolution(limit),
        ),
;

/// `wgpu::Limits::using_alignment` takes the offset alignments from `other` and
/// leaves every other limit as it was.
pub assume_specification[ wgpu::Limits::using_alignment ](
    limits: wgpu::Limits,
    other: wgpu::Limits,
) -> (r: wgpu::Limits)
    ensures
        limit_values(r) == taking(
            limit_values(limits),
            limit_values(other),
            |limit: Limit| is_alignment(limit),
        ),
;

/// The derived `Clone` of `wgpu::Limits` copies each limit.
pub assume_specification[ <wgpu::Limits as Clone>::clone ](limits: &wgpu::Limits) -> (r:
    wgpu::Limits)
    ensures
        r == *limits,
;

/// The limits to ask for: all that the adapter has, or the conservative ones at
/// the adapter's resolution and alignment.
pub fn limits_to_request(adapter: &wgpu::Limits, adapter_limits: bool) -> (limits: wgpu::Limits)
    ensures
        limit_values(limits) == if adapter_limits {
            limit_values(*adapter)
        } else {
            adapted_limits(limit_values(*adapter))
        },
{
    if adapter_limits {
        adapter.clone()
    } else {
        wgpu::Limits::downlevel_defaults().using_resolution(adapter.clone()).using_alignment(
            adapter.clone(),
        )
    }
}

/// Where the adapter's own limits are wanted, each limit is the adapter's.
/// Otherwise the three texture dimensions and the two offset alignments are, and
/// every other limit is the conservative one, whatever the adapter has.
pub proof fn law_requested_limits(
    adapter: wgpu::Limits,
    adapter_limits: bool,
    limits: wgpu::Limits,
    limit: Limit,
)
    requires
        call_ensures(limits_to_request, (&adapter, adapter_limits), limits),
    ensures
        limit_values(limits)[limit] == if adapter_limits {
            limit_values(adapter)[limit]
        } else {
            match limit {
                Limit::MaxTextureDimension1d
                | Limit::MaxTextureDimension2d
                | Limit::MaxTextureDimension3d
                | Limit::MinUniformBufferOffsetAlignment
                | Limit::MinStorageBufferOffsetAlignment => limit_values(adapter)[limit],
                _ => conservative_limits()[limit],
            }
        },
        adapter_limits ==> limit_values(limits) == limit_values(adapter),
{
}

/// Unless the adapter's own limits are wanted, only resolution and alignment
/// follow the adapter.
pub proof fn law_adapted_limits(adapter: Map<Limit, nat>, limit: Limit)
    ensures
        adapted_limits(adapter)[limit] == if is_resolution(limit) || is_alignment(limit) {
            adapter[limit]
        } else {
            conservative_value(limit)
        },
{
}

} // verus!
