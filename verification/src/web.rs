//! What a browser is asked for.

use crate::config::{default_config, DeviceRequest, GpuContextConfig};
use crate::error::ContextError;
use crate::features::{dual_source_blending_bit, feature_bits};
use crate::handles::{description, supported_features, supported_limits};
use crate::limits::limit_values;
use vstd::prelude::*;

verus! {

/// Which adapter is preferred where there are several.
#[derive(Clone, Copy, Debug, PartialEq, Eq, Structural)]
pub enum PowerPreference {
    NoPreference,
    LowPower,
    HighPerformance,
}

/// An adapter to be requested.
#[derive(Clone, Copy, Debug, PartialEq, Eq, Structural)]
pub struct AdapterRequest {
    pub power_preference: PowerPreference,
    /// Whether the adapter has to be able to present to a given surface.
    pub has_compatible_surface: bool,
    /// Whether only a software adapter will do.
    pub force_fallback_adapter: bool,
}

/// The adapter that a browser is asked for: the fastest, whatever the surface.
pub fn web_adapter_request() -> (request: AdapterRequest)
    ensures
        request == (AdapterRequest {
            power_preference: PowerPreference::HighPerformance,
            has_compatible_surface: false,
            force_fallback_adapter: false,
        }),
{
    AdapterRequest {
        power_preference: PowerPreference::HighPerformance,
        has_compatible_surface: false,
        force_fallback_adapter: false,
    }
}

/// What came of the request for an adapter: the adapter, or why there is none.
pub fn web_adapter(reply: Result<wgpu::Adapter, String>) -> (r: Result<
    wgpu::Adapter,
    ContextError,
>)
    ensures
        r == match reply {
            Ok(adapter) => Ok(adapter),
            Err(reason) => Err(ContextError::AdapterRequest(reason)),
        },
{
    match reply {
        Ok(adapter) => Ok(adapter),
        Err(reason) => Err(ContextError::AdapterRequest(reason)),
    }
}

/// The device to ask for of a browser's adapter: the one that the default
/// configuration asks for.
pub fn web_device_request(adapter: &wgpu::Adapter) -> (request: DeviceRequest)
    ensures
        request.answers(
            default_config(),
            supported_features(*adapter),
            supported_limits(*adapter),
            description(*adapter),
        ),
{
    GpuContextConfig::default().device_request(adapter)
}

/// The device to ask for of a browser's adapter is the one that a configuration
/// with no setting changed asks for.
pub proof fn law_browser_asks_by_default(
    adapter: wgpu::Adapter,
    config: GpuContextConfig,
    web: DeviceRequest,
    plain: DeviceRequest,
)
    requires
        call_ensures(GpuContextConfig::default, (), config),
        call_ensures(GpuContextConfig::device_request, (&config, &adapter), plain),
        call_ensures(web_device_request, (&adapter,), web),
    ensures
        feature_bits(web.required_features) == feature_bits(plain.required_features),
        limit_values(web.required_limits) == limit_values(plain.required_limits),
        web.experimental_features == plain.experimental_features,
        web.dual_source_blending == plain.dual_source_blending,
        !web.experimental_features,
        web.dual_source_blending <==> supported_features(adapter).contains(
            dual_source_blending_bit(),
        ),
{
}

/// A browser's adapter is taken as it is; without one, the reason is passed on.
pub proof fn law_browser_adapter_is_taken_as_it_is(
    reply: Result<wgpu::Adapter, String>,
    r: Result<wgpu::Adapter, ContextError>,
)
    requires
        call_ensures(web_adapter, (reply,), r),
    ensures
        r.ok() == reply.ok(),
        r matches Err(error) ==> error matches ContextError::AdapterRequest(reason) && reply == Err::<
            wgpu::Adapter,
            String,
        >(reason),
{
}

} // verus!
