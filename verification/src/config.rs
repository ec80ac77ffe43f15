//! What a GPU device is asked for, and how users change it.

use crate::features::{dual_source_blending, dual_source_blending_bit, feature_bits};
use crate::features::has_dual_source_blending;
use crate::handles::{description, supported_features, supported_limits};
use crate::limits::{adapted_limits, conservative_limits, limit_values, limits_to_request, Limit};
use vstd::prelude::*;

verus! {

/// A last say on the features to ask for.
pub trait FeatureFilter {
    /// Whether the filter can be asked about these features.
    spec fn accepts(&self, info: &wgpu::AdapterInfo, features: wgpu::Features) -> bool;

    /// Whether the filter may answer `out` when asked about these features.
    spec fn yields(
        &self,
        info: &wgpu::AdapterInfo,
        features: wgpu::Features,
        out: wgpu::Features,
    ) -> bool;

    /// The features to ask for, given the adapter's description and the
    /// candidates.
    fn filter(&self, info: &wgpu::AdapterInfo, features: wgpu::Features) -> (out: wgpu::Features)
        requires
            self.accepts(info, features),
        ensures
            self.yields(info, features, out),
    ;
}

impl<F: Fn(&wgpu::AdapterInfo, wgpu::Features) -> wgpu::Features> FeatureFilter for F {
    open spec fn accepts(&self, info: &wgpu::AdapterInfo, features: wgpu::Features) -> bool {
        call_requires(*self, (info, features))
    }

    open spec fn yields(
        &self,
        info: &wgpu::AdapterInfo,
        features: wgpu::Features,
        out: wgpu::Features,
    ) -> bool {
        call_ensures(*self, (info, features), out)
    }

    fn filter(&self, info: &wgpu::AdapterInfo, features: wgpu::Features) -> (out: wgpu::Features) {
        self(info, features)
    }
}

/// A feature filter of any kind.
pub type FeatureFilterFn = Box<dyn FeatureFilter>;

/// What a configuration says.
pub struct ConfigView {
    pub additional_features: Set<nat>,
    pub all_adapter_features: bool,
    pub experimental_features: bool,
    pub adapter_limits: bool,
    pub feature_filter: Option<FeatureFilterFn>,
}

/// The configuration that asks for nothing beyond what the renderer needs.
pub open spec fn default_config() -> ConfigView {
    ConfigView {
        additional_features: Set::empty(),
        all_adapter_features: false,
        experimental_features: false,
        adapter_limits: false,
        feature_filter: None,
    }
}

/// The features to ask for before the filter has its say: dual-source blending
/// where the adapter supports it, all that the adapter supports where the
/// configuration says so, and the additional ones.
pub open spec fn candidate_features(config: ConfigView, supported: Set<nat>) -> Set<nat> {
    let needed = if supported.contains(dual_source_blending_bit()) {
        set![dual_source_blending_bit()]
    } else {
        Set::empty()
    };
    let all = if config.all_adapter_features {
        supported
    } else {
        Set::empty()
    };
    needed.union(all).union(config.additional_features)
}

/// Whether `required` is what is left of the candidates: the candidates
/// themselves, or, where there is a filter, an answer that it gives about them.
pub open spec fn is_filtered(
    config: ConfigView,
    info: wgpu::AdapterInfo,
    candidates: Set<nat>,
    required: wgpu::Features,
) -> bool {
    match config.feature_filter {
        None => feature_bits(required) == candidates,
        Some(filter) => exists|asked: wgpu::Features|
            #[trigger] feature_bits(asked) == candidates && filter.yields(&info, asked, required),
    }
}

/// How a device should balance speed against memory.
#[derive(Clone, Copy, Debug, PartialEq, Eq, Structural)]
pub enum MemoryHints {
    Performance,
    MemoryUsage,
}

/// How the calls to a device are recorded.
#[derive(Clone, Copy, Debug, PartialEq, Eq, Structural)]
pub enum Trace {
    /// They are not.
    Off,
}

/// A device to be created.
pub struct DeviceRequest {
    pub label: &'static str,
    pub required_features: wgpu::Features,
    pub required_limits: wgpu::Limits,
    pub memory_hints: MemoryHints,
    pub trace: Trace,
    /// Whether experimental features may be enabled.
    pub experimental_features: bool,
    /// Whether the adapter supports dual-source blending.
    pub dual_source_blending: bool,
}

impl DeviceRequest {
    /// Whether this is the request that a configuration makes of an adapter with
    /// the given features, limits and description.
    pub open spec fn answers(
        &self,
        config: ConfigView,
        supported: Set<nat>,
        limits: Map<Limit, nat>,
        info: wgpu::AdapterInfo,
    ) -> bool {
        &&& self.label@ == "gpui_device"@
        &&& is_filtered(config, info, candidate_features(config, supported), self.required_features)
        &&& limit_values(self.required_limits) == if config.adapter_limits {
            limits
        } else {
            adapted_limits(limits)
        }
        &&& self.memory_hints == MemoryHints::MemoryUsage
        &&& self.trace == Trace::Off
        &&& self.experimental_features == config.experimental_features
        &&& self.dual_source_blending == supported.contains(dual_source_blending_bit())
    }
}

/// Configuration for GPU context initialization.
///
/// Use the builder methods to customise which features and limits are requested
/// when the device is created.
pub struct GpuContextConfig {
    additional_features: wgpu::Features,
    all_adapter_features: bool,
    experimental_features: bool,
    adapter_limits: bool,
    feature_filter: Option<FeatureFilterFn>,
}

impl View for GpuContextConfig {
    type V = ConfigView;

    closed spec fn view(&self) -> ConfigView {
        ConfigView {
            additional_features: feature_bits(self.additional_features),
            all_adapter_features: self.all_adapter_features,
            experimental_features: self.experimental_features,
            adapter_limits: self.adapter_limits,
            feature_filter: self.feature_filter,
        }
    }
}

impl Default for GpuContextConfig {
    fn default() -> (config: Self)
        ensures
            config@ == default_config(),
    {
        GpuContextConfig {
            additional_features: wgpu::Features::empty(),
            all_adapter_features: false,
            experimental_features: false,
            adapter_limits: false,
            feature_filter: None,
        }
    }
}

impl GpuContextConfig {
    /// A filter, where there is one, can be asked about any features.
    #[verifier::type_invariant]
    spec fn filter_is_total(&self) -> bool {
        self.feature_filter matches Some(filter) ==> forall|
            info: &wgpu::AdapterInfo,
            features: wgpu::Features,
        |
            filter.accepts(info, features)
    }

    /// Request additional features on top of what the renderer requires.
    pub fn with_additional_features(self, features: wgpu::Features) -> (config: Self)
        ensures
            config@ == (ConfigView { additional_features: feature_bits(features), ..self@ }),
    {
        proof {
            use_type_invariant(&self);
        }
        GpuContextConfig { additional_features: features, ..self }
    }

    /// When `true`, request *all* features reported by the adapter instead of
    /// only the ones the renderer needs.
    pub fn with_all_adapter_features(self, enabled: bool) -> (config: Self)
        ensures
            config@ == (ConfigView { all_adapter_features: enabled, ..self@ }),
    {
        proof {
            use_type_invariant(&self);
        }
        GpuContextConfig { all_adapter_features: enabled, ..self }
    }

    /// When `true`, enable experimental features on the device.
    ///
    /// # Safety
    /// Experimental features may contain bugs that trigger undefined behaviour.
    /// See [`wgpu::ExperimentalFeatures::enabled`] for details.
    pub fn with_experimental_features(self, enabled: bool) -> (config: Self)
        ensures
            config@ == (ConfigView { experimental_features: enabled, ..self@ }),
    {
        proof {
            use_type_invariant(&self);
        }
        GpuContextConfig { experimental_features: enabled, ..self }
    }

    /// When `true`, request limits that match the adapter's reported limits
    /// rather than the conservative ones.
    pub fn with_adapter_limits(self, enabled: bool) -> (config: Self)
        ensures
            config@ == (ConfigView { adapter_limits: enabled, ..self@ }),
    {
        proof {
            use_type_invariant(&self);
        }
        GpuContextConfig { adapter_limits: enabled, ..self }
    }

    /// Register a callback that is invoked just before device creation to adjust
    /// the requested feature set. This runs after all other feature selection
    /// logic.
    pub fn with_feature_filter(
        self,
        filter: impl Fn(&wgpu::AdapterInfo, wgpu::Features) -> wgpu::Features + 'static,
    ) -> (config: Self)
        requires
            forall|info: &wgpu::AdapterInfo, features: wgpu::Features|
                call_requires(filter, (info, features)),
        ensures
            config@ == (ConfigView { feature_filter: config@.feature_filter, ..self@ }),
            config@.feature_filter is Some,
            forall|info: &wgpu::AdapterInfo, features: wgpu::Features, out: wgpu::Features|
                (#[trigger] config@.feature_filter->0.yields(info, features, out))
                    == call_ensures(filter, (info, features), out),
    {
        let boxed: FeatureFilterFn = Box::new(filter);
        GpuContextConfig { feature_filter: Some(boxed), ..self }
    }

    /// The features to ask for before the filter has its say.
    fn candidates(&self, supported: wgpu::Features) -> (features: wgpu::Features)
        ensures
            feature_bits(features) == candidate_features(self@, feature_bits(supported)),
    {
        let mut features = wgpu::Features::empty();
        if has_dual_source_blending(supported) {
            features = features.union(dual_source_blending());
        }
        if self.all_adapter_features {
            features = features.union(supported);
        }
        features.union(self.additional_features)
    }

    /// The device to ask for, given what an adapter reports of itself.
    pub fn plan_device(
        &self,
        supported: wgpu::Features,
        limits: &wgpu::Limits,
        info: &wgpu::AdapterInfo,
    ) -> (request: DeviceRequest)
        ensures
            request.answers(self@, feature_bits(supported), limit_values(*limits), *info),
    {
        proof {
            use_type_invariant(self);
        }
        let candidates = self.candidates(supported);
        let required_features = match &self.feature_filter {
            Some(filter) => filter.filter(info, candidates),
            None => candidates,
        };
        DeviceRequest {
            label: "gpui_device",
            required_features,
            required_limits: limits_to_request(limits, self.adapter_limits),
            memory_hints: MemoryHints::MemoryUsage,
            trace: Trace::Off,
            experimental_features: self.experimental_features,
            dual_source_blending: has_dual_source_blending(supported),
        }
    }

    /// The device to ask for of `adapter`.
    pub fn device_request(&self, adapter: &wgpu::Adapter) -> (request: DeviceRequest)
        ensures
            request.answers(
                self@,
                supported_features(*adapter),
                supported_limits(*adapter),
                description(*adapter),
            ),
    {
        self.plan_device(adapter.features(), &adapter.limits(), &adapter.get_info())
    }
}

/// A device is asked for with the adapter's limits where the configuration wants
/// them, and otherwise with the conservative ones at the adapter's resolution and
/// alignment, whatever else the configuration says.
pub proof fn law_limits_follow_their_own_setting(
    config: GpuContextConfig,
    supported: wgpu::Features,
    limits: wgpu::Limits,
    info: wgpu::AdapterInfo,
    request: DeviceRequest,
    limit: Limit,
)
    requires
        call_ensures(GpuContextConfig::plan_device, (&config, supported, &limits, &info), request),
    ensures
        config@.adapter_limits ==> limit_values(request.required_limits) == limit_values(limits),
        !config@.adapter_limits ==> limit_values(request.required_limits)[limit] == match limit {
            Limit::MaxTextureDimension1d
            | Limit::MaxTextureDimension2d
            | Limit::MaxTextureDimension3d
            | Limit::MinUniformBufferOffsetAlignment
            | Limit::MinStorageBufferOffsetAlignment => limit_values(limits)[limit],
            _ => conservative_limits()[limit],
        },
{
}

/// Experimental features are enabled where the configuration says so, and the
/// request tells of dual-source blending what the adapter supports, whatever else
/// the configuration says. The rest of a request is always the same.
pub proof fn law_switches_follow_their_own_setting(
    config: GpuContextConfig,
    supported: wgpu::Features,
    limits: wgpu::Limits,
    info: wgpu::AdapterInfo,
    request: DeviceRequest,
)
    requires
        call_ensures(GpuContextConfig::plan_device, (&config, supported, &limits, &info), request),
    ensures
        request.experimental_features <==> config@.experimental_features,
        request.dual_source_blending <==> feature_bits(supported).contains(
            dual_source_blending_bit(),
        ),
        request.memory_hints is MemoryUsage,
        request.trace is Off,
        request.label@ == "gpui_device"@,
{
}

/// Without a filter, a feature is asked for exactly if it is one of the additional
/// ones, if the adapter supports it and all of its features are wanted, or if it
/// is dual-source blending and the adapter supports it. A filter is asked about
/// just these features, and what it answers is what is asked for.
pub proof fn law_requested_features(
    config: GpuContextConfig,
    supported: wgpu::Features,
    limits: wgpu::Limits,
    info: wgpu::AdapterInfo,
    request: DeviceRequest,
)
    requires
        call_ensures(GpuContextConfig::plan_device, (&config, supported, &limits, &info), request),
    ensures
        exists|asked: wgpu::Features|
            #![trigger feature_bits(asked)]
            {
                &&& forall|bit: nat| #[trigger]
                    feature_bits(asked).contains(bit) <==> {
                        ||| config@.additional_features.contains(bit)
                        ||| feature_bits(supported).contains(bit) && (config@.all_adapter_features
                            || bit == dual_source_blending_bit())
                    }
                &&& match config@.feature_filter {
                    Some(filter) => filter.yields(&info, asked, request.required_features),
                    None => feature_bits(asked) == feature_bits(request.required_features),
                }
            },
{
    let candidates = candidate_features(config@, feature_bits(supported));
    let asked = match config@.feature_filter {
        Some(filter) => choose|asked: wgpu::Features|
            #[trigger] feature_bits(asked) == candidates && filter.yields(
                &info,
                asked,
                request.required_features,
            ),
        None => request.required_features,
    };
    assert(feature_bits(asked) == candidates);
}

/// The device asked for of an adapter is the one that is planned for the features,
/// the limits and the description that the adapter reports.
pub proof fn law_adapters_are_asked_by_what_they_report(
    config: GpuContextConfig,
    adapter: wgpu::Adapter,
    supported: wgpu::Features,
    limits: wgpu::Limits,
    info: wgpu::AdapterInfo,
    asked: DeviceRequest,
    planned: DeviceRequest,
)
    requires
        config@.feature_filter is None,
        call_ensures(wgpu::Adapter::features, (&adapter,), supported),
        call_ensures(wgpu::Adapter::limits, (&adapter,), limits),
        call_ensures(wgpu::Adapter::get_info, (&adapter,), info),
        call_ensures(GpuContextConfig::device_request, (&config, &adapter), asked),
        call_ensures(GpuContextConfig::plan_device, (&config, supported, &limits, &info), planned),
    ensures
        feature_bits(asked.required_features) == feature_bits(planned.required_features),
        limit_values(asked.required_limits) == limit_values(planned.required_limits),
        asked.experimental_features == planned.experimental_features,
        asked.dual_source_blending == planned.dual_source_blending,
{
}

/// Each setting is what it was last set to, and setting it leaves the others
/// alone.
pub proof fn law_settings_are_independent(
    config: GpuContextConfig,
    features: wgpu::Features,
    enabled: bool,
    additional: GpuContextConfig,
    all: GpuContextConfig,
    experimental: GpuContextConfig,
    own_limits: GpuContextConfig,
)
    requires
        call_ensures(GpuContextConfig::with_additional_features, (config, features), additional),
        call_ensures(GpuContextConfig::with_all_adapter_features, (config, enabled), all),
        call_ensures(GpuContextConfig::with_experimental_features, (config, enabled), experimental),
        call_ensures(GpuContextConfig::with_adapter_limits, (config, enabled), own_limits),
    ensures
        additional@.additional_features == feature_bits(features),
        all@.additional_features == config@.additional_features,
        experimental@.additional_features == config@.additional_features,
        own_limits@.additional_features == config@.additional_features,
        all@.all_adapter_features == enabled,
        additional@.all_adapter_features == config@.all_adapter_features,
        experimental@.all_adapter_features == config@.all_adapter_features,
        own_limits@.all_adapter_features == config@.all_adapter_features,
        experimental@.experimental_features == enabled,
        additional@.experimental_features == config@.experimental_features,
        all@.experimental_features == config@.experimental_features,
        own_limits@.experimental_features == config@.experimental_features,
        own_limits@.adapter_limits == enabled,
        additional@.adapter_limits == config@.adapter_limits,
        all@.adapter_limits == config@.adapter_limits,
        experimental@.adapter_limits == config@.adapter_limits,
        additional@.feature_filter == config@.feature_filter,
        all@.feature_filter == config@.feature_filter,
        experimental@.feature_filter == config@.feature_filter,
        own_limits@.feature_filter == config@.feature_filter,
{
}

/// A filter takes the place of an earlier one and leaves the other settings
/// alone. What is asked for is then an answer of this very filter.
pub proof fn law_filter_has_the_last_say<
    F: Fn(&wgpu::AdapterInfo, wgpu::Features) -> wgpu::Features + 'static,
>(
    config: GpuContextConfig,
    filter: F,
    filtered: GpuContextConfig,
    supported: wgpu::Features,
    limits: wgpu::Limits,
    info: wgpu::AdapterInfo,
    request: DeviceRequest,
)
    requires
        call_ensures(GpuContextConfig::with_feature_filter, (config, filter), filtered),
        call_ensures(GpuContextConfig::plan_device, (&filtered, supported, &limits, &info), request),
    ensures
        filtered@.additional_features == config@.additional_features,
        filtered@.all_adapter_features == config@.all_adapter_features,
        filtered@.experimental_features == config@.experimental_features,
        filtered@.adapter_limits == config@.adapter_limits,
        exists|asked: wgpu::Features|
            #![trigger feature_bits(asked)]
            {
                &&& forall|bit: nat| #[trigger]
                    feature_bits(asked).contains(bit) <==> {
                        ||| config@.additional_features.contains(bit)
                        ||| feature_bits(supported).contains(bit) && (config@.all_adapter_features
                            || bit == dual_source_blending_bit())
                    }
                &&& call_ensures(filter, (&info, asked), request.required_features)
            },
{
    law_requested_features(filtered, supported, limits, info, request);
}

/// The default configuration asks for dual-source blending where the adapter
/// supports it and for no other feature, and leaves every switch off.
pub proof fn law_default_switches_are_off(
    config: GpuContextConfig,
    supported: wgpu::Features,
    limits: wgpu::Limits,
    info: wgpu::AdapterInfo,
    request: DeviceRequest,
    bit: nat,
)
    requires
        call_ensures(GpuContextConfig::default, (), config),
        call_ensures(GpuContextConfig::plan_device, (&config, supported, &limits, &info), request),
    ensures
        feature_bits(request.required_features).contains(bit) <==> bit
            == dual_source_blending_bit() && feature_bits(supported).contains(bit),
        limit_values(request.required_limits) == adapted_limits(limit_values(limits)),
        !request.experimental_features,
        !config@.all_adapter_features,
        !config@.adapter_limits,
        config@.feature_filter is None,
{
}

/// By default the only feature asked for is dual-source blending, and only of an
/// adapter that supports it.
pub proof fn law_default_asks_for_the_minimum(supported: Set<nat>)
    ensures
        forall|bit: nat| #[trigger]
            candidate_features(default_config(), supported).contains(bit) <==> bit
                == dual_source_blending_bit() && supported.contains(bit),
{
}

/// The features asked for of an adapter are the additional ones, those of the
/// adapter where all of them are wanted, and dual-source blending where the
/// adapter supports it; no others.
pub proof fn law_candidates(config: ConfigView, supported: Set<nat>, bit: nat)
    ensures
        candidate_features(config, supported).contains(bit) <==> {
            ||| config.additional_features.contains(bit)
            ||| config.all_adapter_features && supported.contains(bit)
            ||| bit == dual_source_blending_bit() && supported.contains(bit)
        },
{
}

/// An adapter is asked only for features that it supports, as long as the
/// additional ones are among them.
pub proof fn law_candidates_are_supported(config: ConfigView, supported: Set<nat>)
    requires
        config.additional_features.subset_of(supported),
    ensures
        candidate_features(config, supported).subset_of(supported),
{
}

/// The filter has the last say on the features, and a say on nothing else.
pub proof fn law_filter_decides_on_features_alone(
    plain: DeviceRequest,
    filtered: DeviceRequest,
    config: ConfigView,
    filter: FeatureFilterFn,
    supported: Set<nat>,
    limits: Map<Limit, nat>,
    info: wgpu::AdapterInfo,
)
    requires
        plain.answers(
            (ConfigView { feature_filter: None, ..config }),
            supported,
            limits,
            info,
        ),
        filtered.answers(
            (ConfigView { feature_filter: Some(filter), ..config }),
            supported,
            limits,
            info,
        ),
    ensures
        exists|asked: wgpu::Features| #[trigger]
            feature_bits(asked) == feature_bits(plain.required_features) && filter.yields(
                &info,
                asked,
                filtered.required_features,
            ),
        filtered.label@ == plain.label@,
        limit_values(filtered.required_limits) == limit_values(plain.required_limits),
        filtered.memory_hints == plain.memory_hints,
        filtered.trace == plain.trace,
        filtered.experimental_features == plain.experimental_features,
        filtered.dual_source_blending == plain.dual_source_blending,
{
    let bare = ConfigView { feature_filter: None, ..config };
    let full = ConfigView { feature_filter: Some(filter), ..config };
    assert(candidate_features(bare, supported) == candidate_features(full, supported));
}

} // verus!
