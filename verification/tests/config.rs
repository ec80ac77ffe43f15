use gpu_context::config::{GpuContextConfig, MemoryHints, Trace};
use gpu_context::features::has_dual_source_blending;
use gpu_context::limits::limits_to_request;

fn noop_adapter() -> wgpu::Adapter {
    let instance = wgpu::Instance::new(wgpu::InstanceDescriptor {
        backends: wgpu::Backends::NOOP,
        backend_options: wgpu::BackendOptions {
            noop: wgpu::NoopBackendOptions { enable: true },
            ..Default::default()
        },
        ..wgpu::InstanceDescriptor::new_without_display_handle()
    });
    pollster::block_on(instance.request_adapter(&wgpu::RequestAdapterOptions::default())).unwrap()
}

#[test]
fn default_asks_for_dual_source_blending_where_supported() {
    let info = noop_adapter().get_info();
    let limits = wgpu::Limits::default();
    let config = GpuContextConfig::default();

    let with = config.plan_device(wgpu::Features::all(), &limits, &info);
    assert_eq!(with.required_features, wgpu::Features::DUAL_SOURCE_BLENDING);
    assert!(with.dual_source_blending);

    let without = config.plan_device(
        wgpu::Features::all() - wgpu::Features::DUAL_SOURCE_BLENDING,
        &limits,
        &info,
    );
    assert_eq!(without.required_features, wgpu::Features::empty());
    assert!(!without.dual_source_blending);

    assert_eq!(with.label, "gpui_device");
    assert_eq!(with.memory_hints, MemoryHints::MemoryUsage);
    assert_eq!(with.trace, Trace::Off);
    assert!(!with.experimental_features);
}

#[test]
fn dual_source_blending_is_bit_14_of_the_second_word() {
    assert_eq!(
        wgpu::Features::DUAL_SOURCE_BLENDING.bits().0,
        [0, 1 << 14],
    );
    assert!(has_dual_source_blending(wgpu::Features::DUAL_SOURCE_BLENDING));
    assert!(has_dual_source_blending(wgpu::Features::all()));
    assert!(!has_dual_source_blending(wgpu::Features::empty()));
    assert!(!has_dual_source_blending(
        !wgpu::Features::DUAL_SOURCE_BLENDING
    ));
}

#[test]
fn additional_features_are_asked_for() {
    let info = noop_adapter().get_info();
    let limits = wgpu::Limits::default();
    let config = GpuContextConfig::default()
        .with_additional_features(wgpu::Features::TIMESTAMP_QUERY)
        .with_experimental_features(true);
    let request = config.plan_device(wgpu::Features::DUAL_SOURCE_BLENDING, &limits, &info);
    assert_eq!(
        request.required_features,
        wgpu::Features::TIMESTAMP_QUERY | wgpu::Features::DUAL_SOURCE_BLENDING,
    );
    assert!(request.experimental_features);

    let replaced = config.with_additional_features(wgpu::Features::SHADER_F16);
    let request = replaced.plan_device(wgpu::Features::empty(), &limits, &info);
    assert_eq!(request.required_features, wgpu::Features::SHADER_F16);
}

#[test]
fn all_adapter_features_are_asked_for() {
    let info = noop_adapter().get_info();
    let limits = wgpu::Limits::default();
    let supported = wgpu::Features::TIMESTAMP_QUERY | wgpu::Features::SHADER_F16;
    let config = GpuContextConfig::default()
        .with_additional_features(wgpu::Features::DEPTH_CLIP_CONTROL)
        .with_all_adapter_features(true);
    let request = config.plan_device(supported, &limits, &info);
    assert_eq!(
        request.required_features,
        supported | wgpu::Features::DEPTH_CLIP_CONTROL,
    );
    let config = config.with_all_adapter_features(false);
    let request = config.plan_device(supported, &limits, &info);
    assert_eq!(request.required_features, wgpu::Features::DEPTH_CLIP_CONTROL);
}

#[test]
fn filter_has_the_last_say() {
    let info = noop_adapter().get_info();
    let limits = wgpu::Limits::default();
    let expected_info = info.clone();
    let config = GpuContextConfig::default()
        .with_feature_filter(move |info, features| {
            assert_eq!(*info, expected_info);
            assert_eq!(
                features,
                wgpu::Features::DUAL_SOURCE_BLENDING | wgpu::Features::TIMESTAMP_QUERY,
            );
            (features - wgpu::Features::DUAL_SOURCE_BLENDING) | wgpu::Features::SHADER_F16
        })
        .with_additional_features(wgpu::Features::TIMESTAMP_QUERY);
    let request = config.plan_device(wgpu::Features::DUAL_SOURCE_BLENDING, &limits, &info);
    assert_eq!(
        request.required_features,
        wgpu::Features::TIMESTAMP_QUERY | wgpu::Features::SHADER_F16,
    );
    assert!(request.dual_source_blending);

    let config = config.with_feature_filter(|_, _| wgpu::Features::empty());
    let request = config.plan_device(wgpu::Features::all(), &limits, &info);
    assert_eq!(request.required_features, wgpu::Features::empty());
}

#[test]
fn limits_follow_the_adapter_in_resolution_and_alignment() {
    let adapter = wgpu::Limits {
        max_texture_dimension_1d: 11,
        max_texture_dimension_2d: 12,
        max_texture_dimension_3d: 13,
        min_uniform_buffer_offset_alignment: 64,
        min_storage_buffer_offset_alignment: 32,
        max_bind_groups: 77,
        max_buffer_size: 99,
        ..wgpu::Limits::default()
    };
    assert_eq!(limits_to_request(&adapter, true), adapter);
    assert_eq!(
        limits_to_request(&adapter, false),
        wgpu::Limits {
            max_texture_dimension_1d: 11,
            max_texture_dimension_2d: 12,
            max_texture_dimension_3d: 13,
            min_uniform_buffer_offset_alignment: 64,
            min_storage_buffer_offset_alignment: 32,
            ..wgpu::Limits::downlevel_defaults()
        },
    );
}

#[test]
fn conservative_limits() {
    let limits = limits_to_request(&wgpu::Limits::default(), false);
    assert_eq!(limits.max_texture_dimension_1d, 8192);
    assert_eq!(limits.max_texture_array_layers, 256);
    assert_eq!(limits.max_bind_groups, 4);
    assert_eq!(limits.max_bindings_per_bind_group, 1000);
    assert_eq!(limits.max_dynamic_uniform_buffers_per_pipeline_layout, 8);
    assert_eq!(limits.max_dynamic_storage_buffers_per_pipeline_layout, 4);
    assert_eq!(limits.max_sampled_textures_per_shader_stage, 16);
    assert_eq!(limits.max_samplers_per_shader_stage, 16);
    assert_eq!(limits.max_storage_buffers_per_shader_stage, 4);
    assert_eq!(limits.max_storage_textures_per_shader_stage, 4);
    assert_eq!(limits.max_uniform_buffers_per_shader_stage, 12);
    assert_eq!(limits.max_uniform_buffer_binding_size, 16384);
    assert_eq!(limits.max_storage_buffer_binding_size, 134217728);
    assert_eq!(limits.max_vertex_buffers, 8);
    assert_eq!(limits.max_buffer_size, 268435456);
    assert_eq!(limits.max_vertex_attributes, 16);
    assert_eq!(limits.max_vertex_buffer_array_stride, 2048);
    assert_eq!(limits.max_inter_stage_shader_variables, 15);
    assert_eq!(limits.max_color_attachments, 4);
    assert_eq!(limits.max_color_attachment_bytes_per_sample, 32);
    assert_eq!(limits.max_compute_workgroup_storage_size, 16352);
    assert_eq!(limits.max_compute_invocations_per_workgroup, 256);
    assert_eq!(limits.max_compute_workgroup_size_z, 64);
    assert_eq!(limits.max_compute_workgroups_per_dimension, 65535);
    assert_eq!(limits.max_non_sampler_bindings, 1000000);
    assert_eq!(limits.max_multiview_view_count, 0);
    assert_eq!(limits.min_uniform_buffer_offset_alignment, 256);
}

#[test]
fn request_for_an_adapter() {
    let adapter = noop_adapter();
    let config = GpuContextConfig::default().with_all_adapter_features(true);
    let request = config.device_request(&adapter);
    assert_eq!(request.required_features, adapter.features());
    assert_eq!(
        request.dual_source_blending,
        adapter
            .features()
            .contains(wgpu::Features::DUAL_SOURCE_BLENDING),
    );
    assert_eq!(
        request.required_limits,
        wgpu::Limits::downlevel_defaults()
            .using_resolution(adapter.limits())
            .using_alignment(adapter.limits()),
    );

    let name = adapter.get_info().name;
    let config = config
        .with_adapter_limits(true)
        .with_feature_filter(move |info, features| {
            assert_eq!(info.name, name);
            features
        });
    let request = config.device_request(&adapter);
    assert_eq!(request.required_features, adapter.features());
    assert_eq!(request.required_limits, adapter.limits());
}
