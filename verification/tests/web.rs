use gpu_context::adapter::Backend;
use gpu_context::error::ContextError;
use gpu_context::instance::{InstanceRequest, InstanceSettings};
use gpu_context::web::{
    web_adapter, web_adapter_request, web_device_request, PowerPreference,
};

fn noop_adapter() -> wgpu::Adapter {
    let instance = wgpu::Instance::new(wgpu::InstanceDescriptor {
        backends: wgpu::Backends::NOOP,
        backend_options: wgpu::BackendOptions {
            noop: wgpu::NoopBackendOptions { enable: true },
            ..Default::default()
        },
        ..wgpu::InstanceDescriptor::new_without_display_handle()
    });
    pollster::block_on(instance.request_adapter(&wgpu::RequestAdapterOptions::default())).unwrap()
}

#[test]
fn instance_in_a_browser() {
    let request = InstanceRequest::browser();
    assert_eq!(request.backends, vec![Backend::BrowserWebGpu, Backend::Gl]);
    assert!(!request.has_display);
    assert_eq!(request.settings, InstanceSettings::Defaults);
}

#[test]
fn adapter_in_a_browser() {
    let request = web_adapter_request();
    assert_eq!(request.power_preference, PowerPreference::HighPerformance);
    assert!(!request.has_compatible_surface);
    assert!(!request.force_fallback_adapter);
}

#[test]
fn outcome_of_an_adapter_request() {
    let adapter = noop_adapter();
    match web_adapter(Ok(adapter.clone())) {
        Ok(given) => assert_eq!(given, adapter),
        Err(error) => panic!("{error:?}"),
    }
    match web_adapter(Err(String::from("blocked"))) {
        Err(ContextError::AdapterRequest(reason)) => assert_eq!(reason, "blocked"),
        _ => panic!("reason was not passed on"),
    }
}

#[test]
fn device_in_a_browser() {
    let adapter = noop_adapter();
    let request = web_device_request(&adapter);
    assert_eq!(
        request.required_features,
        adapter.features() & wgpu::Features::DUAL_SOURCE_BLENDING,
    );
    assert_eq!(
        request.required_limits,
        wgpu::Limits::downlevel_defaults()
            .using_resolution(adapter.limits())
            .using_alignment(adapter.limits()),
    );
    assert!(!request.experimental_features);
}
