use gpu_context::adapter::{
    rank_adapters, AdapterSummary, Backend, CompositorGpuHint, DeviceType,
};
use gpu_context::error::ContextError;
use gpu_context::selection::{
    surface_test, AdapterSelection, ErrorFilter, PresentMode, Reply, Request, SurfaceCapabilities,
};

fn adapters() -> Vec<AdapterSummary> {
    [
        (10, DeviceType::Cpu),
        (20, DeviceType::IntegratedGpu),
        (30, DeviceType::DiscreteGpu),
    ]
    .into_iter()
    .map(|(device, device_type)| AdapterSummary {
        name: format!("adapter {device}"),
        vendor: 1,
        device,
        device_type,
        backend: Backend::Vulkan,
    })
    .collect()
}

fn capabilities() -> SurfaceCapabilities {
    SurfaceCapabilities {
        formats: vec![
            wgpu::TextureFormat::Bgra8Unorm,
            wgpu::TextureFormat::Rgba8Unorm,
        ],
        alpha_modes: vec![
            wgpu::CompositeAlphaMode::PreMultiplied,
            wgpu::CompositeAlphaMode::Opaque,
        ],
    }
}

fn no_formats() -> SurfaceCapabilities {
    SurfaceCapabilities {
        formats: Vec::new(),
        ..capabilities()
    }
}

fn start() -> AdapterSelection<&'static str> {
    AdapterSelection::start_described(&adapters(), None, None).unwrap_or_else(|_| panic!("no adapters"))
}

#[test]
fn surface_test_uses_the_preferred_choices() {
    let test = surface_test(&capabilities()).unwrap_or_else(|e| panic!("{e:?}"));
    assert_eq!(
        wgpu::TextureUsages::from_bits(test.usage),
        Some(wgpu::TextureUsages::RENDER_ATTACHMENT),
    );
    assert_eq!(test.format, wgpu::TextureFormat::Bgra8Unorm);
    assert_eq!(test.alpha_mode, wgpu::CompositeAlphaMode::PreMultiplied);
    assert_eq!((test.width, test.height), (64, 64));
    assert_eq!(test.present_mode, PresentMode::Fifo);
    assert_eq!(test.desired_maximum_frame_latency, 2);
    assert!(test.view_formats.is_empty());
    assert_eq!(test.errors, ErrorFilter::Validation);
}

#[test]
fn surface_test_needs_a_format_and_an_alpha_mode() {
    assert!(matches!(
        surface_test(&no_formats()),
        Err(ContextError::NoSurfaceFormats)
    ));
    let caps = SurfaceCapabilities {
        alpha_modes: Vec::new(),
        ..capabilities()
    };
    assert!(matches!(
        surface_test(&caps),
        Err(ContextError::NoAlphaModes)
    ));
    let caps = SurfaceCapabilities {
        formats: Vec::new(),
        alpha_modes: Vec::new(),
    };
    assert!(matches!(
        surface_test(&caps),
        Err(ContextError::NoSurfaceFormats)
    ));
}

#[test]
fn there_must_be_an_adapter() {
    match AdapterSelection::<u8>::start(&Vec::new(), None, None) {
        Err(ContextError::NoAdapters) => {}
        _ => panic!("selection without adapters"),
    }
    match AdapterSelection::<u8>::start_described(&Vec::new(), Some(1), None) {
        Err(ContextError::NoAdapters) => {}
        _ => panic!("selection without adapters"),
    }
}

#[test]
fn best_adapter_is_selected_if_it_passes() {
    let selection = start();
    assert_eq!(*selection.order(), vec![2, 1, 0]);
    assert!(matches!(
        selection.request(),
        Request::QueryCapabilities { adapter: 2 }
    ));
    let (selection, failure) = selection.advance(Reply::Capabilities(capabilities()));
    assert!(failure.is_none());
    assert!(matches!(
        selection.request(),
        Request::CreateDevice { adapter: 2 }
    ));
    let (selection, failure) = selection.advance(Reply::Device(Ok("device")));
    assert!(failure.is_none());
    match selection.request() {
        Request::ConfigureSurface {
            adapter,
            test,
            device,
        } => {
            assert_eq!(adapter, 2);
            assert_eq!(test.format, wgpu::TextureFormat::Bgra8Unorm);
            assert_eq!(*device, "device");
        }
        _ => panic!("surface is not configured"),
    }
    let (selection, failure) = selection.advance(Reply::Surface(None));
    assert!(failure.is_none());
    assert!(matches!(selection.request(), Request::Finish));
    match selection.finish() {
        Some(Ok(end)) => assert_eq!(end, (2, "device")),
        _ => panic!("no adapter was selected"),
    }
}

#[test]
fn failing_adapters_are_skipped() {
    let selection = start();
    let (selection, _) = selection.advance(Reply::Capabilities(capabilities()));
    let error = ContextError::DeviceCreation(String::from("limits"));
    let (selection, failure) = selection.advance(Reply::Device(Err(error)));
    match failure {
        Some(ContextError::DeviceCreation(reason)) => assert_eq!(reason, "limits"),
        _ => panic!("failure was not reported"),
    }
    assert!(matches!(
        selection.request(),
        Request::QueryCapabilities { adapter: 1 }
    ));
    let (selection, _) = selection.advance(Reply::Capabilities(capabilities()));
    let (selection, _) = selection.advance(Reply::Device(Ok("first")));
    let (selection, failure) = selection.advance(Reply::Surface(Some(String::from("lost"))));
    match failure {
        Some(ContextError::SurfaceConfiguration(reason)) => assert_eq!(reason, "lost"),
        _ => panic!("failure was not reported"),
    }
    let (selection, _) = selection.advance(Reply::Capabilities(capabilities()));
    let (selection, _) = selection.advance(Reply::Device(Ok("second")));
    let (selection, _) = selection.advance(Reply::Surface(None));
    match selection.finish() {
        Some(Ok(end)) => assert_eq!(end, (0, "second")),
        _ => panic!("no adapter was selected"),
    }
}

#[test]
fn selection_fails_when_every_adapter_does() {
    let mut selection = start();
    for adapter in [2, 1, 0] {
        match selection.request() {
            Request::QueryCapabilities { adapter: at_hand } => assert_eq!(at_hand, adapter),
            _ => panic!("adapter {adapter} is not tried"),
        }
        let (next, failure) = selection.advance(Reply::Capabilities(no_formats()));
        assert!(matches!(failure, Some(ContextError::NoSurfaceFormats)));
        selection = next;
    }
    assert!(matches!(selection.request(), Request::Finish));
    let (selection, failure) = selection.advance(Reply::Capabilities(capabilities()));
    assert!(failure.is_none());
    assert!(matches!(
        selection.finish(),
        Some(Err(ContextError::NoUsableAdapter))
    ));
}

#[test]
fn replies_that_were_not_asked_for_change_nothing() {
    let (selection, failure) = start().advance(Reply::Device(Ok("device")));
    assert!(failure.is_none());
    let (selection, failure) = selection.advance(Reply::Surface(Some(String::from("lost"))));
    assert!(failure.is_none());
    assert!(matches!(
        selection.request(),
        Request::QueryCapabilities { adapter: 2 }
    ));
    assert!(selection.finish().is_none());
}

#[test]
fn wishes_decide_which_adapter_is_tried_first() {
    let hint = CompositorGpuHint {
        vendor_id: 1,
        device_id: 20,
    };
    let first = |device_id, hint| {
        AdapterSelection::<u8>::start_described(&adapters(), device_id, hint)
            .unwrap_or_else(|_| panic!("no adapters"))
            .order()[0]
    };
    assert_eq!(first(None, Some(hint)), 1);
    assert_eq!(first(Some(10), Some(hint)), 0);
}

#[test]
fn selection_between_real_adapters() {
    let instance = wgpu::Instance::new(wgpu::InstanceDescriptor {
        backends: wgpu::Backends::NOOP,
        backend_options: wgpu::BackendOptions {
            noop: wgpu::NoopBackendOptions { enable: true },
            ..Default::default()
        },
        ..wgpu::InstanceDescriptor::new_without_display_handle()
    });
    let adapters = pollster::block_on(instance.enumerate_adapters(wgpu::Backends::all()));
    assert!(!adapters.is_empty());
    let described: Vec<AdapterSummary> = adapters.iter().map(AdapterSummary::of).collect();
    let selection = AdapterSelection::<u8>::start(&adapters, None, None)
        .unwrap_or_else(|_| panic!("no adapters"));
    assert_eq!(*selection.order(), rank_adapters(&described, None, None));
}
