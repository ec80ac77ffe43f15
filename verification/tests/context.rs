use gpu_context::adapter::Backend;
use gpu_context::config::GpuContextConfig;
use gpu_context::context::{
    calls_for_recovery, is_lost, is_new_context_needed, note_device_lost, GpuContext, LossReason,
    WgpuContext,
};
use gpu_context::error::ContextError;
use gpu_context::instance::InstanceSettings;
use std::cell::Cell;
use std::sync::atomic::{AtomicBool, Ordering};
use std::sync::{Arc, Mutex};

type Handles = (wgpu::Instance, wgpu::Adapter, wgpu::Device, wgpu::Queue);

fn handles() -> Handles {
    let instance = wgpu::Instance::new(wgpu::InstanceDescriptor {
        backends: wgpu::Backends::NOOP,
        backend_options: wgpu::BackendOptions {
            noop: wgpu::NoopBackendOptions { enable: true },
            ..Default::default()
        },
        ..wgpu::InstanceDescriptor::new_without_display_handle()
    });
    let adapter =
        pollster::block_on(instance.request_adapter(&wgpu::RequestAdapterOptions::default()))
            .unwrap();
    let (device, queue) =
        pollster::block_on(adapter.request_device(&wgpu::DeviceDescriptor::default())).unwrap();
    (instance, adapter, device, queue)
}

fn ignore(_: LossReason, _: String) {}

fn context() -> WgpuContext {
    let (instance, adapter, device, queue) = handles();
    WgpuContext::from_shared_resources(
        instance,
        adapter,
        Arc::new(device),
        Arc::new(queue),
        ignore,
    )
}

fn lose(context: &WgpuContext) {
    let flag = context.device_lost_flag();
    note_device_lost(
        &|| flag.store(true, Ordering::Relaxed),
        wgpu::DeviceLostReason::Unknown,
        String::new(),
        &ignore,
    );
}

type Reports = Arc<Mutex<Vec<(LossReason, String)>>>;

fn reporter() -> (Reports, impl Fn(LossReason, String) + Send + 'static) {
    let reports = Reports::default();
    let sink = reports.clone();
    (reports, move |reason, message| {
        sink.lock().unwrap().push((reason, message))
    })
}

fn destroy(context: &WgpuContext) {
    context.device.destroy();
    context.device.poll(wgpu::PollType::Poll).ok();
}

const FORMAT: wgpu::TextureFormat = wgpu::TextureFormat::Bgra8Unorm;

#[test]
fn shared_resources_are_kept() {
    let (instance, adapter, device, queue) = handles();
    let (device, queue) = (Arc::new(device), Arc::new(queue));
    let context = WgpuContext::from_shared_resources(
        instance.clone(),
        adapter.clone(),
        device.clone(),
        queue.clone(),
        ignore,
    );
    assert_eq!(context.instance, instance);
    assert_eq!(context.adapter, adapter);
    assert!(Arc::ptr_eq(&context.device, &device));
    assert!(Arc::ptr_eq(&context.queue, &queue));
    assert_eq!(
        context.supports_dual_source_blending(),
        adapter
            .features()
            .contains(wgpu::Features::DUAL_SOURCE_BLENDING),
    );
    assert!(!context.device_lost());
}

#[test]
fn selected_device_makes_a_context() {
    for dual_source_blending in [false, true] {
        let (instance, adapter, device, queue) = handles();
        let selected = (adapter.clone(), device.clone(), queue, dual_source_blending);
        let context = WgpuContext::new(instance.clone(), Ok(selected), ignore).unwrap();
        assert_eq!(context.instance, instance);
        assert_eq!(context.adapter, adapter);
        assert_eq!(*context.device, device);
        assert_eq!(
            context.supports_dual_source_blending(),
            dual_source_blending,
        );
        assert!(!context.device_lost());
    }
}

#[test]
fn failed_selection_makes_no_context() {
    let (instance, ..) = handles();
    match WgpuContext::new(instance, Err(ContextError::NoUsableAdapter), ignore) {
        Err(ContextError::NoUsableAdapter) => {}
        _ => panic!("error was not passed on"),
    }
}

#[test]
fn web_context() {
    let (instance, adapter, device, queue) = handles();
    let opened = Ok((device.clone(), queue, true));
    let context = WgpuContext::new_web(instance.clone(), adapter.clone(), opened, ignore).unwrap();
    assert_eq!(context.instance, instance);
    assert_eq!(context.adapter, adapter);
    assert_eq!(*context.device, device);
    assert!(context.supports_dual_source_blending());
    assert!(!context.device_lost());

    let error = ContextError::DeviceCreation(String::from("no"));
    match WgpuContext::new_web(instance, adapter, Err(error), ignore) {
        Err(ContextError::DeviceCreation(reason)) => assert_eq!(reason, "no"),
        _ => panic!("error was not passed on"),
    }
}

#[test]
fn loss_is_noted_unless_the_device_was_destroyed() {
    let raised = Cell::new(0);
    let raise = || raised.set(raised.get() + 1);
    let (reports, report) = reporter();
    let note = |reason, message| note_device_lost(&raise, reason, String::from(message), &report);
    note(wgpu::DeviceLostReason::Destroyed, "first");
    assert_eq!(raised.get(), 0);
    note(wgpu::DeviceLostReason::Unknown, "second");
    assert_eq!(raised.get(), 1);
    note(wgpu::DeviceLostReason::Destroyed, "third");
    assert_eq!(raised.get(), 1);
    assert_eq!(
        *reports.lock().unwrap(),
        vec![
            (LossReason::Destroyed, String::from("first")),
            (LossReason::Unknown, String::from("second")),
            (LossReason::Destroyed, String::from("third")),
        ],
    );
    assert!(calls_for_recovery(LossReason::Unknown));
    assert!(!calls_for_recovery(LossReason::Destroyed));
}

#[test]
fn destroyed_device_is_reported_but_not_lost() {
    let (instance, adapter, device, queue) = handles();
    let (reports, report) = reporter();
    let context = WgpuContext::from_shared_resources(
        instance,
        adapter,
        Arc::new(device),
        Arc::new(queue),
        report,
    );
    assert!(reports.lock().unwrap().is_empty());
    destroy(&context);
    assert!(!context.device_lost());
    let reasons: Vec<LossReason> = reports.lock().unwrap().iter().map(|r| r.0).collect();
    assert_eq!(reasons, vec![LossReason::Destroyed]);
}

#[test]
fn selected_device_is_watched() {
    let (instance, adapter, device, queue) = handles();
    let (reports, report) = reporter();
    let selected = (adapter, device, queue, false);
    let context = WgpuContext::new(instance, Ok(selected), report).unwrap();
    destroy(&context);
    assert_eq!(reports.lock().unwrap().len(), 1);
    assert!(!context.device_lost());
}

#[test]
fn earlier_callback_is_replaced() {
    let (instance, adapter, device, queue) = handles();
    let seen = Arc::new(AtomicBool::new(false));
    let seen_by_callback = seen.clone();
    device.set_device_lost_callback(move |_, _| seen_by_callback.store(true, Ordering::Relaxed));
    let context = WgpuContext::from_shared_resources(
        instance,
        adapter,
        Arc::new(device),
        Arc::new(queue),
        ignore,
    );
    destroy(&context);
    assert!(!seen.load(Ordering::Relaxed));
}

#[test]
fn web_device_is_watched() {
    let (instance, adapter, device, queue) = handles();
    let seen = Arc::new(AtomicBool::new(false));
    let seen_by_callback = seen.clone();
    device.set_device_lost_callback(move |_, _| seen_by_callback.store(true, Ordering::Relaxed));
    let (reports, report) = reporter();
    let opened = Ok((device, queue, false));
    let context = WgpuContext::new_web(instance, adapter, opened, report).unwrap();
    destroy(&context);
    assert!(!seen.load(Ordering::Relaxed));
    let reasons: Vec<LossReason> = reports.lock().unwrap().iter().map(|r| r.0).collect();
    assert_eq!(reasons, vec![LossReason::Destroyed]);
}

#[test]
fn flag_is_shared() {
    let context = context();
    let flag = context.device_lost_flag();
    assert!(!context.device_lost());
    flag.store(true, Ordering::Relaxed);
    assert!(context.device_lost());
}

#[test]
fn surface_without_formats_is_incompatible() {
    let context = context();
    assert!(context
        .check_compatible_with_surface(|_| vec![FORMAT])
        .is_ok());
    match context.check_compatible_with_surface(|_| Vec::new()) {
        Err(ContextError::IncompatibleSurface {
            name,
            backend,
            device,
        }) => {
            assert_eq!(name, "noop wgpu backend");
            assert_eq!(backend, Backend::Noop);
            assert_eq!(device, 0);
        }
        other => panic!("{other:?}"),
    }
}

#[test]
fn context_asks_its_own_adapter() {
    let context = context();
    let result = context.check_compatible_with_surface(|adapter| {
        assert_eq!(*adapter, context.adapter);
        Vec::new()
    });
    assert!(result.is_err());
}

#[test]
fn outcome_of_a_request() {
    let (_, adapter, ..) = handles();
    let config = GpuContextConfig::default();
    for features in [wgpu::Features::all(), wgpu::Features::empty()] {
        let request = config.plan_device(features, &adapter.limits(), &adapter.get_info());
        match WgpuContext::create_device::<u8, u16>(&request, Ok((1, 2))) {
            Ok(made) => assert_eq!(made, (1, 2, !features.is_empty())),
            Err(error) => panic!("{error:?}"),
        }
        match WgpuContext::create_device::<u8, u16>(&request, Err(String::from("no"))) {
            Err(ContextError::DeviceCreation(reason)) => assert_eq!(reason, "no"),
            other => panic!("{other:?}"),
        }
    }
}

#[test]
fn empty_shared_context() {
    let shared = GpuContext::new(GpuContextConfig::default());
    assert!(!shared.device_lost());
    assert!(shared.needs_new_context());
    assert!(!shared.supports_dual_source_blending());
    assert!(shared.instance().is_none());
    assert_eq!(shared.with_context(|_| 1), None);
    let result = shared.check_compatible_with_surface(|_| panic!("there is no adapter"));
    assert!(result.is_ok());
}

#[test]
fn shared_context_with_a_context() {
    let (instance, adapter, device, queue) = handles();
    let selected = (adapter, device.clone(), queue, true);
    let context = WgpuContext::new(instance.clone(), Ok(selected), ignore).unwrap();
    let shared = GpuContext::from_wgpu_context(context);
    assert!(!shared.device_lost());
    assert!(!shared.needs_new_context());
    assert!(shared.supports_dual_source_blending());
    assert_eq!(shared.instance(), Some(instance));
    assert_eq!(
        shared.with_context(|context| *context.device == device),
        Some(true),
    );
    assert!(shared.with_context_ref(|context| *context.device == device));
    assert!(shared
        .check_compatible_with_surface(|_| Vec::new())
        .is_err());

    shared.with_context_ref(lose);
    assert!(shared.device_lost());
    assert!(shared.needs_new_context());
}

#[test]
fn context_is_created_once() {
    let mut shared = GpuContext::new(GpuContextConfig::default());
    assert_eq!(shared.ensure_initialized(|_| Err("no GPU")), Err("no GPU"));
    assert!(shared.needs_new_context());
    assert_eq!(shared.ensure_initialized(|_| Ok::<_, &str>(context())), Ok(()));
    assert!(!shared.needs_new_context());
    let result = shared.ensure_initialized::<&str>(|_| panic!("context exists"));
    assert_eq!(result, Ok(()));
}

#[test]
fn creation_uses_the_configuration() {
    let config = GpuContextConfig::default().with_experimental_features(true);
    let mut shared = GpuContext::new(config);
    let mut experimental = false;
    let _ = shared.ensure_initialized(|config| {
        let (_, adapter, ..) = handles();
        experimental = config.device_request(&adapter).experimental_features;
        Err(())
    });
    assert!(experimental);
}

#[test]
fn lost_context_is_replaced() {
    let mut shared = GpuContext::from_wgpu_context(context());
    shared.with_context_ref(lose);
    assert_eq!(shared.replace_context(|_| Err("no GPU")), Err("no GPU"));
    assert!(shared.device_lost());
    assert_eq!(shared.replace_context(|_| Ok::<_, &str>(context())), Ok(()));
    assert!(!shared.device_lost());
    assert!(!shared.needs_new_context());
}

#[test]
fn cleared_context_is_gone() {
    let mut shared = GpuContext::from_wgpu_context(context());
    shared.with_context_ref(lose);
    for _ in 0..2 {
        shared.clear_context();
        assert!(shared.instance().is_none());
        assert!(shared.needs_new_context());
        assert!(!shared.device_lost());
        assert!(!shared.supports_dual_source_blending());
    }
}

#[test]
fn new_context_is_needed_when_there_is_none_or_it_is_lost() {
    assert!(!is_lost(false, false));
    assert!(!is_lost(false, true));
    assert!(!is_lost(true, false));
    assert!(is_lost(true, true));
    assert!(is_new_context_needed(false, false));
    assert!(is_new_context_needed(false, true));
    assert!(!is_new_context_needed(true, false));
    assert!(is_new_context_needed(true, true));
}

#[test]
fn instance_on_a_desktop() {
    let request = WgpuContext::instance(|request| request);
    assert_eq!(request.backends, vec![Backend::Vulkan, Backend::Gl]);
    assert!(request.has_display);
    assert_eq!(request.settings, InstanceSettings::Defaults);
}
