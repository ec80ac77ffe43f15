use gpu_context::adapter::{
    adapter_priority, rank_adapters, AdapterSummary, Backend, CompositorGpuHint, DeviceType,
};

fn adapter(vendor: u32, device: u32, device_type: DeviceType, backend: Backend) -> AdapterSummary {
    AdapterSummary {
        name: format!("{vendor:04x}:{device:04x}"),
        vendor,
        device,
        device_type,
        backend,
    }
}

fn hint(vendor_id: u32, device_id: u32) -> Option<CompositorGpuHint> {
    Some(CompositorGpuHint {
        vendor_id,
        device_id,
    })
}

#[test]
fn priority_of_each_device_type() {
    let rank = |device_type| {
        adapter_priority(&adapter(1, 2, device_type, Backend::Vulkan), None, None)
    };
    assert_eq!(rank(DeviceType::DiscreteGpu), (1, 1, 0, 0));
    assert_eq!(rank(DeviceType::IntegratedGpu), (1, 1, 1, 0));
    assert_eq!(rank(DeviceType::Other), (1, 1, 2, 0));
    assert_eq!(rank(DeviceType::VirtualGpu), (1, 1, 3, 0));
    assert_eq!(rank(DeviceType::Cpu), (1, 1, 4, 0));
}

#[test]
fn priority_of_each_backend() {
    let rank =
        |backend| adapter_priority(&adapter(1, 2, DeviceType::Other, backend), None, None).3;
    assert_eq!(rank(Backend::Vulkan), 0);
    assert_eq!(rank(Backend::Metal), 0);
    assert_eq!(rank(Backend::Dx12), 0);
    assert_eq!(rank(Backend::Gl), 1);
    assert_eq!(rank(Backend::Noop), 1);
    assert_eq!(rank(Backend::BrowserWebGpu), 1);
}

#[test]
fn override_and_compositor_need_the_same_device() {
    let info = adapter(0x10de, 0x2684, DeviceType::DiscreteGpu, Backend::Vulkan);
    assert_eq!(adapter_priority(&info, Some(0x2684), None), (0, 1, 0, 0));
    assert_eq!(adapter_priority(&info, Some(0x2685), None), (1, 1, 0, 0));
    assert_eq!(
        adapter_priority(&info, None, hint(0x10de, 0x2684)),
        (1, 0, 0, 0),
    );
    assert_eq!(
        adapter_priority(&info, None, hint(0x8086, 0x2684)),
        (1, 1, 0, 0),
    );
    assert_eq!(
        adapter_priority(&info, None, hint(0x10de, 0x2685)),
        (1, 1, 0, 0),
    );
    assert_eq!(
        adapter_priority(&info, Some(0x2684), hint(0x10de, 0x2684)),
        (0, 0, 0, 0),
    );
}

#[test]
fn device_zero_matches_nothing() {
    let info = adapter(0, 0, DeviceType::Other, Backend::Gl);
    assert_eq!(
        adapter_priority(&info, Some(0), hint(0, 0)),
        (1, 1, 2, 1),
    );
}

#[test]
fn override_comes_before_compositor_before_type_before_backend() {
    let adapters = vec![
        adapter(1, 0, DeviceType::Cpu, Backend::Gl),
        adapter(1, 10, DeviceType::IntegratedGpu, Backend::Gl),
        adapter(1, 10, DeviceType::IntegratedGpu, Backend::Vulkan),
        adapter(2, 20, DeviceType::DiscreteGpu, Backend::Vulkan),
        adapter(3, 30, DeviceType::VirtualGpu, Backend::Gl),
        adapter(4, 40, DeviceType::Cpu, Backend::Gl),
    ];
    assert_eq!(rank_adapters(&adapters, None, None), vec![3, 2, 1, 4, 0, 5]);
    assert_eq!(
        rank_adapters(&adapters, None, hint(3, 30)),
        vec![4, 3, 2, 1, 0, 5],
    );
    assert_eq!(
        rank_adapters(&adapters, Some(40), hint(3, 30)),
        vec![5, 4, 3, 2, 1, 0],
    );
    assert_eq!(rank_adapters(&adapters, Some(10), None)[0], 2);
}

#[test]
fn equal_ranks_keep_their_order() {
    let adapters: Vec<AdapterSummary> = (1..=20)
        .map(|device| {
            let device_type = if device % 2 == 0 {
                DeviceType::DiscreteGpu
            } else {
                DeviceType::IntegratedGpu
            };
            adapter(1, device, device_type, Backend::Vulkan)
        })
        .collect();
    let mut expected: Vec<usize> = (0..20).collect();
    expected.sort_by_key(|&i| adapter_priority(&adapters[i], None, None));
    assert_eq!(rank_adapters(&adapters, None, None), expected);
    assert_eq!(expected[..3], [1, 3, 5]);
    assert_eq!(expected[10..13], [0, 2, 4]);
}

#[test]
fn no_adapters_have_no_order() {
    assert_eq!(rank_adapters(&Vec::new(), Some(1), hint(1, 1)), Vec::<usize>::new());
}

#[test]
fn summary_of_an_adapter() {
    let instance = wgpu::Instance::new(wgpu::InstanceDescriptor {
        backends: wgpu::Backends::NOOP,
        backend_options: wgpu::BackendOptions {
            noop: wgpu::NoopBackendOptions { enable: true },
            ..Default::default()
        },
        ..wgpu::InstanceDescriptor::new_without_display_handle()
    });
    let adapter =
        pollster::block_on(instance.request_adapter(&wgpu::RequestAdapterOptions::default()))
            .unwrap();
    let summary = AdapterSummary::of(&adapter);
    assert_eq!(summary.name, "noop wgpu backend");
    assert_eq!((summary.vendor, summary.device), (0, 0));
    assert_eq!(summary.device_type, DeviceType::Cpu);
    assert_eq!(summary.backend, Backend::Noop);

    let mut info = adapter.get_info();
    info.name = String::from("gpu");
    info.vendor = 3;
    info.device = 4;
    let device_types = [
        (wgpu::DeviceType::Other, DeviceType::Other),
        (wgpu::DeviceType::IntegratedGpu, DeviceType::IntegratedGpu),
        (wgpu::DeviceType::DiscreteGpu, DeviceType::DiscreteGpu),
        (wgpu::DeviceType::VirtualGpu, DeviceType::VirtualGpu),
        (wgpu::DeviceType::Cpu, DeviceType::Cpu),
    ];
    for (outside, device_type) in device_types {
        info.device_type = outside;
        let summary = AdapterSummary::of_info(&info);
        assert_eq!(summary.device_type, device_type);
        assert_eq!(summary.name, "gpu");
        assert_eq!((summary.vendor, summary.device), (3, 4));
    }
    let backends = [
        (wgpu::Backend::Noop, Backend::Noop),
        (wgpu::Backend::Vulkan, Backend::Vulkan),
        (wgpu::Backend::Metal, Backend::Metal),
        (wgpu::Backend::Dx12, Backend::Dx12),
        (wgpu::Backend::Gl, Backend::Gl),
        (wgpu::Backend::BrowserWebGpu, Backend::BrowserWebGpu),
    ];
    for (outside, backend) in backends {
        info.backend = outside;
        assert_eq!(AdapterSummary::of_info(&info).backend, backend);
    }
}
