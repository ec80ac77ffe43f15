use gpu_context::adapter::{AdapterSummary, Backend, DeviceType};
use gpu_context::error::ContextError;

#[test]
fn messages() {
    assert_eq!(ContextError::NoAdapters.message(), "No GPU adapters found");
    assert_eq!(
        ContextError::NoUsableAdapter.message(),
        "No GPU adapter found that can configure the display surface",
    );
    assert_eq!(
        ContextError::NoSurfaceFormats.message(),
        "no compatible surface formats",
    );
    assert_eq!(
        ContextError::NoAlphaModes.message(),
        "no compatible alpha modes",
    );
    assert_eq!(
        ContextError::AdapterRequest(String::from("blocked")).message(),
        "Failed to request GPU adapter: blocked",
    );
    assert_eq!(
        ContextError::DeviceCreation(String::from("limits exceeded")).message(),
        "Failed to create wgpu device: limits exceeded",
    );
    assert_eq!(
        ContextError::SurfaceConfiguration(String::from("lost")).message(),
        "surface configuration failed: lost",
    );
}

#[test]
fn message_about_an_incompatible_adapter() {
    let adapter = AdapterSummary {
        name: String::from("Iris \"Xe\"\n"),
        vendor: 0x8086,
        device: 0x9a4,
        device_type: DeviceType::IntegratedGpu,
        backend: Backend::Vulkan,
    };
    assert_eq!(
        ContextError::incompatible(&adapter).message(),
        "Adapter \"Iris \\\"Xe\\\"\\n\" (backend=Vulkan, device=0x09a4) is not compatible with \
         the display surface for this window.",
    );
}

#[test]
fn names_of_backends() {
    let backends = [
        (Backend::Noop, wgpu::Backend::Noop),
        (Backend::Vulkan, wgpu::Backend::Vulkan),
        (Backend::Metal, wgpu::Backend::Metal),
        (Backend::Dx12, wgpu::Backend::Dx12),
        (Backend::Gl, wgpu::Backend::Gl),
        (Backend::BrowserWebGpu, wgpu::Backend::BrowserWebGpu),
    ];
    for (backend, outside) in backends {
        assert_eq!(backend.name(), format!("{outside:?}"));
    }
}
