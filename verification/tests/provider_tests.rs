use magnetar_provider_wgpu::provider::{WGPU_PROVIDER_DESCRIPTION, WGPU_PROVIDER_NAME, WGPU_PROVIDER_VERSION};
use magnetar_provider_wgpu::{
    wgpu_provider_metadata, AdapterSummary, GpuBackend, ProviderHealth, WgpuProvider,
};

fn summary(backend: GpuBackend) -> AdapterSummary {
    AdapterSummary {
        name: "Test Adapter".to_string(),
        vendor: 0x10de,
        device: 0x2204,
        driver: "test driver".to_string(),
        backend,
    }
}

#[test]
fn metadata_is_well_formed() {
    let provider = WgpuProvider::new(None);
    let metadata = provider.metadata();
    assert_eq!(metadata.name, WGPU_PROVIDER_NAME);
    assert!(!metadata.description.is_empty());
}

#[test]
fn provider_without_device_is_unavailable() {
    let provider = WgpuProvider::new(None);
    assert!(!provider.is_available());
    assert_eq!(provider.health(), ProviderHealth::Unavailable);
    assert!(provider.adapter_info().is_none());
    assert!(provider.device().is_none());
}

#[test]
fn metadata_without_adapter_reports_no_vendor() {
    let provider = WgpuProvider::new(None);
    let metadata = provider.metadata();
    assert_eq!(metadata.name, "wgpu");
    assert_eq!(metadata.version, WGPU_PROVIDER_VERSION);
    assert_eq!(metadata.vendor, "none");
    assert_eq!(metadata.description, WGPU_PROVIDER_DESCRIPTION);
}

#[test]
fn metadata_vendor_is_the_backend_name() {
    let info = summary(GpuBackend::Vulkan);
    let metadata = wgpu_provider_metadata(Some(&info));
    assert_eq!(metadata.name, "wgpu");
    assert_eq!(metadata.vendor, "Vulkan");
    let metadata = wgpu_provider_metadata(Some(&summary(GpuBackend::Metal)));
    assert_eq!(metadata.vendor, "Metal");
    let metadata = wgpu_provider_metadata(None);
    assert_eq!(metadata.vendor, "none");
}

#[test]
fn backend_names() {
    assert_eq!(GpuBackend::Noop.name(), "Noop");
    assert_eq!(GpuBackend::Vulkan.name(), "Vulkan");
    assert_eq!(GpuBackend::Metal.name(), "Metal");
    assert_eq!(GpuBackend::Dx12.name(), "Dx12");
    assert_eq!(GpuBackend::Gl.name(), "Gl");
    assert_eq!(GpuBackend::BrowserWebGpu.name(), "BrowserWebGpu");
}

#[test]
fn metadata_duplicate_keeps_every_field() {
    let metadata = wgpu_provider_metadata(Some(&summary(GpuBackend::Dx12)));
    let copy = metadata.duplicate();
    assert_eq!(copy.name, metadata.name);
    assert_eq!(copy.version, metadata.version);
    assert_eq!(copy.vendor, metadata.vendor);
    assert_eq!(copy.description, metadata.description);
}
