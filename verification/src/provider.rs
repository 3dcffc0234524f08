//! `WgpuProvider`: the provider's record of what device discovery found, its
//! metadata and its health.
//!
//! Discovery itself talks to the machine's graphics drivers and is done by
//! the caller; the provider is built from what it found. A provider built
//! without a device always constructs and reports itself unavailable.

use vstd::prelude::*;

verus! {

/// `wgpu::Device`: an open connection to a GPU. The provider only holds it
/// and hands it on; nothing inside it is read here.
#[verifier::external_type_specification]
#[verifier::external_body]
pub struct ExDevice(wgpu::Device);

/// `wgpu::Queue`: the command queue of a `wgpu::Device`. The provider only
/// holds it and hands it on; nothing inside it is read here.
#[verifier::external_type_specification]
#[verifier::external_body]
pub struct ExQueue(wgpu::Queue);

/// The provider's name.
pub const WGPU_PROVIDER_NAME: &'static str = "wgpu";

/// The provider's version.
pub const WGPU_PROVIDER_VERSION: &'static str = "0.1.0";

/// The vendor reported when no adapter was found.
pub const NO_VENDOR: &'static str = "none";

/// What the provider says of itself.
pub const WGPU_PROVIDER_DESCRIPTION: &'static str = "Real, cross-platform GPU compute Provider built on wgpu (Vulkan/Metal/DX12) -- one real Kernel (add) implemented so far, see this crate's own README";

/// Whether a provider can take work.
#[derive(Clone, Copy, Debug, PartialEq, Eq, Structural)]
pub enum ProviderHealth {
    Available,
    Unavailable,
}

/// The graphics API that an adapter is driven through.
#[derive(Clone, Copy, Debug, PartialEq, Eq, Structural)]
pub enum GpuBackend {
    Noop,
    Vulkan,
    Metal,
    Dx12,
    Gl,
    BrowserWebGpu,
}

impl GpuBackend {
    /// The backend's name.
    pub open spec fn name_spec(self) -> Seq<char> {
        match self {
            GpuBackend::Noop => "Noop"@,
            GpuBackend::Vulkan => "Vulkan"@,
            GpuBackend::Metal => "Metal"@,
            GpuBackend::Dx12 => "Dx12"@,
            GpuBackend::Gl => "Gl"@,
            GpuBackend::BrowserWebGpu => "BrowserWebGpu"@,
        }
    }

    /// The backend's name.
    pub fn name(&self) -> (r: String)
        ensures
            r@ == self.name_spec(),
    {
        match self {
            GpuBackend::Noop => String::from_str("Noop"),
            GpuBackend::Vulkan => String::from_str("Vulkan"),
            GpuBackend::Metal => String::from_str("Metal"),
            GpuBackend::Dx12 => String::from_str("Dx12"),
            GpuBackend::Gl => String::from_str("Gl"),
            GpuBackend::BrowserWebGpu => String::from_str("BrowserWebGpu"),
        }
    }
}

/// What is known of the adapter that discovery found.
pub struct AdapterSummary {
    /// The adapter's name.
    pub name: String,
    /// The PCI id of the adapter's vendor, where known.
    pub vendor: u32,
    /// The PCI id of the adapter, where known.
    pub device: u32,
    /// The name of the driver.
    pub driver: String,
    /// The graphics API the adapter is driven through.
    pub backend: GpuBackend,
}

/// A provider's description of itself.
pub struct ProviderMetadata {
    pub name: String,
    pub version: String,
    pub vendor: String,
    pub description: String,
}

impl ProviderMetadata {
    /// Metadata with the given fields.
    pub fn new(name: &str, version: &str, vendor: String, description: &str) -> (r: ProviderMetadata)
        ensures
            r.name@ == name@,
            r.version@ == version@,
            r.vendor@ == vendor@,
            r.description@ == description@,
    {
        ProviderMetadata {
            name: String::from_str(name),
            version: String::from_str(version),
            vendor,
            description: String::from_str(description),
        }
    }

    /// The same metadata again.
    pub fn duplicate(&self) -> (r: ProviderMetadata)
        ensures
            r.name@ == self.name@,
            r.version@ == self.version@,
            r.vendor@ == self.vendor@,
            r.description@ == self.description@,
    {
        ProviderMetadata {
            name: self.name.clone(),
            version: self.version.clone(),
            vendor: self.vendor.clone(),
            description: self.description.clone(),
        }
    }
}

/// With an adapter, the reported vendor is the name of the adapter's
/// backend, and that name is never the `"none"` reported without one; no two
/// backends share a name.
pub proof fn lemma_vendor_names_the_backend(b: GpuBackend, c: GpuBackend)
    ensures
        vendor_of(Some(b)) == b.name_spec(),
        vendor_of(None) == "none"@,
        vendor_of(Some(b)) != vendor_of(None),
        b != c ==> b.name_spec() != c.name_spec(),
{
    reveal_strlit("none");
    reveal_strlit("Noop");
    reveal_strlit("Vulkan");
    reveal_strlit("Metal");
    reveal_strlit("Dx12");
    reveal_strlit("Gl");
    reveal_strlit("BrowserWebGpu");
    if b != c {
        let x = b.name_spec();
        let y = c.name_spec();
        if x.len() == y.len() {
            assert(x[0] != y[0] || x[1] != y[1]);
        }
    }
    let x = b.name_spec();
    if x.len() == 4 {
        assert(x[0] != 'n');
    }
}

/// The vendor that the metadata reports for the adapter `adapter`, if any.
pub open spec fn vendor_of(adapter: Option<GpuBackend>) -> Seq<char> {
    match adapter {
        Some(backend) => backend.name_spec(),
        None => NO_VENDOR@,
    }
}

/// `m` is the provider's metadata for an adapter driven through `backend`, or
/// for no adapter.
pub open spec fn is_wgpu_metadata(m: ProviderMetadata, backend: Option<GpuBackend>) -> bool {
    &&& m.name@ == WGPU_PROVIDER_NAME@
    &&& m.version@ == WGPU_PROVIDER_VERSION@
    &&& m.vendor@ == vendor_of(backend)
    &&& m.description@ == WGPU_PROVIDER_DESCRIPTION@
}

/// Whatever the adapter, the provider's metadata names it `"wgpu"` and
/// describes it with a non-empty text.
pub proof fn lemma_metadata_well_formed(m: ProviderMetadata, backend: Option<GpuBackend>)
    requires
        is_wgpu_metadata(m, backend),
    ensures
        m.name@ == "wgpu"@,
        m.description@.len() > 0,
{
    reveal_strlit("Real, cross-platform GPU compute Provider built on wgpu (Vulkan/Metal/DX12) -- one real Kernel (add) implemented so far, see this crate's own README");
}

/// The backend of `adapter`, if there is one.
pub open spec fn backend_of(adapter: Option<&AdapterSummary>) -> Option<GpuBackend> {
    match adapter {
        Some(info) => Some(info.backend),
        None => None,
    }
}

/// The provider's metadata, for the adapter that discovery found, if any: its
/// vendor is the name of the adapter's backend, or `"none"`.
pub fn wgpu_provider_metadata(adapter_info: Option<&AdapterSummary>) -> (r: ProviderMetadata)
    ensures
        is_wgpu_metadata(r, backend_of(adapter_info)),
        adapter_info matches Some(info) ==> r.vendor@ == info.backend.name_spec(),
        adapter_info is None ==> r.vendor@ == "none"@,
{
    let vendor = match adapter_info {
        Some(info) => info.backend.name(),
        None => String::from_str(NO_VENDOR),
    };
    ProviderMetadata::new(WGPU_PROVIDER_NAME, WGPU_PROVIDER_VERSION, vendor, WGPU_PROVIDER_DESCRIPTION)
}

/// The WGPU provider.
pub struct WgpuProvider {
    metadata: ProviderMetadata,
    adapter_info: Option<AdapterSummary>,
    /// `Some((device, queue))` only when an adapter and a device were found.
    device: Option<(wgpu::Device, wgpu::Queue)>,
}

impl WgpuProvider {
    /// A provider holds a device exactly when it knows its adapter, and its
    /// metadata is the metadata for that adapter.
    #[verifier::type_invariant]
    spec fn consistent(self) -> bool {
        &&& self.adapter_info.is_some() == self.device.is_some()
        &&& is_wgpu_metadata(self.metadata, self.backend())
    }

    /// Whether the provider holds a device.
    pub closed spec fn has_device(self) -> bool {
        self.device.is_some()
    }

    /// The adapter the provider found, if any.
    pub closed spec fn adapter(self) -> Option<AdapterSummary> {
        self.adapter_info
    }

    /// The device and queue the provider holds, if any.
    pub closed spec fn held(self) -> Option<(wgpu::Device, wgpu::Queue)> {
        self.device
    }

    /// The backend of the adapter the provider found, if any.
    pub open spec fn backend(self) -> Option<GpuBackend> {
        match self.adapter() {
            Some(info) => Some(info.backend),
            None => None,
        }
    }

    /// The provider for what device discovery found: the adapter, the device
    /// and its queue, or nothing. Construction always succeeds; without a
    /// device the provider is unavailable.
    pub fn new(discovered: Option<(AdapterSummary, wgpu::Device, wgpu::Queue)>) -> (r: WgpuProvider)
        ensures
            r.has_device() == discovered.is_some(),
            r.held() == match discovered {
                Some(d) => Some((d.1, d.2)),
                None => None::<(wgpu::Device, wgpu::Queue)>,
            },
            r.adapter() == match discovered {
                Some(d) => Some(d.0),
                None => None::<AdapterSummary>,
            },
    {
        match discovered {
            Some((info, device, queue)) => {
                let metadata = wgpu_provider_metadata(Some(&info));
                WgpuProvider { metadata, adapter_info: Some(info), device: Some((device, queue)) }
            },
            None => {
                let metadata = wgpu_provider_metadata(None);
                WgpuProvider { metadata, adapter_info: None, device: None }
            },
        }
    }

    /// Whether this provider found a usable adapter and device.
    pub fn is_available(&self) -> (r: bool)
        ensures
            r == self.has_device(),
    {
        self.device.is_some()
    }

    /// What is known of the adapter that was found, if one was; there is one
    /// exactly when the provider is available.
    pub fn adapter_info(&self) -> (r: Option<&AdapterSummary>)
        ensures
            r == match self.adapter() {
                Some(info) => Some(&info),
                None => None::<&AdapterSummary>,
            },
            r.is_some() == self.has_device(),
    {
        proof {
            use_type_invariant(self);
        }
        self.adapter_info.as_ref()
    }

    /// The device and its queue, when the provider holds them.
    pub fn device(&self) -> (r: Option<&(wgpu::Device, wgpu::Queue)>)
        ensures
            r == match self.held() {
                Some(pair) => Some(&pair),
                None => None::<&(wgpu::Device, wgpu::Queue)>,
            },
            r.is_some() == self.has_device(),
    {
        self.device.as_ref()
    }

    /// The provider's metadata: its name `"wgpu"`, its version, its
    /// description, and as vendor the name of the adapter's backend, or
    /// `"none"` when no adapter was found.
    pub fn metadata(&self) -> (r: ProviderMetadata)
        ensures
            is_wgpu_metadata(r, self.backend()),
            self.adapter() matches Some(info) ==> r.vendor@ == info.backend.name_spec(),
            self.adapter() is None ==> r.vendor@ == "none"@,
    {
        proof {
            use_type_invariant(self);
        }
        self.metadata.duplicate()
    }

    /// `Available` exactly when the provider holds a device.
    pub fn health(&self) -> (r: ProviderHealth)
        ensures
            r == (if self.has_device() {
                ProviderHealth::Available
            } else {
                ProviderHealth::Unavailable
            }),
    {
        if self.is_available() {
            ProviderHealth::Available
        } else {
            ProviderHealth::Unavailable
        }
    }
}

} // verus!
