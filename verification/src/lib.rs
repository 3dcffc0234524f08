//! A GPU compute provider built on `wgpu`: device discovery state, provider
//! metadata and health, and the host-side logic of the elementwise `add`
//! kernel (operand validation, buffer sizing, workgroup dispatch size and the
//! byte images that travel to and from the device).

use vstd::prelude::*;

pub mod kernels;
pub mod provider;
pub mod words;

pub use kernels::{plan_add, plan_add_in, workgroup_count, AddDispatch, OperandError};
pub use provider::{
    wgpu_provider_metadata, AdapterSummary, GpuBackend, ProviderHealth, ProviderMetadata,
    WgpuProvider,
};
pub use words::{decode_words, encode_words, host_byte_order, ByteOrder};

verus! {

} // verus!
