use vstd::prelude::*;
use std::sync::Arc;
use cudarc::driver::{CudaDevice, CudaSlice, DeviceSlice, DriverError};

verus! {

#[verifier::external_type_specification]
#[verifier::external_body]
#[verifier::reject_recursive_types(T)]
pub struct ExCudaSlice<T>(CudaSlice<T>);

#[verifier::external_type_specification]
#[verifier::external_body]
pub struct ExCudaDevice(CudaDevice);

#[verifier::external_type_specification]
#[verifier::external_body]
pub struct ExDriverError(DriverError);

/// The bytes that a device buffer holds.
pub uninterp spec fn device_bytes(s: CudaSlice<u8>) -> Seq<u8>;

/// Relies on std's `Arc::clone`: another handle to the same device context.
#[verifier::external_body]
pub(crate) fn share_device(dev: &Arc<CudaDevice>) -> (r: Arc<CudaDevice>)
    ensures
        r == *dev,
{
    Arc::clone(dev)
}

/// Relies on `DeviceSlice::len` of cudarc's `CudaSlice`: the element count it was allocated with.
#[verifier::external_body]
pub(crate) fn buffer_len(s: &CudaSlice<u8>) -> (r: usize)
    ensures
        r == device_bytes(*s).len(),
{
    s.len()
}

/// Relies on cudarc's `CudaDevice::alloc_zeros`: a buffer of `len` zero bytes.
#[verifier::external_body]
pub(crate) fn alloc_zeros(dev: &Arc<CudaDevice>, len: usize) -> (r: Result<CudaSlice<u8>, DriverError>)
    ensures
        r matches Ok(s) ==> device_bytes(s) == Seq::new(len as nat, |i: int| 0u8),
{
    dev.alloc_zeros::<u8>(len)
}

/// Relies on cudarc's `CudaDevice::htod_sync_copy`: a new buffer holding a copy of `src`.
#[verifier::external_body]
pub(crate) fn htod_copy(dev: &Arc<CudaDevice>, src: &[u8]) -> (r: Result<CudaSlice<u8>, DriverError>)
    ensures
        r matches Ok(s) ==> device_bytes(s) == src@,
{
    dev.htod_sync_copy(src)
}

/// Relies on cudarc's `CudaDevice::dtoh_sync_copy`: the buffer's bytes, copied to the host.
#[verifier::external_body]
pub(crate) fn dtoh_copy(dev: &Arc<CudaDevice>, src: &CudaSlice<u8>) -> (r: Result<Vec<u8>, DriverError>)
    ensures
        r matches Ok(v) ==> v@ == device_bytes(*src),
{
    dev.dtoh_sync_copy(src)
}

} // verus!
