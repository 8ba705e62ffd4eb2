use vstd::prelude::*;
use candle_core::Device;

verus! {

/// `candle_core::CudaDevice`, carried through unopened.
#[verifier::external_type_specification]
#[verifier::external_body]
pub struct ExCudaDevice(candle_core::CudaDevice);

/// `candle_core::MetalDevice`, carried through unopened.
#[verifier::external_type_specification]
#[verifier::external_body]
pub struct ExMetalDevice(candle_core::MetalDevice);

/// `candle_core::Device` with its three variants: the host CPU, a CUDA device, a Metal
/// device.
#[verifier::external_type_specification]
pub struct ExDevice(Device);

/// `candle_core::Device::cuda_if_available`: the CUDA device with the given ordinal where
/// the build has CUDA support, the CPU where it has none. Opening a CUDA device can fail, and
/// which of the three comes back depends on the build and the machine, so nothing is claimed
/// of the result.
#[verifier::external_body]
fn cuda_if_available(ordinal: usize) -> (r: Result<Device, candle_core::Error>) {
    Device::cuda_if_available(ordinal)
}

/// The default device: the CPU when `force_cpu` is set, otherwise the first accelerator if
/// there is one and the CPU if not.
///
/// Forcing the CPU always succeeds.
pub fn best_device(force_cpu: bool) -> (r: Result<Device, candle_core::Error>)
    ensures
        force_cpu ==> r == Ok::<Device, candle_core::Error>(Device::Cpu),
{
    if force_cpu {
        Ok(Device::Cpu)
    } else {
        cuda_if_available(0)
    }
}

/// Whether `device` may be what device resolution yields for the given settings.
pub open spec fn device_resolved(
    explicit: Option<Device>,
    force_cpu: bool,
    device: Device,
) -> bool {
    match explicit {
        Some(d) => device == d,
        None => force_cpu ==> device is Cpu,
    }
}

/// The anchor device of a build: the explicit device if one was set, otherwise the default
/// device for `force_cpu`.
///
/// The default device is only looked for when no explicit device was set, so a build with
/// an explicit device, or with the CPU forced, always has a device.
pub fn resolve_device(explicit: Option<Device>, force_cpu: bool) -> (r: Result<
    Device,
    candle_core::Error,
>)
    ensures
        explicit is Some || force_cpu ==> r is Ok,
        r matches Ok(device) ==> device_resolved(explicit, force_cpu, device),
{
    match explicit {
        Some(device) => Ok(device),
        None => best_device(force_cpu),
    }
}

} // verus!
