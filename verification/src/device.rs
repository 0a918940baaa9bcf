//! The device the pipeline layout is built against: its native handle and
//! the limits the construction algorithm validates the description against.

use vstd::prelude::*;

verus! {

/// The device limits the construction algorithm reads.
#[derive(Clone, Copy, Debug, PartialEq, Eq, Structural)]
pub struct DeviceLimits {
    /// How many descriptor sets may be bound at once.
    pub max_bound_descriptor_sets: u32,
    /// How many bytes of push constants a layout may address.
    pub max_push_constants_size: u32,
}

/// A device, as the construction algorithm sees it: an identity (the native
/// handle) and the limits of the physical device behind it. Two devices are
/// the same device exactly when their handles are equal.
#[derive(Clone, Copy, Debug, PartialEq, Eq, Structural)]
pub struct Device {
    /// The native handle that identifies the device.
    pub handle: u64,
    /// The limits of the physical device this device was created from.
    pub limits: DeviceLimits,
}

impl Device {
    /// The device's native handle.
    pub fn internal_object(&self) -> (r: u64)
        ensures
            r == self.handle,
    {
        self.handle
    }

    /// The limits of the physical device behind this device.
    pub fn limits(&self) -> (r: DeviceLimits)
        ensures
            r == self.limits,
    {
        self.limits
    }
}

} // verus!
