//! Descriptor-set layouts: the per-set schema objects the pipeline layout
//! references. One is either supplied ready-made by the description or built
//! afresh from that set's binding descriptors during resolution.

use vstd::prelude::*;
use std::sync::Arc;
use crate::descriptor::DescriptorDesc;
use crate::device::Device;

verus! {

/// A descriptor-set layout: the schema of the bindings of one descriptor
/// set, fixed at creation, owned by exactly one device and referenced by
/// its native handle.
#[derive(Debug)]
pub struct DescriptorSetLayout {
    /// The device this layout belongs to.
    pub device: Arc<Device>,
    /// The native handle that identifies this layout.
    pub handle: u64,
    /// The binding descriptors the layout was built from, by binding index;
    /// a hole is a binding index the description said nothing about.
    pub descriptors: Vec<Option<DescriptorDesc>>,
}

impl DescriptorSetLayout {
    /// The handle of the device this layout belongs to.
    pub open spec fn spec_device_handle(&self) -> u64 {
        (*self.device).handle
    }

    /// Builds a set-layout object over the given device from the given
    /// binding descriptors, under the given native handle.
    pub fn new(
        device: Arc<Device>,
        handle: u64,
        descriptors: Vec<Option<DescriptorDesc>>,
    ) -> (r: DescriptorSetLayout)
        ensures
            r.device == device,
            r.handle == handle,
            r.descriptors == descriptors,
    {
        DescriptorSetLayout { device, handle, descriptors }
    }

    /// The device this layout belongs to.
    pub fn device(&self) -> (r: &Arc<Device>)
        ensures
            *r == self.device,
    {
        &self.device
    }

    /// The layout's native handle.
    pub fn internal_object(&self) -> (r: u64)
        ensures
            r == self.handle,
    {
        self.handle
    }

    /// How many binding indices the layout covers.
    pub fn num_bindings(&self) -> (r: usize)
        ensures
            r == self.descriptors@.len(),
    {
        self.descriptors.len()
    }

    /// The descriptor at a binding index, if the layout covers that index
    /// and the description said something about it.
    pub fn descriptor(&self, binding: usize) -> (r: Option<DescriptorDesc>)
        ensures
            binding < self.descriptors@.len() ==> r == self.descriptors@[binding as int],
            binding >= self.descriptors@.len() ==> r is None,
    {
        if binding < self.descriptors.len() {
            self.descriptors[binding]
        } else {
            None
        }
    }
}

} // verus!
