//! Per-binding descriptor specifications, as a layout description supplies
//! them for the sets that have to be built.

use vstd::prelude::*;
use crate::stages::ShaderStages;

verus! {

/// The kind of resource a binding holds.
#[derive(Clone, Copy, Debug, PartialEq, Eq, Structural)]
pub enum DescriptorKind {
    Sampler,
    CombinedImageSampler,
    SampledImage,
    StorageImage,
    UniformBuffer,
    StorageBuffer,
    InputAttachment,
}

/// What one binding of a descriptor set holds: the kind of resource, how
/// many array elements, which shader stages see it, and whether it is
/// read-only.
#[derive(Clone, Copy, Debug, PartialEq, Eq, Structural)]
pub struct DescriptorDesc {
    pub kind: DescriptorKind,
    pub array_count: u32,
    pub stages: ShaderStages,
    pub readonly: bool,
}

} // verus!
