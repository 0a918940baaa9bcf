//! Shader-stage masks: which shader stages a descriptor or a push-constant
//! range is visible to.

use vstd::prelude::*;

verus! {

/// A set of shader stages, one flag per stage.
#[derive(Clone, Copy, Debug, PartialEq, Eq, Structural)]
pub struct ShaderStages {
    pub vertex: bool,
    pub tessellation_control: bool,
    pub tessellation_evaluation: bool,
    pub geometry: bool,
    pub fragment: bool,
    pub compute: bool,
}

impl ShaderStages {
    /// The empty mask: no stage selected.
    pub open spec fn spec_none() -> ShaderStages {
        ShaderStages {
            vertex: false,
            tessellation_control: false,
            tessellation_evaluation: false,
            geometry: false,
            fragment: false,
            compute: false,
        }
    }

    /// True when no stage is selected.
    pub open spec fn spec_is_none(self) -> bool {
        self == ShaderStages::spec_none()
    }

    /// True when the two masks select no stage in common.
    pub open spec fn spec_disjoint(self, other: ShaderStages) -> bool {
        &&& !(self.vertex && other.vertex)
        &&& !(self.tessellation_control && other.tessellation_control)
        &&& !(self.tessellation_evaluation && other.tessellation_evaluation)
        &&& !(self.geometry && other.geometry)
        &&& !(self.fragment && other.fragment)
        &&& !(self.compute && other.compute)
    }

    /// The mask as the flag word the native creation request carries.
    pub open spec fn spec_bits(self) -> u32 {
        (if self.vertex { 0x1u32 } else { 0u32 })
        | (if self.tessellation_control { 0x2u32 } else { 0u32 })
        | (if self.tessellation_evaluation { 0x4u32 } else { 0u32 })
        | (if self.geometry { 0x8u32 } else { 0u32 })
        | (if self.fragment { 0x10u32 } else { 0u32 })
        | (if self.compute { 0x20u32 } else { 0u32 })
    }

    /// Builds a mask with no stage selected.
    pub fn none() -> (r: ShaderStages)
        ensures
            r == ShaderStages::spec_none(),
    {
        ShaderStages {
            vertex: false,
            tessellation_control: false,
            tessellation_evaluation: false,
            geometry: false,
            fragment: false,
            compute: false,
        }
    }

    /// Builds a mask with every stage selected.
    pub fn all() -> (r: ShaderStages)
        ensures
            r.vertex && r.tessellation_control && r.tessellation_evaluation
                && r.geometry && r.fragment && r.compute,
    {
        ShaderStages {
            vertex: true,
            tessellation_control: true,
            tessellation_evaluation: true,
            geometry: true,
            fragment: true,
            compute: true,
        }
    }

    /// Builds a mask with every graphics stage selected and compute left out.
    pub fn all_graphics() -> (r: ShaderStages)
        ensures
            r.vertex && r.tessellation_control && r.tessellation_evaluation
                && r.geometry && r.fragment && !r.compute,
    {
        ShaderStages {
            vertex: true,
            tessellation_control: true,
            tessellation_evaluation: true,
            geometry: true,
            fragment: true,
            compute: false,
        }
    }

    /// Builds a mask that selects the vertex stage alone.
    pub fn vertex() -> (r: ShaderStages)
        ensures
            r.vertex && !r.tessellation_control && !r.tessellation_evaluation
                && !r.geometry && !r.fragment && !r.compute,
    {
        ShaderStages {
            vertex: true,
            tessellation_control: false,
            tessellation_evaluation: false,
            geometry: false,
            fragment: false,
            compute: false,
        }
    }

    /// True when a stage is selected by both masks.
    pub fn intersects(&self, other: &ShaderStages) -> (r: bool)
        ensures
            r == !self.spec_disjoint(*other),
    {
        (self.vertex && other.vertex)
            || (self.tessellation_control && other.tessellation_control)
            || (self.tessellation_evaluation && other.tessellation_evaluation)
            || (self.geometry && other.geometry)
            || (self.fragment && other.fragment)
            || (self.compute && other.compute)
    }

    /// The flag word for this mask, as the native creation request carries it.
    pub fn bits(&self) -> (r: u32)
        ensures
            r == self.spec_bits(),
    {
        (if self.vertex { 0x1u32 } else { 0u32 })
        | (if self.tessellation_control { 0x2u32 } else { 0u32 })
        | (if self.tessellation_evaluation { 0x4u32 } else { 0u32 })
        | (if self.geometry { 0x8u32 } else { 0u32 })
        | (if self.fragment { 0x10u32 } else { 0u32 })
        | (if self.compute { 0x20u32 } else { 0u32 })
    }
}

} // verus!
