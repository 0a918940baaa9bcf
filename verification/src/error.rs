//! The failures pipeline-layout construction can end in, and the driver
//! error codes they arise from.

use vstd::prelude::*;

verus! {

/// Memory exhaustion reported by the driver.
#[derive(Clone, Copy, Debug, PartialEq, Eq, Structural)]
pub enum OomError {
    /// The host ran out of memory.
    OutOfHostMemory,
    /// The device ran out of memory.
    OutOfDeviceMemory,
}

/// A driver error code, as the native creation call reports it. Codes other
/// than the two memory-exhaustion ones are unexpected here: construction
/// validates everything the driver would otherwise reject, so callers treat
/// them as fatal rather than handing them to `from_driver_error`.
#[derive(Clone, Copy, Debug, PartialEq, Eq, Structural)]
pub enum DriverError {
    OutOfHostMemory,
    OutOfDeviceMemory,
    DeviceLost,
    TooManyObjects,
    ValidationFailed,
}

impl DriverError {
    /// True for the codes that report memory exhaustion.
    pub open spec fn spec_is_oom(self) -> bool {
        self is OutOfHostMemory || self is OutOfDeviceMemory
    }

    /// The memory-exhaustion kind of an out-of-memory code.
    pub open spec fn spec_oom_kind(self) -> OomError {
        if self is OutOfHostMemory {
            OomError::OutOfHostMemory
        } else {
            OomError::OutOfDeviceMemory
        }
    }

    /// True for the codes that report memory exhaustion.
    pub fn is_oom(&self) -> (r: bool)
        ensures
            r == self.spec_is_oom(),
    {
        match self {
            DriverError::OutOfHostMemory => true,
            DriverError::OutOfDeviceMemory => true,
            _ => false,
        }
    }
}

/// Why constructing a pipeline layout failed.
#[derive(Clone, Debug, PartialEq, Eq, Structural)]
pub enum PipelineLayoutCreationError {
    /// Not enough memory.
    OomError(OomError),
    /// The maximum number of descriptor sets has been exceeded.
    MaxDescriptorSetsLimitExceeded,
    /// The maximum size of push constants has been exceeded.
    MaxPushConstantsSizeExceeded,
    /// One of the push constants range didn't obey the rules. The list of
    /// stages must not be empty, the size must not be 0, and the size must
    /// be a multiple of 4.
    InvalidPushConstant,
}

impl PipelineLayoutCreationError {
    /// A short account of the failure.
    pub fn description(&self) -> (r: &'static str)
        ensures
            self is OomError ==> r@ == "not enough memory available"@,
            self is MaxDescriptorSetsLimitExceeded
                ==> r@ == "the maximum number of descriptor sets has been exceeded"@,
            self is MaxPushConstantsSizeExceeded
                ==> r@ == "the maximum size of push constants has been exceeded"@,
            self is InvalidPushConstant
                ==> r@ == "one of the push constants range didn't obey the rules"@,
    {
        match self {
            PipelineLayoutCreationError::OomError(_) => "not enough memory available",
            PipelineLayoutCreationError::MaxDescriptorSetsLimitExceeded => {
                "the maximum number of descriptor sets has been exceeded"
            },
            PipelineLayoutCreationError::MaxPushConstantsSizeExceeded => {
                "the maximum size of push constants has been exceeded"
            },
            PipelineLayoutCreationError::InvalidPushConstant => {
                "one of the push constants range didn't obey the rules"
            },
        }
    }

    /// The underlying memory-exhaustion report, where there is one.
    pub fn cause(&self) -> (r: Option<OomError>)
        ensures
            match *self {
                PipelineLayoutCreationError::OomError(e) => r == Some(e),
                _ => r is None,
            },
    {
        match self {
            PipelineLayoutCreationError::OomError(e) => Some(*e),
            _ => None,
        }
    }

    /// Maps a driver error code reported by the native creation call.
    /// Only the memory-exhaustion codes are mapped: construction has
    /// already validated everything else the driver checks, so any other
    /// code is a defect and is left out by precondition.
    pub fn from_driver_error(err: DriverError) -> (r: PipelineLayoutCreationError)
        requires
            err.spec_is_oom(),
        ensures
            r == PipelineLayoutCreationError::OomError(err.spec_oom_kind()),
    {
        match err {
            DriverError::OutOfHostMemory => {
                PipelineLayoutCreationError::OomError(OomError::OutOfHostMemory)
            },
            _ => PipelineLayoutCreationError::OomError(OomError::OutOfDeviceMemory),
        }
    }
}

impl From<OomError> for PipelineLayoutCreationError {
    /// Wraps a memory-exhaustion report as a creation error.
    fn from(err: OomError) -> (r: PipelineLayoutCreationError) {
        PipelineLayoutCreationError::OomError(err)
    }
}

impl vstd::std_specs::convert::FromSpecImpl<OomError> for PipelineLayoutCreationError {
    open spec fn obeys_from_spec() -> bool {
        true
    }

    open spec fn from_spec(err: OomError) -> PipelineLayoutCreationError {
        PipelineLayoutCreationError::OomError(err)
    }
}

} // verus!
