//! The construction outcome, pinned for whole families of descriptions:
//! what always succeeds, and which failure each kind of bad input is owed,
//! independently of the driver.

use vstd::prelude::*;
use crate::desc::{
    assembled_pc_entries, lemma_pc_error_none_when_clean, lemma_pc_error_persists, pc_fits,
    pc_shape_ok, PipelineLayoutDesc,
};
use crate::device::DeviceLimits;
use crate::error::{DriverError, PipelineLayoutCreationError};
use crate::layout::creation_error;

verus! {

/// A description declaring no descriptor set and no push-constant range is
/// accepted, whatever the device's limits: given a granted handle,
/// construction succeeds, and the creation request carries no entry.
pub proof fn lemma_empty_description_accepted(
    desc: PipelineLayoutDesc,
    limits: DeviceLimits,
    reply: Result<u64, DriverError>,
)
    requires
        desc.sets@.len() == 0,
        desc.push_constants@.len() == 0,
        reply is Ok,
    ensures
        creation_error(desc, limits, reply) is None,
        assembled_pc_entries(desc.push_constants@) == Seq::<(u32, u32, u32)>::empty(),
{
}

/// A description declaring more sets than the device can bind fails with
/// `MaxDescriptorSetsLimitExceeded`, whatever the driver would have
/// replied: the failure comes before any native creation call.
pub proof fn lemma_set_limit_exceeded(
    desc: PipelineLayoutDesc,
    limits: DeviceLimits,
    reply: Result<u64, DriverError>,
)
    requires
        desc.sets@.len() > limits.max_bound_descriptor_sets as int,
    ensures
        creation_error(desc, limits, reply) == Some(
            PipelineLayoutCreationError::MaxDescriptorSetsLimitExceeded,
        ),
{
}

/// A declared range with no stage, a zero size, or a size that is not a
/// multiple of four fails construction with `InvalidPushConstant`,
/// whatever the driver would have replied — provided the set count is
/// within the limit and every declared range before it passes both checks
/// (an earlier bad range reports its own failure first).
pub proof fn lemma_invalid_push_constant(
    desc: PipelineLayoutDesc,
    limits: DeviceLimits,
    reply: Result<u64, DriverError>,
    i: int,
)
    requires
        desc.sets@.len() <= limits.max_bound_descriptor_sets as int,
        0 <= i < desc.push_constants@.len(),
        desc.push_constants@[i] matches Some(r) && !pc_shape_ok(r),
        forall|j: int| 0 <= j < i && #[trigger] desc.push_constants@[j] is Some
            ==> pc_shape_ok(desc.push_constants@[j].unwrap()) && pc_fits(
                desc.push_constants@[j].unwrap(),
                limits.max_push_constants_size,
            ),
    ensures
        creation_error(desc, limits, reply) == Some(
            PipelineLayoutCreationError::InvalidPushConstant,
        ),
{
    lemma_pc_error_none_when_clean(desc.push_constants@, limits.max_push_constants_size, i);
    lemma_pc_error_persists(
        desc.push_constants@,
        limits.max_push_constants_size,
        i + 1,
        desc.push_constants@.len() as int,
    );
}

/// A well-shaped declared range whose end offset lies past the device's
/// push-constant budget fails construction with
/// `MaxPushConstantsSizeExceeded`, whatever the driver would have replied —
/// provided the set count is within the limit and every declared range
/// before it passes both checks.
pub proof fn lemma_push_constant_budget_exceeded(
    desc: PipelineLayoutDesc,
    limits: DeviceLimits,
    reply: Result<u64, DriverError>,
    i: int,
)
    requires
        desc.sets@.len() <= limits.max_bound_descriptor_sets as int,
        0 <= i < desc.push_constants@.len(),
        desc.push_constants@[i] matches Some(r) && pc_shape_ok(r) && !pc_fits(
            r,
            limits.max_push_constants_size,
        ),
        forall|j: int| 0 <= j < i && #[trigger] desc.push_constants@[j] is Some
            ==> pc_shape_ok(desc.push_constants@[j].unwrap()) && pc_fits(
                desc.push_constants@[j].unwrap(),
                limits.max_push_constants_size,
            ),
    ensures
        creation_error(desc, limits, reply) == Some(
            PipelineLayoutCreationError::MaxPushConstantsSizeExceeded,
        ),
{
    lemma_pc_error_none_when_clean(desc.push_constants@, limits.max_push_constants_size, i);
    lemma_pc_error_persists(
        desc.push_constants@,
        limits.max_push_constants_size,
        i + 1,
        desc.push_constants@.len() as int,
    );
}

} // verus!
