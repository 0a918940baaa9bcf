//! Construction of the pipeline layout: resolving per-set layouts,
//! validating and assembling push-constant ranges, packaging the creation
//! request, and the owning object that results.
//!
//! The native creation call itself stands outside this crate. Construction
//! is therefore two steps: `PipelineLayout::begin` validates the
//! description and assembles the creation request, the caller submits that
//! request to the driver, and `PendingPipelineLayout::finish` turns the
//! driver's reply into the owning object or the mapped error.
//! `PipelineLayout::new` composes the two for callers that already hold a
//! reply.

use vstd::prelude::*;
use std::sync::Arc;
use crate::buffers::{handle_items, pc_range_items, HandleBuffer, RangeBuffer};
use crate::desc::{
    assembled_pc_entries, first_pc_error, lemma_pc_error_persists, name_lookup,
    pc_entries_upto, pc_error_upto, pc_stages_pairwise_disjoint, PipelineLayoutDesc,
    PipelineLayoutDescPcRange, SetLayoutSource,
};
use crate::descriptor::DescriptorDesc;
use crate::device::{Device, DeviceLimits};
use crate::error::{DriverError, PipelineLayoutCreationError};
use crate::set_layout::DescriptorSetLayout;
use crate::sharing::arc_clone;
use crate::stages::ShaderStages;

verus! {

/// How many of the first `i` sets have to be built afresh (their source is
/// a binding list, not a ready-made layout).
pub open spec fn fresh_upto(sets: Seq<SetLayoutSource>, i: int) -> int
    decreases i,
{
    if i <= 0 {
        0
    } else {
        fresh_upto(sets, i - 1) + if sets[i - 1] is Bindings {
            1int
        } else {
            0int
        }
    }
}

/// What resolution owes for set index `i`: a provided layout is passed
/// through unchanged; a set built from bindings belongs to the device of
/// the construction, carries those bindings, and is named by the next
/// fresh handle (the base plus the number of fresh sets before it).
pub open spec fn resolved_set_ok(
    device: Arc<Device>,
    sets: Seq<SetLayoutSource>,
    fresh_handle_base: u64,
    i: int,
    l: Arc<DescriptorSetLayout>,
) -> bool {
    match sets[i] {
        SetLayoutSource::Provided(p) => l == p,
        SetLayoutSource::Bindings(ds) => {
            &&& (*l).device == device
            &&& (*l).handle == fresh_handle_base + fresh_upto(sets, i)
            &&& (*l).descriptors@ == ds@
        },
    }
}

/// The native handle of each resolved layout, in set-index order.
pub open spec fn layout_handles(ls: Seq<Arc<DescriptorSetLayout>>) -> Seq<u64> {
    Seq::new(ls.len(), |i: int| (*ls[i]).handle)
}

/// The validation failure construction stops at before any native call, or
/// `None` when the description passes: the set-count limit is enforced
/// first, then the push-constant ranges in declaration order.
pub open spec fn validation_error(desc: PipelineLayoutDesc, limits: DeviceLimits) -> Option<
    PipelineLayoutCreationError,
> {
    if desc.sets@.len() > limits.max_bound_descriptor_sets as int {
        Some(PipelineLayoutCreationError::MaxDescriptorSetsLimitExceeded)
    } else {
        first_pc_error(desc.push_constants@, limits.max_push_constants_size)
    }
}

/// The failure construction ends in, or `None` when it succeeds: every
/// validation failure comes before the native call and is independent of
/// the driver's reply; a driver reply is consulted only when validation
/// passes, and an out-of-memory code is mapped to `OomError`.
pub open spec fn creation_error(
    desc: PipelineLayoutDesc,
    limits: DeviceLimits,
    reply: Result<u64, DriverError>,
) -> Option<PipelineLayoutCreationError> {
    match validation_error(desc, limits) {
        Some(e) => Some(e),
        None => match reply {
            Ok(_) => None,
            Err(d) => Some(PipelineLayoutCreationError::OomError(d.spec_oom_kind())),
        },
    }
}

/// Resolves one set-layout object per declared set, in set-index order: a
/// provided layout is taken as is (it must belong to the device of the
/// construction — passing a cross-device layout is a caller defect, ruled
/// out by precondition, checkable with `check_device_ownership`); a set
/// without one is built afresh from its binding descriptors, named by the
/// next fresh handle. Fails exactly when the description declares more
/// sets than the device can bind.
pub fn resolve_set_layouts(
    device: &Arc<Device>,
    desc: &PipelineLayoutDesc,
    fresh_handle_base: u64,
) -> (r: Result<Vec<Arc<DescriptorSetLayout>>, PipelineLayoutCreationError>)
    requires
        desc.sets_owned_by(**device),
        fresh_handle_base + desc.sets@.len() <= u64::MAX,
    ensures
        match r {
            Ok(v) => {
                &&& desc.sets@.len() <= (**device).limits.max_bound_descriptor_sets as int
                &&& v@.len() == desc.sets@.len()
                &&& forall|i: int|
                    0 <= i < v@.len() ==> resolved_set_ok(
                        *device,
                        desc.sets@,
                        fresh_handle_base,
                        i,
                        #[trigger] v@[i],
                    )
            },
            Err(e) => {
                &&& desc.sets@.len() > (**device).limits.max_bound_descriptor_sets as int
                &&& e == PipelineLayoutCreationError::MaxDescriptorSetsLimitExceeded
            },
        },
{
    let mut layouts: Vec<Arc<DescriptorSetLayout>> = Vec::new();
    let mut fresh_count: u64 = 0;
    let n: usize = desc.num_sets();
    for i in 0..n
        invariant
            n == desc.sets@.len(),
            fresh_handle_base + n <= u64::MAX,
            layouts@.len() == i,
            fresh_count == fresh_upto(desc.sets@, i as int),
            fresh_count <= i,
            forall|j: int|
                0 <= j < i ==> resolved_set_ok(
                    *device,
                    desc.sets@,
                    fresh_handle_base,
                    j,
                    #[trigger] layouts@[j],
                ),
    {
        match &desc.sets[i] {
            SetLayoutSource::Provided(l) => {
                layouts.push(arc_clone(l));
            },
            SetLayoutSource::Bindings(ds) => {
                let mut descriptors: Vec<Option<DescriptorDesc>> = Vec::new();
                let m: usize = ds.len();
                for b in 0..m
                    invariant
                        m == ds@.len(),
                        descriptors@.len() == b,
                        forall|k: int| 0 <= k < b ==> #[trigger] descriptors@[k] == ds@[k],
                {
                    descriptors.push(ds[b]);
                }
                proof {
                    assert(descriptors@ =~= ds@);
                }
                let handle: u64 = fresh_handle_base + fresh_count;
                layouts.push(
                    Arc::new(DescriptorSetLayout { device: arc_clone(device), handle, descriptors }),
                );
                fresh_count = fresh_count + 1;
            },
        }
    }
    if layouts.len() > device.limits().max_bound_descriptor_sets as usize {
        return Err(PipelineLayoutCreationError::MaxDescriptorSetsLimitExceeded);
    }
    Ok(layouts)
}

/// Walks the declared push-constant ranges in order, skipping holes, and
/// collects the creation-request entry of each valid range. Stops at the
/// first invalid range: a range failing the shape rules (no stage, zero
/// size, size not a multiple of four) is `InvalidPushConstant`; a
/// well-shaped range whose end lies past the device's push-constant budget
/// is `MaxPushConstantsSizeExceeded`. Shape is checked before budget, so a
/// malformed range never masquerades as a limit violation.
pub fn assemble_push_constants(
    limits: &DeviceLimits,
    desc: &PipelineLayoutDesc,
) -> (r: Result<RangeBuffer, PipelineLayoutCreationError>)
    ensures
        match r {
            Ok(out) => {
                &&& first_pc_error(desc.push_constants@, limits.max_push_constants_size) is None
                &&& pc_range_items(out) == assembled_pc_entries(desc.push_constants@)
            },
            Err(e) => first_pc_error(desc.push_constants@, limits.max_push_constants_size)
                == Some(e),
        },
{
    let mut out = RangeBuffer::new();
    let n: usize = desc.num_push_constants_ranges();
    for pc_id in 0..n
        invariant
            n == desc.push_constants@.len(),
            pc_error_upto(desc.push_constants@, limits.max_push_constants_size, pc_id as int)
                is None,
            pc_range_items(out) == pc_entries_upto(desc.push_constants@, pc_id as int),
    {
        match desc.push_constants[pc_id] {
            None => {
                proof {
                    assert(pc_range_items(out) =~= pc_entries_upto(
                        desc.push_constants@,
                        pc_id + 1,
                    ));
                }
            },
            Some(range) => {
                if range.stages == ShaderStages::none() || range.size == 0 || range.size % 4 != 0 {
                    proof {
                        lemma_pc_error_persists(
                            desc.push_constants@,
                            limits.max_push_constants_size,
                            pc_id + 1,
                            n as int,
                        );
                    }
                    return Err(PipelineLayoutCreationError::InvalidPushConstant);
                }
                if range.offset as u64 + range.size as u64 > limits.max_push_constants_size as u64 {
                    proof {
                        lemma_pc_error_persists(
                            desc.push_constants@,
                            limits.max_push_constants_size,
                            pc_id + 1,
                            n as int,
                        );
                    }
                    return Err(PipelineLayoutCreationError::MaxPushConstantsSizeExceeded);
                }
                out.push((range.stages.bits(), range.offset, range.size));
                proof {
                    assert(pc_range_items(out) =~= pc_entries_upto(
                        desc.push_constants@,
                        pc_id + 1,
                    ));
                }
            },
        }
    }
    Ok(out)
}

/// The creation request the driver receives: the resolved set-layout
/// handles in set-index order and the validated push-constant range
/// entries in declaration order.
pub struct PipelineLayoutCreateInfo {
    set_layouts: HandleBuffer,
    push_constant_ranges: RangeBuffer,
}

impl PipelineLayoutCreateInfo {
    /// The set-layout handles the request carries, in order.
    pub closed spec fn spec_set_layouts(&self) -> Seq<u64> {
        handle_items(self.set_layouts)
    }

    /// The push-constant range entries the request carries, in order.
    pub closed spec fn spec_push_constant_ranges(&self) -> Seq<(u32, u32, u32)> {
        pc_range_items(self.push_constant_ranges)
    }

    /// How many set-layout handles the request carries.
    pub fn num_set_layouts(&self) -> (r: usize)
        ensures
            r == self.spec_set_layouts().len(),
    {
        self.set_layouts.as_slice().len()
    }

    /// The set-layout handle at an index of the request.
    pub fn set_layout_handle(&self, i: usize) -> (r: Option<u64>)
        ensures
            i < self.spec_set_layouts().len() ==> r == Some(self.spec_set_layouts()[i as int]),
            i >= self.spec_set_layouts().len() ==> r is None,
    {
        let s = self.set_layouts.as_slice();
        if i < s.len() {
            Some(s[i])
        } else {
            None
        }
    }

    /// How many push-constant range entries the request carries.
    pub fn num_push_constant_ranges(&self) -> (r: usize)
        ensures
            r == self.spec_push_constant_ranges().len(),
    {
        self.push_constant_ranges.as_slice().len()
    }

    /// The (stage flag word, offset, size) entry at an index of the
    /// request.
    pub fn push_constant_range(&self, i: usize) -> (r: Option<(u32, u32, u32)>)
        ensures
            i < self.spec_push_constant_ranges().len() ==> r == Some(
                self.spec_push_constant_ranges()[i as int],
            ),
            i >= self.spec_push_constant_ranges().len() ==> r is None,
    {
        let s = self.push_constant_ranges.as_slice();
        if i < s.len() {
            Some(s[i])
        } else {
            None
        }
    }
}

/// Packages the resolved set layouts and the assembled push-constant
/// entries as the creation request.
pub fn build_create_info(
    layouts: &Vec<Arc<DescriptorSetLayout>>,
    ranges: RangeBuffer,
) -> (r: PipelineLayoutCreateInfo)
    ensures
        r.spec_set_layouts() == layout_handles(layouts@),
        r.spec_push_constant_ranges() == pc_range_items(ranges),
{
    let mut handles = HandleBuffer::new();
    let n: usize = layouts.len();
    for i in 0..n
        invariant
            n == layouts@.len(),
            handle_items(handles).len() == i,
            forall|j: int|
                0 <= j < i ==> #[trigger] handle_items(handles)[j] == (*layouts@[j]).handle,
    {
        handles.push(layouts[i].internal_object());
    }
    proof {
        assert(handle_items(handles) =~= layout_handles(layouts@));
    }
    PipelineLayoutCreateInfo { set_layouts: handles, push_constant_ranges: ranges }
}

/// A construction that has passed validation and awaits the driver's
/// reply: it holds the device, the description, the resolved set layouts
/// and the assembled creation request.
pub struct PendingPipelineLayout {
    device: Arc<Device>,
    desc: PipelineLayoutDesc,
    layouts: Vec<Arc<DescriptorSetLayout>>,
    info: PipelineLayoutCreateInfo,
}

impl PendingPipelineLayout {
    /// The device the layout is being built against.
    pub closed spec fn spec_device(&self) -> Arc<Device> {
        self.device
    }

    /// The description being built.
    pub closed spec fn spec_desc(&self) -> PipelineLayoutDesc {
        self.desc
    }

    /// The resolved set layouts, in set-index order.
    pub closed spec fn spec_layouts(&self) -> Seq<Arc<DescriptorSetLayout>> {
        self.layouts@
    }

    /// The assembled creation request.
    pub closed spec fn spec_info(&self) -> PipelineLayoutCreateInfo {
        self.info
    }

    /// The creation request to submit to the native creation call.
    pub fn create_info(&self) -> (r: &PipelineLayoutCreateInfo)
        ensures
            *r == self.spec_info(),
    {
        &self.info
    }

    /// Turns the driver's reply into the owning object: a granted handle
    /// completes construction; an out-of-memory code is mapped to `OomError` and
    /// propagated, and no partial object escapes. Any other code is a
    /// defect (construction has validated everything else the driver
    /// checks) and is ruled out by precondition.
    pub fn finish(self, reply: Result<u64, DriverError>) -> (r: Result<
        PipelineLayout,
        PipelineLayoutCreationError,
    >)
        requires
            reply matches Err(d) ==> d.spec_is_oom(),
        ensures
            match r {
                Ok(l) => {
                    &&& reply is Ok
                    &&& l.spec_device() == self.spec_device()
                    &&& l.spec_handle() == reply.unwrap()
                    &&& l.spec_desc() == self.spec_desc()
                    &&& l.spec_set_layouts() == self.spec_layouts()
                },
                Err(e) => {
                    &&& reply is Err
                    &&& reply matches Err(d) && e == PipelineLayoutCreationError::OomError(
                        d.spec_oom_kind(),
                    )
                },
            },
    {
        let PendingPipelineLayout { device, desc, layouts, info: _ } = self;
        match reply {
            Ok(handle) => Ok(PipelineLayout { device, layout: handle, layouts, desc }),
            Err(d) => Err(PipelineLayoutCreationError::from_driver_error(d)),
        }
    }
}

/// The pipeline layout: sole owner of its native handle, sharing ownership
/// of the device that owns it and of every set layout it references, and
/// carrying the description it was built from for introspection.
#[derive(Debug)]
pub struct PipelineLayout {
    device: Arc<Device>,
    layout: u64,
    layouts: Vec<Arc<DescriptorSetLayout>>,
    desc: PipelineLayoutDesc,
}

/// The arguments of the native destruction call: the owning device's
/// handle and the pipeline-layout handle to release.
#[derive(Clone, Copy, Debug, PartialEq, Eq, Structural)]
pub struct DestroyLayoutRequest {
    pub device: u64,
    pub pipeline_layout: u64,
}

/// An opaque borrow of a pipeline layout's native handle, for collaborators
/// that reference the layout without owning it. It is valid only while the
/// owning `PipelineLayout` lives: ending that object's lifetime (see
/// `destroy`) invalidates every `PipelineLayoutSys` borrowed from it.
#[derive(Clone, Copy)]
pub struct PipelineLayoutSys<'a> {
    handle: &'a u64,
}

impl<'a> PipelineLayoutSys<'a> {
    /// The handle borrowed.
    pub closed spec fn spec_handle(&self) -> u64 {
        *self.handle
    }

    /// The native handle this borrow stands for.
    pub fn internal_object(&self) -> (r: u64)
        ensures
            r == self.spec_handle(),
    {
        *self.handle
    }
}

impl PipelineLayout {
    /// The device this layout was built against.
    pub closed spec fn spec_device(&self) -> Arc<Device> {
        self.device
    }

    /// The layout's native handle.
    pub closed spec fn spec_handle(&self) -> u64 {
        self.layout
    }

    /// The resolved set layouts, in set-index order.
    pub closed spec fn spec_set_layouts(&self) -> Seq<Arc<DescriptorSetLayout>> {
        self.layouts@
    }

    /// The description the layout was built from.
    pub closed spec fn spec_desc(&self) -> PipelineLayoutDesc {
        self.desc
    }

    /// Validates the description against the device's limits and assembles
    /// the creation request, leaving a pending construction that awaits
    /// the driver's reply. All validation happens here, before any native
    /// call, with zero side effects on failure.
    ///
    /// Fresh set layouts are named `fresh_handle_base`, `+1`, ... in set
    /// order. A provided set layout built against another device, and
    /// declared push-constant ranges sharing a stage bit (checked only
    /// when validation would otherwise pass, as the construction would
    /// then use them), are caller defects: both are preconditions,
    /// checkable with `check_device_ownership` and
    /// `push_constant_stages_disjoint`, never silently ignored.
    pub fn begin(device: Arc<Device>, desc: PipelineLayoutDesc, fresh_handle_base: u64) -> (r:
        Result<PendingPipelineLayout, PipelineLayoutCreationError>)
        requires
            desc.sets_owned_by(*device),
            fresh_handle_base + desc.sets@.len() <= u64::MAX,
            validation_error(desc, (*device).limits) is None ==> pc_stages_pairwise_disjoint(
                desc.push_constants@,
            ),
        ensures
            match r {
                Ok(p) => {
                    &&& validation_error(desc, (*device).limits) is None
                    &&& p.spec_device() == device
                    &&& p.spec_desc() == desc
                    &&& p.spec_layouts().len() == desc.sets@.len()
                    &&& forall|i: int|
                        0 <= i < desc.sets@.len() ==> resolved_set_ok(
                            device,
                            desc.sets@,
                            fresh_handle_base,
                            i,
                            #[trigger] p.spec_layouts()[i],
                        )
                    &&& p.spec_info().spec_set_layouts() == layout_handles(p.spec_layouts())
                    &&& p.spec_info().spec_push_constant_ranges() == assembled_pc_entries(
                        desc.push_constants@,
                    )
                },
                Err(e) => validation_error(desc, (*device).limits) == Some(e),
            },
    {
        let layouts = match resolve_set_layouts(&device, &desc, fresh_handle_base) {
            Ok(l) => l,
            Err(e) => {
                return Err(e);
            },
        };
        let limits = device.limits();
        let ranges = match assemble_push_constants(&limits, &desc) {
            Ok(out) => out,
            Err(e) => {
                return Err(e);
            },
        };
        let info = build_create_info(&layouts, ranges);
        Ok(PendingPipelineLayout { device, desc, layouts, info })
    }

    /// Builds a pipeline layout from a description: validates it against
    /// the device's limits, resolves or builds one set layout per declared
    /// set, assembles the push-constant ranges, and completes with the
    /// driver's reply to the creation request. On any failure no partial
    /// object escapes, and the error says exactly what failed: validation
    /// failures come before any native call, in the order the limits and
    /// ranges are checked; a driver out-of-memory report is mapped to `OomError`.
    pub fn new(
        device: Arc<Device>,
        desc: PipelineLayoutDesc,
        fresh_handle_base: u64,
        create_reply: Result<u64, DriverError>,
    ) -> (r: Result<PipelineLayout, PipelineLayoutCreationError>)
        requires
            desc.sets_owned_by(*device),
            fresh_handle_base + desc.sets@.len() <= u64::MAX,
            create_reply matches Err(d) ==> d.spec_is_oom(),
            validation_error(desc, (*device).limits) is None ==> pc_stages_pairwise_disjoint(
                desc.push_constants@,
            ),
        ensures
            match r {
                Ok(l) => {
                    &&& creation_error(desc, (*device).limits, create_reply) is None
                    &&& l.spec_device() == device
                    &&& l.spec_handle() == create_reply.unwrap()
                    &&& l.spec_desc() == desc
                    &&& l.spec_set_layouts().len() == desc.sets@.len()
                    &&& forall|i: int|
                        0 <= i < desc.sets@.len() ==> resolved_set_ok(
                            device,
                            desc.sets@,
                            fresh_handle_base,
                            i,
                            #[trigger] l.spec_set_layouts()[i],
                        )
                },
                Err(e) => creation_error(desc, (*device).limits, create_reply) == Some(e),
            },
    {
        match PipelineLayout::begin(device, desc, fresh_handle_base) {
            Ok(p) => p.finish(create_reply),
            Err(e) => Err(e),
        }
    }

    /// The description of the pipeline layout.
    pub fn desc(&self) -> (r: &PipelineLayoutDesc)
        ensures
            *r == self.spec_desc(),
    {
        &self.desc
    }

    /// An opaque borrow of the native handle, for collaborators that
    /// reference this layout without owning it.
    pub fn sys(&self) -> (r: PipelineLayoutSys<'_>)
        ensures
            r.spec_handle() == self.spec_handle(),
    {
        PipelineLayoutSys { handle: &self.layout }
    }

    /// Shared access to the resolved set layout at a set index.
    pub fn descriptor_set_layout(&self, index: usize) -> (r: Option<&Arc<DescriptorSetLayout>>)
        ensures
            index < self.spec_set_layouts().len() ==> (r matches Some(l) && *l
                == self.spec_set_layouts()[index as int]),
            index >= self.spec_set_layouts().len() ==> r is None,
    {
        if index < self.layouts.len() {
            Some(&self.layouts[index])
        } else {
            None
        }
    }

    /// The device this layout was built against.
    pub fn device(&self) -> (r: &Arc<Device>)
        ensures
            *r == self.spec_device(),
    {
        &self.device
    }

    /// Delegates to the description: how many descriptor sets it declares.
    pub fn num_sets(&self) -> (r: usize)
        ensures
            r == self.spec_desc().sets@.len(),
    {
        self.desc.num_sets()
    }

    /// Delegates to the description: how many binding indices a set to be
    /// built from bindings declares.
    pub fn num_bindings_in_set(&self, set: usize) -> (r: Option<usize>)
        ensures
            match r {
                Some(n) => {
                    &&& set < self.spec_desc().sets@.len()
                    &&& self.spec_desc().sets@[set as int] matches SetLayoutSource::Bindings(ds)
                        && n == ds@.len()
                },
                None => set >= self.spec_desc().sets@.len() || self.spec_desc().sets@[set as int]
                    is Provided,
            },
    {
        self.desc.num_bindings_in_set(set)
    }

    /// Delegates to the description: the descriptor declared at
    /// (set, binding), where there is one.
    pub fn descriptor(&self, set: usize, binding: usize) -> (r: Option<DescriptorDesc>)
        ensures
            match r {
                Some(d) => {
                    &&& set < self.spec_desc().sets@.len()
                    &&& self.spec_desc().sets@[set as int] matches SetLayoutSource::Bindings(ds)
                        && binding < ds@.len() && ds@[binding as int] == Some(d)
                },
                None => set >= self.spec_desc().sets@.len() || match self.spec_desc().sets@[
                    set as int] {
                    SetLayoutSource::Provided(_) => true,
                    SetLayoutSource::Bindings(ds) => binding >= ds@.len() || ds@[binding as int]
                        is None,
                },
            },
    {
        self.desc.descriptor(set, binding)
    }

    /// Delegates to the description: how many push-constant range indices
    /// it declares, holes included.
    pub fn num_push_constants_ranges(&self) -> (r: usize)
        ensures
            r == self.spec_desc().push_constants@.len(),
    {
        self.desc.num_push_constants_ranges()
    }

    /// Delegates to the description: the push-constant range declared at
    /// an index.
    pub fn push_constants_range(&self, num: usize) -> (r: Option<PipelineLayoutDescPcRange>)
        ensures
            num < self.spec_desc().push_constants@.len() ==> r == self.spec_desc().push_constants@[
                num as int],
            num >= self.spec_desc().push_constants@.len() ==> r is None,
    {
        self.desc.push_constants_range(num)
    }

    /// Delegates to the description: the (set, binding) pair a descriptor
    /// name stands for.
    pub fn descriptor_by_name(&self, name: &String) -> (r: Option<(usize, usize)>)
        ensures
            r == name_lookup(self.spec_desc().names@, name@),
    {
        self.desc.descriptor_by_name(name)
    }

    /// Ends the layout's lifetime, yielding the arguments of the native
    /// destruction call the owner must now submit. Consuming the object
    /// makes the release happen at most once, and it invalidates every
    /// outstanding borrow of the native handle; the shared device and
    /// set-layout references are let go only here, so each of those is
    /// freed only when its last holder is gone.
    pub fn destroy(self) -> (r: DestroyLayoutRequest)
        ensures
            r.device == (*self.spec_device()).handle,
            r.pipeline_layout == self.spec_handle(),
    {
        DestroyLayoutRequest {
            device: self.device.internal_object(),
            pipeline_layout: self.layout,
        }
    }
}

} // verus!
