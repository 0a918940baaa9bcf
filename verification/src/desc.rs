//! The abstract layout description a caller supplies: per-set layout
//! sources, push-constant ranges, and an optional name table, together with
//! the specification of how construction validates the push-constant ranges.

use vstd::prelude::*;
use std::sync::Arc;
use crate::descriptor::DescriptorDesc;
use crate::device::Device;
use crate::error::PipelineLayoutCreationError;
use crate::set_layout::DescriptorSetLayout;
use crate::sharing::arc_clone;
use crate::stages::ShaderStages;

verus! {

/// One declared push-constant range: a byte offset, a byte size, and the
/// shader stages that see it.
#[derive(Clone, Copy, Debug, PartialEq, Eq, Structural)]
pub struct PipelineLayoutDescPcRange {
    pub offset: u32,
    pub size: u32,
    pub stages: ShaderStages,
}

/// Where the layout for one descriptor set comes from: either an
/// already-built set-layout object, or the binding descriptors a fresh one
/// is to be built from (a hole is a binding the description says nothing
/// about).
#[derive(Debug)]
pub enum SetLayoutSource {
    Provided(Arc<DescriptorSetLayout>),
    Bindings(Vec<Option<DescriptorDesc>>),
}

/// One entry of the name table: a descriptor name and the (set, binding)
/// pair it stands for.
#[derive(Debug)]
pub struct NamedDescriptor {
    pub name: String,
    pub set: usize,
    pub binding: usize,
}

/// An abstract pipeline-layout description: what the caller declares and
/// construction validates.
#[derive(Debug)]
pub struct PipelineLayoutDesc {
    /// One entry per descriptor set, by set index.
    pub sets: Vec<SetLayoutSource>,
    /// The declared push-constant ranges, by range index; a hole is a
    /// sparse index and is skipped, not an error.
    pub push_constants: Vec<Option<PipelineLayoutDescPcRange>>,
    /// Descriptor names, for lookup by name.
    pub names: Vec<NamedDescriptor>,
}

/// True when a set-layout source either builds afresh or supplies a layout
/// owned by the given device.
pub open spec fn set_source_owned_by(s: SetLayoutSource, device: Device) -> bool {
    match s {
        SetLayoutSource::Provided(l) => (*l).spec_device_handle() == device.handle,
        SetLayoutSource::Bindings(_) => true,
    }
}

/// A range passes the shape rules: some stage selected, a nonzero size, and
/// a size that is a multiple of four bytes.
pub open spec fn pc_shape_ok(r: PipelineLayoutDescPcRange) -> bool {
    &&& !r.stages.spec_is_none()
    &&& r.size != 0
    &&& r.size % 4 == 0
}

/// A range lies within the device's push-constant budget.
pub open spec fn pc_fits(r: PipelineLayoutDescPcRange, max_size: u32) -> bool {
    r.offset + r.size <= max_size
}

/// The entry a validated range contributes to the creation request:
/// (stage flag word, offset, size).
pub open spec fn pc_entry(r: PipelineLayoutDescPcRange) -> (u32, u32, u32) {
    (r.stages.spec_bits(), r.offset, r.size)
}

/// The creation-request entries contributed by the first `i` declared
/// ranges, holes skipped, in declaration order.
pub open spec fn pc_entries_upto(
    rs: Seq<Option<PipelineLayoutDescPcRange>>,
    i: int,
) -> Seq<(u32, u32, u32)>
    decreases i,
{
    if i <= 0 {
        Seq::empty()
    } else {
        pc_entries_upto(rs, i - 1) + match rs[i - 1] {
            Some(r) => seq![pc_entry(r)],
            None => Seq::empty(),
        }
    }
}

/// The creation-request entries contributed by all declared ranges.
pub open spec fn assembled_pc_entries(
    rs: Seq<Option<PipelineLayoutDescPcRange>>,
) -> Seq<(u32, u32, u32)> {
    pc_entries_upto(rs, rs.len() as int)
}

/// The first validation failure among the first `i` declared ranges, in
/// declaration order; for each range the shape rules are checked before the
/// size budget, so a malformed range never reports a budget violation.
pub open spec fn pc_error_upto(
    rs: Seq<Option<PipelineLayoutDescPcRange>>,
    max_size: u32,
    i: int,
) -> Option<PipelineLayoutCreationError>
    decreases i,
{
    if i <= 0 {
        None
    } else {
        match pc_error_upto(rs, max_size, i - 1) {
            Some(e) => Some(e),
            None => match rs[i - 1] {
                None => None,
                Some(r) => if !pc_shape_ok(r) {
                    Some(PipelineLayoutCreationError::InvalidPushConstant)
                } else if !pc_fits(r, max_size) {
                    Some(PipelineLayoutCreationError::MaxPushConstantsSizeExceeded)
                } else {
                    None
                },
            },
        }
    }
}

/// The first validation failure among all declared ranges, or `None` when
/// every declared range passes.
pub open spec fn first_pc_error(
    rs: Seq<Option<PipelineLayoutDescPcRange>>,
    max_size: u32,
) -> Option<PipelineLayoutCreationError> {
    pc_error_upto(rs, max_size, rs.len() as int)
}

/// No two declared ranges share a shader-stage bit.
pub open spec fn pc_stages_pairwise_disjoint(rs: Seq<Option<PipelineLayoutDescPcRange>>) -> bool {
    forall|i: int, j: int|
        0 <= i < j < rs.len() && #[trigger] rs[i] is Some && #[trigger] rs[j] is Some
            ==> rs[i].unwrap().stages.spec_disjoint(rs[j].unwrap().stages)
}

/// The first name-table entry with the given name, scanning front to back.
pub open spec fn name_lookup_upto(
    names: Seq<NamedDescriptor>,
    name: Seq<char>,
    i: int,
) -> Option<(usize, usize)>
    decreases i,
{
    if i <= 0 {
        None
    } else {
        match name_lookup_upto(names, name, i - 1) {
            Some(p) => Some(p),
            None => if names[i - 1].name@ == name {
                Some((names[i - 1].set, names[i - 1].binding))
            } else {
                None
            },
        }
    }
}

/// The (set, binding) pair the name table gives a name, if any: the first
/// entry carrying that name.
pub open spec fn name_lookup(names: Seq<NamedDescriptor>, name: Seq<char>) -> Option<
    (usize, usize),
> {
    name_lookup_upto(names, name, names.len() as int)
}

/// Once a prefix of the declared ranges contains a failure, every longer
/// prefix reports that same first failure.
pub proof fn lemma_pc_error_persists(
    rs: Seq<Option<PipelineLayoutDescPcRange>>,
    max_size: u32,
    i: int,
    j: int,
)
    requires
        0 <= i <= j,
        pc_error_upto(rs, max_size, i) is Some,
    ensures
        pc_error_upto(rs, max_size, j) == pc_error_upto(rs, max_size, i),
    decreases j - i,
{
    if j > i {
        lemma_pc_error_persists(rs, max_size, i, j - 1);
    }
}

/// A prefix whose declared ranges all pass both checks contains no failure.
pub proof fn lemma_pc_error_none_when_clean(
    rs: Seq<Option<PipelineLayoutDescPcRange>>,
    max_size: u32,
    i: int,
)
    requires
        i <= rs.len(),
        forall|j: int| 0 <= j < i && #[trigger] rs[j] is Some
            ==> pc_shape_ok(rs[j].unwrap()) && pc_fits(rs[j].unwrap(), max_size),
    ensures
        pc_error_upto(rs, max_size, i) is None,
    decreases i,
{
    if i > 0 {
        lemma_pc_error_none_when_clean(rs, max_size, i - 1);
    }
}

/// Once a prefix of the name table holds a match, every longer prefix
/// reports that same first match.
pub proof fn lemma_name_lookup_persists(names: Seq<NamedDescriptor>, name: Seq<char>, i: int, j: int)
    requires
        0 <= i <= j,
        name_lookup_upto(names, name, i) is Some,
    ensures
        name_lookup_upto(names, name, j) == name_lookup_upto(names, name, i),
    decreases j - i,
{
    if j > i {
        lemma_name_lookup_persists(names, name, i, j - 1);
    }
}

impl PipelineLayoutDesc {
    /// Every set-layout object this description supplies ready-made belongs
    /// to the given device.
    pub open spec fn sets_owned_by(&self, device: Device) -> bool {
        forall|i: int| 0 <= i < self.sets@.len()
            ==> set_source_owned_by(#[trigger] self.sets@[i], device)
    }

    /// How many descriptor sets the description declares.
    pub fn num_sets(&self) -> (r: usize)
        ensures
            r == self.sets@.len(),
    {
        self.sets.len()
    }

    /// The ready-made set-layout object for a set index, where the
    /// description supplies one.
    pub fn provided_set_layout(&self, set: usize) -> (r: Option<Arc<DescriptorSetLayout>>)
        ensures
            match r {
                Some(l) => {
                    &&& set < self.sets@.len()
                    &&& self.sets@[set as int] matches SetLayoutSource::Provided(p) && l == p
                },
                None => set >= self.sets@.len() || self.sets@[set as int] is Bindings,
            },
    {
        if set < self.sets.len() {
            match &self.sets[set] {
                SetLayoutSource::Provided(l) => Some(arc_clone(l)),
                SetLayoutSource::Bindings(_) => None,
            }
        } else {
            None
        }
    }

    /// How many binding indices set `set` declares, where the set is to be
    /// built from bindings; `None` where a ready-made layout is supplied or
    /// the set index is out of range.
    pub fn num_bindings_in_set(&self, set: usize) -> (r: Option<usize>)
        ensures
            match r {
                Some(n) => {
                    &&& set < self.sets@.len()
                    &&& self.sets@[set as int] matches SetLayoutSource::Bindings(ds)
                        && n == ds@.len()
                },
                None => set >= self.sets@.len() || self.sets@[set as int] is Provided,
            },
    {
        if set < self.sets.len() {
            match &self.sets[set] {
                SetLayoutSource::Provided(_) => None,
                SetLayoutSource::Bindings(ds) => Some(ds.len()),
            }
        } else {
            None
        }
    }

    /// The descriptor declared at (set, binding), where there is one.
    pub fn descriptor(&self, set: usize, binding: usize) -> (r: Option<DescriptorDesc>)
        ensures
            match r {
                Some(d) => {
                    &&& set < self.sets@.len()
                    &&& self.sets@[set as int] matches SetLayoutSource::Bindings(ds)
                        && binding < ds@.len() && ds@[binding as int] == Some(d)
                },
                None => set >= self.sets@.len() || match self.sets@[set as int] {
                    SetLayoutSource::Provided(_) => true,
                    SetLayoutSource::Bindings(ds) => binding >= ds@.len() || ds@[binding as int]
                        is None,
                },
            },
    {
        if set < self.sets.len() {
            match &self.sets[set] {
                SetLayoutSource::Provided(_) => None,
                SetLayoutSource::Bindings(ds) => {
                    if binding < ds.len() {
                        ds[binding]
                    } else {
                        None
                    }
                },
            }
        } else {
            None
        }
    }

    /// How many push-constant range indices the description declares,
    /// holes included.
    pub fn num_push_constants_ranges(&self) -> (r: usize)
        ensures
            r == self.push_constants@.len(),
    {
        self.push_constants.len()
    }

    /// The push-constant range declared at an index; `None` for a hole or
    /// an index out of range.
    pub fn push_constants_range(&self, num: usize) -> (r: Option<PipelineLayoutDescPcRange>)
        ensures
            num < self.push_constants@.len() ==> r == self.push_constants@[num as int],
            num >= self.push_constants@.len() ==> r is None,
    {
        if num < self.push_constants.len() {
            self.push_constants[num]
        } else {
            None
        }
    }

    /// The (set, binding) pair a descriptor name stands for, if the name
    /// table knows the name.
    pub fn descriptor_by_name(&self, name: &String) -> (r: Option<(usize, usize)>)
        ensures
            r == name_lookup(self.names@, name@),
    {
        let n = self.names.len();
        for i in 0..n
            invariant
                n == self.names@.len(),
                name_lookup_upto(self.names@, name@, i as int) is None,
        {
            if self.names[i].name == *name {
                proof {
                    lemma_name_lookup_persists(self.names@, name@, i + 1, n as int);
                }
                return Some((self.names[i].set, self.names[i].binding));
            }
        }
        None
    }

    /// Checks that every ready-made set layout this description supplies
    /// belongs to the given device. Passing one built against another
    /// device is a caller defect: construction demands this check as a
    /// precondition, never silently proceeding.
    pub fn check_device_ownership(&self, device: &Arc<Device>) -> (r: bool)
        ensures
            r == self.sets_owned_by(**device),
    {
        let n = self.sets.len();
        for i in 0..n
            invariant
                n == self.sets@.len(),
                forall|j: int| 0 <= j < i ==> set_source_owned_by(#[trigger] self.sets@[j], **device),
        {
            match &self.sets[i] {
                SetLayoutSource::Provided(l) => {
                    if l.device().internal_object() != device.internal_object() {
                        assert(!set_source_owned_by(self.sets@[i as int], **device));
                        return false;
                    }
                },
                SetLayoutSource::Bindings(_) => {},
            }
        }
        true
    }

    /// Checks that no two declared push-constant ranges share a shader
    /// stage. The description's own contract is expected to guarantee
    /// this; a violation is a defect in the supplied description, so
    /// construction demands the property as a precondition rather than
    /// surfacing a new error kind.
    pub fn push_constant_stages_disjoint(&self) -> (r: bool)
        ensures
            r == pc_stages_pairwise_disjoint(self.push_constants@),
    {
        let n = self.push_constants.len();
        for i in 0..n
            invariant
                n == self.push_constants@.len(),
                forall|a: int, b: int|
                    0 <= a < b < n && a < i && #[trigger] self.push_constants@[a] is Some
                        && #[trigger] self.push_constants@[b] is Some
                        ==> self.push_constants@[a].unwrap().stages.spec_disjoint(
                            self.push_constants@[b].unwrap().stages,
                        ),
        {
            if let Some(ra) = self.push_constants[i] {
                let mut j = i + 1;
                while j < n
                    invariant
                        n == self.push_constants@.len(),
                        i < j,
                        i < n,
                        self.push_constants@[i as int] == Some(ra),
                        forall|a: int, b: int|
                            0 <= a < b < n && a < i && #[trigger] self.push_constants@[a] is Some
                                && #[trigger] self.push_constants@[b] is Some
                                ==> self.push_constants@[a].unwrap().stages.spec_disjoint(
                                    self.push_constants@[b].unwrap().stages,
                                ),
                        forall|b: int|
                            i < b < j && #[trigger] self.push_constants@[b] is Some
                                ==> ra.stages.spec_disjoint(
                                    self.push_constants@[b].unwrap().stages,
                                ),
                    decreases n - j,
                {
                    if let Some(rb) = self.push_constants[j] {
                        if ra.stages.intersects(&rb.stages) {
                            assert(!pc_stages_pairwise_disjoint(self.push_constants@));
                            return false;
                        }
                    }
                    j = j + 1;
                }
            }
        }
        true
    }
}

} // verus!
