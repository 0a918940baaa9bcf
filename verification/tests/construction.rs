use std::sync::Arc;

use pipeline_layout::desc::{
    NamedDescriptor, PipelineLayoutDesc, PipelineLayoutDescPcRange, SetLayoutSource,
};
use pipeline_layout::descriptor::{DescriptorDesc, DescriptorKind};
use pipeline_layout::device::{Device, DeviceLimits};
use pipeline_layout::error::{DriverError, OomError, PipelineLayoutCreationError};
use pipeline_layout::layout::{DestroyLayoutRequest, PipelineLayout};
use pipeline_layout::set_layout::DescriptorSetLayout;
use pipeline_layout::stages::ShaderStages;

fn test_device(handle: u64, max_sets: u32, max_push: u32) -> Arc<Device> {
    Arc::new(Device {
        handle,
        limits: DeviceLimits {
            max_bound_descriptor_sets: max_sets,
            max_push_constants_size: max_push,
        },
    })
}

fn empty_desc() -> PipelineLayoutDesc {
    PipelineLayoutDesc { sets: Vec::new(), push_constants: Vec::new(), names: Vec::new() }
}

fn pc_desc(ranges: Vec<Option<PipelineLayoutDescPcRange>>) -> PipelineLayoutDesc {
    PipelineLayoutDesc { sets: Vec::new(), push_constants: ranges, names: Vec::new() }
}

fn sample_binding() -> DescriptorDesc {
    DescriptorDesc {
        kind: DescriptorKind::UniformBuffer,
        array_count: 1,
        stages: ShaderStages::all_graphics(),
        readonly: true,
    }
}

#[test]
fn empty() {
    let device = test_device(1, 4, 128);
    let layout = PipelineLayout::new(device, empty_desc(), 100, Ok(7)).unwrap();
    assert_eq!(layout.num_sets(), 0);
    assert_eq!(layout.num_push_constants_ranges(), 0);
    assert_eq!(layout.sys().internal_object(), 7);
    assert!(layout.descriptor_set_layout(0).is_none());
}

#[test]
fn wrong_device_rejected() {
    let device1 = test_device(1, 4, 128);
    let device2 = test_device(2, 4, 128);
    let foreign = Arc::new(DescriptorSetLayout::new(Arc::clone(&device1), 42, Vec::new()));
    let desc = PipelineLayoutDesc {
        sets: vec![SetLayoutSource::Provided(foreign)],
        push_constants: Vec::new(),
        names: Vec::new(),
    };
    // A layout built against device 1 must be rejected when constructing
    // against device 2, and accepted against its own device.
    assert!(!desc.check_device_ownership(&device2));
    assert!(desc.check_device_ownership(&device1));
}

#[test]
fn invalid_push_constant_stages() {
    let device = test_device(1, 4, 128);
    let desc = pc_desc(vec![Some(PipelineLayoutDescPcRange {
        offset: 0,
        size: 8,
        stages: ShaderStages::none(),
    })]);
    match PipelineLayout::new(device, desc, 100, Ok(7)) {
        Err(PipelineLayoutCreationError::InvalidPushConstant) => (),
        _ => panic!(),
    }
}

#[test]
fn invalid_push_constant_size1() {
    let device = test_device(1, 4, 128);
    let desc = pc_desc(vec![Some(PipelineLayoutDescPcRange {
        offset: 0,
        size: 0,
        stages: ShaderStages::all_graphics(),
    })]);
    match PipelineLayout::new(device, desc, 100, Ok(7)) {
        Err(PipelineLayoutCreationError::InvalidPushConstant) => (),
        _ => panic!(),
    }
}

#[test]
fn invalid_push_constant_size2() {
    let device = test_device(1, 4, 128);
    let desc = pc_desc(vec![Some(PipelineLayoutDescPcRange {
        offset: 0,
        size: 11,
        stages: ShaderStages::all_graphics(),
    })]);
    match PipelineLayout::new(device, desc, 100, Ok(7)) {
        Err(PipelineLayoutCreationError::InvalidPushConstant) => (),
        _ => panic!(),
    }
}

#[test]
fn push_constant_budget_exceeded() {
    let device = test_device(1, 4, 16);
    let desc = pc_desc(vec![Some(PipelineLayoutDescPcRange {
        offset: 12,
        size: 8,
        stages: ShaderStages::vertex(),
    })]);
    match PipelineLayout::new(device, desc, 100, Ok(7)) {
        Err(PipelineLayoutCreationError::MaxPushConstantsSizeExceeded) => (),
        _ => panic!(),
    }
}

#[test]
fn shape_checked_before_budget() {
    // The first declared range decides the error; for one range the shape
    // rules are checked before the size budget.
    let device = test_device(1, 4, 16);
    let oversize_then_malformed = pc_desc(vec![
        Some(PipelineLayoutDescPcRange { offset: 16, size: 8, stages: ShaderStages::vertex() }),
        Some(PipelineLayoutDescPcRange {
            offset: 0,
            size: 0,
            stages: ShaderStages::all_graphics(),
        }),
    ]);
    match PipelineLayout::new(device, oversize_then_malformed, 100, Ok(7)) {
        Err(PipelineLayoutCreationError::MaxPushConstantsSizeExceeded) => (),
        _ => panic!(),
    }
    let device = test_device(1, 4, 16);
    let malformed_and_oversize = pc_desc(vec![Some(PipelineLayoutDescPcRange {
        offset: 16,
        size: 10,
        stages: ShaderStages::vertex(),
    })]);
    match PipelineLayout::new(device, malformed_and_oversize, 100, Ok(7)) {
        Err(PipelineLayoutCreationError::InvalidPushConstant) => (),
        _ => panic!(),
    }
}

#[test]
fn set_limit_exceeded_before_any_call() {
    let device = test_device(1, 1, 128);
    let desc = PipelineLayoutDesc {
        sets: vec![
            SetLayoutSource::Bindings(Vec::new()),
            SetLayoutSource::Bindings(Vec::new()),
        ],
        push_constants: Vec::new(),
        names: Vec::new(),
    };
    // `begin` fails before any creation request exists, so no native call
    // can have been made.
    match PipelineLayout::begin(device, desc, 100) {
        Err(PipelineLayoutCreationError::MaxDescriptorSetsLimitExceeded) => (),
        _ => panic!(),
    }
}

#[test]
fn resolver_builds_fresh_set_layout() {
    let device = test_device(1, 4, 128);
    let bindings = vec![Some(sample_binding()), Some(sample_binding()), Some(sample_binding())];
    let desc = PipelineLayoutDesc {
        sets: vec![SetLayoutSource::Bindings(bindings)],
        push_constants: Vec::new(),
        names: Vec::new(),
    };
    let layout = PipelineLayout::new(device, desc, 100, Ok(7)).unwrap();
    let set0 = layout.descriptor_set_layout(0).expect("set 0 must be resolved");
    assert_eq!(set0.num_bindings(), 3);
    assert_eq!(set0.internal_object(), 100);
    assert_eq!(set0.device().internal_object(), 1);
    assert_eq!(set0.descriptor(0), Some(sample_binding()));
    assert!(layout.descriptor_set_layout(1).is_none());
}

#[test]
fn provided_set_layout_passed_through() {
    let device = test_device(1, 4, 128);
    let provided = Arc::new(DescriptorSetLayout::new(Arc::clone(&device), 55, vec![None]));
    let desc = PipelineLayoutDesc {
        sets: vec![
            SetLayoutSource::Provided(Arc::clone(&provided)),
            SetLayoutSource::Bindings(Vec::new()),
        ],
        push_constants: Vec::new(),
        names: Vec::new(),
    };
    let layout = PipelineLayout::new(device, desc, 100, Ok(9)).unwrap();
    let set0 = layout.descriptor_set_layout(0).unwrap();
    assert_eq!(set0.internal_object(), 55);
    assert!(Arc::ptr_eq(set0, &provided));
    // The set built afresh takes the first fresh handle: the provided one
    // consumes none.
    let set1 = layout.descriptor_set_layout(1).unwrap();
    assert_eq!(set1.internal_object(), 100);
    assert_eq!(set1.num_bindings(), 0);
}

#[test]
fn create_info_single_range() {
    let device = test_device(1, 4, 128);
    let desc = pc_desc(vec![Some(PipelineLayoutDescPcRange {
        offset: 0,
        size: 8,
        stages: ShaderStages::vertex(),
    })]);
    let pending = PipelineLayout::begin(device, desc, 100).unwrap();
    let info = pending.create_info();
    assert_eq!(info.num_set_layouts(), 0);
    assert_eq!(info.num_push_constant_ranges(), 1);
    assert_eq!(info.push_constant_range(0), Some((0x1, 0, 8)));
    assert_eq!(info.push_constant_range(1), None);
    let layout = pending.finish(Ok(7)).unwrap();
    assert_eq!(layout.sys().internal_object(), 7);
    assert_eq!(
        layout.push_constants_range(0),
        Some(PipelineLayoutDescPcRange { offset: 0, size: 8, stages: ShaderStages::vertex() })
    );
}

#[test]
fn create_info_carries_set_handles() {
    let device = test_device(1, 4, 128);
    let provided = Arc::new(DescriptorSetLayout::new(Arc::clone(&device), 55, Vec::new()));
    let desc = PipelineLayoutDesc {
        sets: vec![
            SetLayoutSource::Provided(provided),
            SetLayoutSource::Bindings(vec![Some(sample_binding())]),
        ],
        push_constants: Vec::new(),
        names: Vec::new(),
    };
    let pending = PipelineLayout::begin(device, desc, 200).unwrap();
    let info = pending.create_info();
    assert_eq!(info.num_set_layouts(), 2);
    assert_eq!(info.set_layout_handle(0), Some(55));
    assert_eq!(info.set_layout_handle(1), Some(200));
    assert_eq!(info.set_layout_handle(2), None);
}

#[test]
fn sparse_range_indices_skipped() {
    let device = test_device(1, 4, 128);
    let desc = pc_desc(vec![
        None,
        Some(PipelineLayoutDescPcRange { offset: 4, size: 12, stages: ShaderStages::vertex() }),
        None,
    ]);
    let pending = PipelineLayout::begin(device, desc, 100).unwrap();
    let info = pending.create_info();
    assert_eq!(info.num_push_constant_ranges(), 1);
    assert_eq!(info.push_constant_range(0), Some((0x1, 4, 12)));
}

#[test]
fn overlapping_stages_detected() {
    let overlapping = pc_desc(vec![
        Some(PipelineLayoutDescPcRange { offset: 0, size: 4, stages: ShaderStages::vertex() }),
        Some(PipelineLayoutDescPcRange {
            offset: 4,
            size: 4,
            stages: ShaderStages::all_graphics(),
        }),
    ]);
    assert!(!overlapping.push_constant_stages_disjoint());

    let mut fragment_only = ShaderStages::none();
    fragment_only.fragment = true;
    let disjoint = pc_desc(vec![
        Some(PipelineLayoutDescPcRange { offset: 0, size: 4, stages: ShaderStages::vertex() }),
        Some(PipelineLayoutDescPcRange { offset: 4, size: 4, stages: fragment_only }),
    ]);
    assert!(disjoint.push_constant_stages_disjoint());
}

#[test]
fn destruction_yields_native_release_once() {
    let device = test_device(3, 4, 128);
    let layout = PipelineLayout::new(device, empty_desc(), 100, Ok(7)).unwrap();
    // Consuming the layout ends its lifetime; the returned request is what
    // the owner submits to the native destruction call, and the object is
    // gone afterwards, so the release cannot be repeated.
    let request = layout.destroy();
    assert_eq!(request, DestroyLayoutRequest { device: 3, pipeline_layout: 7 });
}

#[test]
fn driver_oom_is_mapped() {
    let device = test_device(1, 4, 128);
    let err = PipelineLayout::new(device, empty_desc(), 100, Err(DriverError::OutOfHostMemory))
        .unwrap_err();
    assert_eq!(err, PipelineLayoutCreationError::OomError(OomError::OutOfHostMemory));
    assert_eq!(err.cause(), Some(OomError::OutOfHostMemory));
    assert_eq!(err.description(), "not enough memory available");

    let device = test_device(1, 4, 128);
    let err = PipelineLayout::new(device, empty_desc(), 100, Err(DriverError::OutOfDeviceMemory))
        .unwrap_err();
    assert_eq!(err, PipelineLayoutCreationError::OomError(OomError::OutOfDeviceMemory));
}

#[test]
fn error_accessors() {
    let e = PipelineLayoutCreationError::MaxDescriptorSetsLimitExceeded;
    assert_eq!(e.description(), "the maximum number of descriptor sets has been exceeded");
    assert_eq!(e.cause(), None);
    let e = PipelineLayoutCreationError::MaxPushConstantsSizeExceeded;
    assert_eq!(e.description(), "the maximum size of push constants has been exceeded");
    assert_eq!(e.cause(), None);
    let e = PipelineLayoutCreationError::InvalidPushConstant;
    assert_eq!(e.description(), "one of the push constants range didn't obey the rules");
    assert_eq!(e.cause(), None);
    assert_eq!(
        PipelineLayoutCreationError::from(OomError::OutOfDeviceMemory),
        PipelineLayoutCreationError::OomError(OomError::OutOfDeviceMemory)
    );
    assert!(DriverError::OutOfHostMemory.is_oom());
    assert!(DriverError::OutOfDeviceMemory.is_oom());
    assert!(!DriverError::DeviceLost.is_oom());
}

#[test]
fn stage_mask_bits() {
    assert_eq!(ShaderStages::none().bits(), 0);
    assert_eq!(ShaderStages::vertex().bits(), 0x1);
    assert_eq!(ShaderStages::all_graphics().bits(), 0x1F);
    assert_eq!(ShaderStages::all().bits(), 0x3F);
    assert!(ShaderStages::vertex().intersects(&ShaderStages::all_graphics()));
    assert!(!ShaderStages::vertex().intersects(&ShaderStages::none()));
}

#[test]
fn description_queries_delegated() {
    let device = test_device(1, 4, 128);
    let bindings = vec![Some(sample_binding()), None];
    let desc = PipelineLayoutDesc {
        sets: vec![SetLayoutSource::Bindings(bindings)],
        push_constants: vec![Some(PipelineLayoutDescPcRange {
            offset: 0,
            size: 16,
            stages: ShaderStages::vertex(),
        })],
        names: vec![
            NamedDescriptor { name: String::from("albedo"), set: 0, binding: 0 },
            NamedDescriptor { name: String::from("albedo"), set: 0, binding: 1 },
            NamedDescriptor { name: String::from("normals"), set: 0, binding: 1 },
        ],
    };
    let layout = PipelineLayout::new(device, desc, 100, Ok(7)).unwrap();
    assert_eq!(layout.num_sets(), 1);
    assert_eq!(layout.num_bindings_in_set(0), Some(2));
    assert_eq!(layout.num_bindings_in_set(1), None);
    assert_eq!(layout.descriptor(0, 0), Some(sample_binding()));
    assert_eq!(layout.descriptor(0, 1), None);
    assert_eq!(layout.descriptor(1, 0), None);
    assert_eq!(layout.num_push_constants_ranges(), 1);
    assert_eq!(layout.push_constants_range(1), None);
    // The first table entry with the name wins.
    assert_eq!(layout.descriptor_by_name(&String::from("albedo")), Some((0, 0)));
    assert_eq!(layout.descriptor_by_name(&String::from("normals")), Some((0, 1)));
    assert_eq!(layout.descriptor_by_name(&String::from("missing")), None);
    assert_eq!(layout.desc().num_sets(), 1);
    assert_eq!(layout.device().internal_object(), 1);
}

#[test]
fn provided_set_layout_query() {
    let device = test_device(1, 4, 128);
    let provided = Arc::new(DescriptorSetLayout::new(Arc::clone(&device), 55, Vec::new()));
    let desc = PipelineLayoutDesc {
        sets: vec![
            SetLayoutSource::Provided(Arc::clone(&provided)),
            SetLayoutSource::Bindings(Vec::new()),
        ],
        push_constants: Vec::new(),
        names: Vec::new(),
    };
    let from_desc = desc.provided_set_layout(0).unwrap();
    assert!(Arc::ptr_eq(&from_desc, &provided));
    assert!(desc.provided_set_layout(1).is_none());
    assert!(desc.provided_set_layout(2).is_none());
    assert_eq!(desc.num_bindings_in_set(0), None);
    assert_eq!(desc.num_push_constants_ranges(), 0);
    assert_eq!(desc.push_constants_range(0), None);
}
