use avenir::hal_state::FrameFault;
use avenir::mesh::{
    buffer_frame_size, checked_iceil, iceil, indirect_offset, models_offset, uniform_offset,
    DescriptorRange, DrawIndexedCommand, DrawPlan, FrameLayout, LayoutError, PipelineDesc, Region,
    UploadPlan, MAX_OBJECTS,
};

fn mesh_layout(align: u64) -> FrameLayout {
    FrameLayout { align, uniform_size: 128, models_size: 6400, indirect_size: 20 }
}

fn mesh_desc() -> PipelineDesc {
    PipelineDesc {
        uniform_size: 128,
        model_size: 64,
        max_objects: MAX_OBJECTS,
        max_lights: 32,
        indirect_size: 20,
    }
}

#[test]
fn iceil_rounds_up_to_the_next_multiple() {
    assert_eq!(iceil(1, 256), 256);
    assert_eq!(iceil(255, 256), 256);
    assert_eq!(iceil(257, 256), 512);
    assert_eq!(iceil(6548, 64), 6592);
    assert_eq!(iceil(7, 3), 9);
}

#[test]
fn iceil_keeps_multiples_and_zero() {
    assert_eq!(iceil(0, 256), 0);
    assert_eq!(iceil(256, 256), 256);
    assert_eq!(iceil(512, 256), 512);
    assert_eq!(iceil(5, 1), 5);
}

#[test]
fn checked_iceil_reports_overflow() {
    assert_eq!(checked_iceil(6548, 256), Some(6656));
    assert_eq!(checked_iceil(0, 256), Some(0));
    assert_eq!(checked_iceil(u64::MAX, 1), Some(u64::MAX));
    assert_eq!(checked_iceil(u64::MAX, 2), None);
    assert_eq!(checked_iceil(u64::MAX - 254, 256), None);
}

#[test]
fn frame_size_rounds_up_to_alignment() {
    assert_eq!(buffer_frame_size(&mesh_layout(256)), 6656);
    assert_eq!(buffer_frame_size(&mesh_layout(64)), 6592);
    assert_eq!(buffer_frame_size(&mesh_layout(1)), 6548);
    assert_eq!(buffer_frame_size(&mesh_layout(4)), 6548);
}

#[test]
fn offsets_of_the_first_slots() {
    let layout = mesh_layout(256);
    assert_eq!(uniform_offset(0, &layout), 0);
    assert_eq!(models_offset(0, &layout), 128);
    assert_eq!(indirect_offset(0, &layout), 6528);
    assert_eq!(uniform_offset(1, &layout), 6656);
    assert_eq!(models_offset(1, &layout), 6784);
    assert_eq!(indirect_offset(1, &layout), 13184);
    assert_eq!(uniform_offset(2, &layout), 13312);
}

#[test]
fn offsets_are_the_same_on_every_call() {
    let layout = mesh_layout(256);
    for index in 0..8usize {
        assert_eq!(uniform_offset(index, &layout), uniform_offset(index, &layout));
        assert_eq!(models_offset(index, &layout), models_offset(index, &layout));
        assert_eq!(indirect_offset(index, &layout), indirect_offset(index, &layout));
    }
}

#[test]
fn regions_are_ordered_and_slots_do_not_overlap() {
    for align in [1u64, 2, 16, 64, 256, 4096, 100] {
        let layout = mesh_layout(align);
        let stride = buffer_frame_size(&layout);
        assert_eq!(stride % align, 0);
        assert!(stride >= 128 + 6400 + 20);
        assert!(stride < 128 + 6400 + 20 + align);
        for index in 0..6usize {
            let uniform = uniform_offset(index, &layout);
            let models = models_offset(index, &layout);
            let indirect = indirect_offset(index, &layout);
            let next = uniform_offset(index + 1, &layout);
            assert!(uniform < models);
            assert!(models < indirect);
            assert_eq!(uniform + 128, models);
            assert_eq!(models + 6400, indirect);
            assert!(indirect + 20 <= next);
            assert!(next >= uniform + stride);
            assert_eq!(uniform % align, 0);
        }
    }
}

#[test]
fn empty_regions_share_an_offset() {
    let layout = FrameLayout { align: 16, uniform_size: 0, models_size: 0, indirect_size: 0 };
    assert_eq!(buffer_frame_size(&layout), 0);
    assert_eq!(uniform_offset(3, &layout), 0);
    assert_eq!(indirect_offset(3, &layout), 0);
}

#[test]
fn build_lays_out_one_descriptor_range_per_slot() {
    let pipeline = mesh_desc().build(3, 256, 36).unwrap();
    assert_eq!(pipeline.layout, mesh_layout(256));
    assert_eq!(pipeline.frames, 3);
    assert_eq!(pipeline.buffer_size, 3 * 6656);
    assert_eq!(
        pipeline.sets,
        vec![
            DescriptorRange { start: 0, end: 128 },
            DescriptorRange { start: 6656, end: 6784 },
            DescriptorRange { start: 13312, end: 13440 },
        ]
    );
    assert_eq!(pipeline.index_count, 36);
    assert_eq!(pipeline.max_objects, 100);
    assert_eq!(pipeline.max_lights, 32);
    assert_eq!(pipeline.model_size, 64);
}

#[test]
fn build_for_no_frames_is_an_empty_buffer() {
    let pipeline = mesh_desc().build(0, 256, 36).unwrap();
    assert_eq!(pipeline.buffer_size, 0);
    assert!(pipeline.sets.is_empty());
}

#[test]
fn build_refuses_zero_alignment() {
    assert_eq!(mesh_desc().build(3, 0, 36).err(), Some(LayoutError::ZeroAlignment));
}

#[test]
fn build_refuses_what_cannot_be_addressed() {
    let huge = PipelineDesc { model_size: u64::MAX / 2, ..mesh_desc() };
    assert_eq!(huge.build(3, 256, 36).err(), Some(LayoutError::TooLarge));
    let uniform = PipelineDesc { uniform_size: u64::MAX - 6000, ..mesh_desc() };
    assert_eq!(uniform.build(1, 256, 36).err(), Some(LayoutError::TooLarge));
    let rounding = PipelineDesc {
        uniform_size: u64::MAX - 6500,
        model_size: 64,
        max_objects: 100,
        max_lights: 0,
        indirect_size: 20,
    };
    assert_eq!(rounding.build(1, 4096, 36).err(), Some(LayoutError::TooLarge));
    let frames = PipelineDesc { uniform_size: u64::MAX / 4, ..mesh_desc() };
    assert!(frames.build(2, 1, 36).is_ok());
    assert_eq!(frames.build(4, 1, 36).err(), Some(LayoutError::TooLarge));
}

#[test]
fn prepare_plans_the_three_writes() {
    let pipeline = mesh_desc().build(3, 256, 36).unwrap();
    let plan = pipeline.prepare(1, 100, 4).unwrap();
    assert_eq!(
        plan,
        UploadPlan {
            uniform: Region { offset: 6656, len: 128 },
            models: Region { offset: 6784, len: 6400 },
            indirect: Region { offset: 13184, len: 20 },
            command: DrawIndexedCommand {
                index_count: 36,
                instance_count: 100,
                first_index: 0,
                vertex_offset: 0,
                first_instance: 0,
            },
        }
    );
    let few = pipeline.prepare(2, 3, 0).unwrap();
    assert_eq!(few.models, Region { offset: 13440, len: 192 });
    assert_eq!(few.command.instance_count, 3);
    let none = pipeline.prepare(0, 0, 0).unwrap();
    assert_eq!(none.models, Region { offset: 128, len: 0 });
    assert_eq!(none.command.instance_count, 0);
}

#[test]
fn prepare_refuses_too_many_objects() {
    let pipeline = mesh_desc().build(3, 256, 36).unwrap();
    assert_eq!(pipeline.prepare(0, 101, 0), Err(FrameFault::TooManyObjects));
    assert_eq!(pipeline.prepare(0, usize::MAX, 0), Err(FrameFault::TooManyObjects));
    assert!(pipeline.prepare(0, 100, 0).is_ok());
}

#[test]
fn prepare_refuses_too_many_lights() {
    let pipeline = mesh_desc().build(3, 256, 36).unwrap();
    assert_eq!(pipeline.prepare(0, 1, 33), Err(FrameFault::TooManyLights));
    assert!(pipeline.prepare(0, 1, 32).is_ok());
    assert_eq!(pipeline.prepare(0, 101, 33), Err(FrameFault::TooManyObjects));
}

#[test]
fn draw_binds_the_slot() {
    let pipeline = mesh_desc().build(3, 256, 36).unwrap();
    assert_eq!(
        pipeline.draw(2),
        DrawPlan {
            descriptor_set: 2,
            mesh_binding: 0,
            instance_binding: 1,
            instance_offset: 13440,
            indirect_offset: 19840,
            draw_count: 1,
            stride: 20,
        }
    );
    assert_eq!(pipeline.draw(0).instance_offset, 128);
    assert_eq!(pipeline.draw(0).indirect_offset, 6528);
}

#[test]
fn descriptor_range_matches_the_upload() {
    let pipeline = mesh_desc().build(4, 64, 6).unwrap();
    for index in 0..4usize {
        let plan = pipeline.prepare(index, 10, 1).unwrap();
        assert_eq!(pipeline.sets[index].start, plan.uniform.offset);
        assert_eq!(pipeline.sets[index].end, plan.uniform.offset + plan.uniform.len);
        assert_eq!(pipeline.draw(index).instance_offset, plan.models.offset);
        assert_eq!(pipeline.draw(index).indirect_offset, plan.indirect.offset);
    }
}

#[test]
fn a_slot_may_start_where_it_can_no_longer_end() {
    let layout = FrameLayout { align: 1, uniform_size: 1 << 63, models_size: 1, indirect_size: 0 };
    assert_eq!(buffer_frame_size(&layout), (1 << 63) + 1);
    assert_eq!(uniform_offset(0, &layout), 0);
    assert_eq!(models_offset(0, &layout), 1 << 63);
    assert_eq!(indirect_offset(0, &layout), (1 << 63) + 1);
    assert_eq!(uniform_offset(1, &layout), (1 << 63) + 1);
}
