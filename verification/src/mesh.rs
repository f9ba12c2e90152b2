//! Layout of the per-frame data buffer and the per-slot upload and draw plans.
//!
//! One backing buffer serves every frame slot. A slot owns three regions that
//! follow each other: the uniform arguments, the instance array and one
//! indirect draw record. Slots are a fixed stride apart, the stride being the
//! three sizes together, rounded up to the device's minimum offset alignment.

use vstd::prelude::*;
use vstd::arithmetic::div_mod::{
    lemma_basic_div, lemma_div_plus_one, lemma_fundamental_div_mod, lemma_mod_bound,
    lemma_mod_multiples_basic,
};
use vstd::arithmetic::mul::{
    lemma_mul_inequality, lemma_mul_is_commutative, lemma_mul_is_distributive_add,
    lemma_mul_nonnegative,
};
use crate::hal_state::FrameFault;

verus! {

/// Smallest multiple of `scale` that is not below `value`.
pub open spec fn spec_iceil(value: int, scale: int) -> int
    recommends
        value >= 0,
        scale > 0,
{
    ((value + scale - 1) / scale) * scale
}

/// `spec_iceil` is a multiple of `scale`, at or above `value` and less than
/// `scale` above it.
pub proof fn lemma_iceil_is_multiple(value: int, scale: int)
    requires
        value >= 0,
        scale > 0,
    ensures
        spec_iceil(value, scale) % scale == 0,
        value <= spec_iceil(value, scale) < value + scale,
{
    let x = value + scale - 1;
    let q = x / scale;
    lemma_fundamental_div_mod(x, scale);
    lemma_mod_bound(x, scale);
    lemma_mul_is_commutative(scale, q);
    lemma_mod_multiples_basic(q, scale);
}

/// No multiple of `scale` at or above `value` is smaller than `spec_iceil`.
pub proof fn lemma_iceil_is_least(value: int, scale: int, multiple: int)
    requires
        value >= 0,
        scale > 0,
        multiple % scale == 0,
        multiple >= value,
    ensures
        multiple >= spec_iceil(value, scale),
{
    let r = spec_iceil(value, scale);
    lemma_iceil_is_multiple(value, scale);
    if multiple < r {
        // Two multiples of `scale` less than `scale` apart are equal.
        lemma_fundamental_div_mod(multiple, scale);
        lemma_fundamental_div_mod(r, scale);
        let a = multiple / scale;
        let b = r / scale;
        assert(a < b) by (nonlinear_arith)
            requires
                scale > 0,
                scale * a < scale * b,
        ;
        assert(scale * b - scale * a >= scale) by (nonlinear_arith)
            requires
                scale > 0,
                a < b,
        ;
    }
}

/// Rounds `value` up to the next multiple of `scale`; `None` where that
/// multiple does not fit in 64 bits.
pub fn checked_iceil(value: u64, scale: u64) -> (r: Option<u64>)
    requires
        scale > 0,
    ensures
        r is Some <==> spec_iceil(value as int, scale as int) <= u64::MAX,
        r matches Some(v) ==> v == spec_iceil(value as int, scale as int),
{
    if value == 0 {
        proof {
            lemma_basic_div(scale as int - 1, scale as int);
            assert(0 * (scale as int) == 0);
        }
        Some(0)
    } else {
        let q: u64 = (value - 1) / scale + 1;
        proof {
            lemma_div_plus_one(value as int - 1, scale as int);
            assert(q as int == (value as int + scale as int - 1) / (scale as int));
            assert(q as int * scale as int == spec_iceil(value as int, scale as int));
        }
        q.checked_mul(scale)
    }
}

/// Rounds `value` up to the next multiple of `scale`, which must fit in 64
/// bits.
pub fn iceil(value: u64, scale: u64) -> (r: u64)
    requires
        scale > 0,
        spec_iceil(value as int, scale as int) <= u64::MAX,
    ensures
        r == spec_iceil(value as int, scale as int),
{
    checked_iceil(value, scale).unwrap()
}

/// Sizes of the three regions of one frame slot and the alignment that a slot
/// must start on, all in bytes.
#[derive(Clone, Copy, Debug, PartialEq, Eq, Structural)]
pub struct FrameLayout {
    /// Minimum offset alignment that the device reports for uniform buffers.
    pub align: u64,
    /// Size of the uniform arguments.
    pub uniform_size: u64,
    /// Size of the instance array at its maximum object count.
    pub models_size: u64,
    /// Size of one indirect draw record.
    pub indirect_size: u64,
}

impl FrameLayout {
    /// Bytes that one slot holds before rounding.
    pub open spec fn payload(self) -> int {
        self.uniform_size + self.models_size + self.indirect_size
    }

    /// Distance from one slot to the next.
    pub open spec fn stride(self) -> int {
        spec_iceil(self.payload(), self.align as int)
    }

    /// Offset of the uniform arguments of slot `index`: the start of the slot.
    pub open spec fn uniform_at(self, index: int) -> int {
        self.stride() * index
    }

    /// Offset of the instance array of slot `index`.
    pub open spec fn models_at(self, index: int) -> int {
        self.uniform_at(index) + self.uniform_size
    }

    /// Offset of the indirect draw record of slot `index`.
    pub open spec fn indirect_at(self, index: int) -> int {
        self.models_at(index) + self.models_size
    }

    /// First byte after the indirect draw record of slot `index`.
    pub open spec fn end_at(self, index: int) -> int {
        self.indirect_at(index) + self.indirect_size
    }

    /// A buffer of `frames` slots can be addressed with 64-bit offsets.
    pub open spec fn fits(self, frames: int) -> bool {
        &&& self.align > 0
        &&& self.stride() <= u64::MAX
        &&& self.stride() * frames <= u64::MAX
    }
}

/// The stride is a multiple of the alignment, and within a slot the three
/// regions follow each other without overlap and end before the next slot
/// starts, which lies exactly one stride further.
pub proof fn lemma_regions_ordered(layout: FrameLayout, index: int)
    requires
        layout.align > 0,
        index >= 0,
    ensures
        layout.stride() % (layout.align as int) == 0,
        layout.payload() <= layout.stride() < layout.payload() + layout.align,
        0 <= layout.uniform_at(index),
        layout.uniform_at(index) + layout.uniform_size == layout.models_at(index),
        layout.models_at(index) + layout.models_size == layout.indirect_at(index),
        layout.indirect_at(index) + layout.indirect_size == layout.end_at(index),
        layout.end_at(index) <= layout.uniform_at(index + 1),
        layout.uniform_at(index + 1) == layout.uniform_at(index) + layout.stride(),
{
    lemma_iceil_is_multiple(layout.payload(), layout.align as int);
    lemma_mul_nonnegative(layout.stride(), index);
    lemma_mul_is_distributive_add(layout.stride(), index, 1);
}

/// Regions of different slots never overlap: every byte of an earlier slot lies
/// before the start of any later slot, and the starts are at least one stride
/// apart for each slot between them.
pub proof fn lemma_slots_disjoint(layout: FrameLayout, first: int, second: int)
    requires
        layout.align > 0,
        0 <= first < second,
    ensures
        layout.end_at(first) <= layout.uniform_at(second),
        layout.uniform_at(second) >= layout.uniform_at(first) + layout.stride() * (second - first),
{
    lemma_regions_ordered(layout, first);
    lemma_mul_is_distributive_add(layout.stride(), first, second - first);
    lemma_mul_inequality(1, second - first, layout.stride());
    lemma_mul_is_commutative(layout.stride(), second - first);
}

/// A layout that fits `frames` slots fits any smaller number of them.
pub proof fn lemma_fits_fewer(layout: FrameLayout, fewer: int, frames: int)
    requires
        layout.fits(frames),
        0 <= fewer <= frames,
    ensures
        layout.fits(fewer),
{
    lemma_iceil_is_multiple(layout.payload(), layout.align as int);
    lemma_mul_inequality(fewer, frames, layout.stride());
    lemma_mul_is_commutative(layout.stride(), fewer);
    lemma_mul_is_commutative(layout.stride(), frames);
}

/// Size of one frame slot: the three region sizes together, rounded up to the
/// alignment.
pub fn buffer_frame_size(layout: &FrameLayout) -> (r: u64)
    requires
        layout.fits(0),
    ensures
        r == layout.stride(),
{
    proof {
        lemma_iceil_is_multiple(layout.payload(), layout.align as int);
    }
    iceil(layout.uniform_size + layout.models_size + layout.indirect_size, layout.align)
}

/// Offset of the uniform arguments of slot `index`.
pub fn uniform_offset(index: usize, layout: &FrameLayout) -> (r: u64)
    requires
        layout.fits(index as int),
    ensures
        r == layout.uniform_at(index as int),
{
    buffer_frame_size(layout) * (index as u64)
}

/// Offset of the instance array of slot `index`.
pub fn models_offset(index: usize, layout: &FrameLayout) -> (r: u64)
    requires
        layout.fits(index as int),
        layout.models_at(index as int) <= u64::MAX,
    ensures
        r == layout.models_at(index as int),
{
    uniform_offset(index, layout) + layout.uniform_size
}

/// Offset of the indirect draw record of slot `index`.
pub fn indirect_offset(index: usize, layout: &FrameLayout) -> (r: u64)
    requires
        layout.fits(index as int),
        layout.indirect_at(index as int) <= u64::MAX,
    ensures
        r == layout.indirect_at(index as int),
{
    models_offset(index, layout) + layout.models_size
}

/// Most objects that one frame can draw.
pub const MAX_OBJECTS: u32 = 100;

/// Why no frame buffer can be laid out.
#[derive(Clone, Copy, Debug, PartialEq, Eq, Structural)]
pub enum LayoutError {
    /// The device reported an offset alignment of zero.
    ZeroAlignment,
    /// The buffer for all frame slots cannot be addressed with 64-bit offsets.
    TooLarge,
}

/// A range of bytes of the frame buffer, `end` not included.
#[derive(Clone, Copy, Debug, PartialEq, Eq, Structural)]
pub struct DescriptorRange {
    pub start: u64,
    pub end: u64,
}

/// One write into the frame buffer.
#[derive(Clone, Copy, Debug, PartialEq, Eq, Structural)]
pub struct Region {
    pub offset: u64,
    pub len: u64,
}

/// The record that an indexed indirect draw reads its parameters from.
#[derive(Clone, Copy, Debug, PartialEq, Eq, Structural)]
pub struct DrawIndexedCommand {
    pub index_count: u32,
    pub instance_count: u32,
    pub first_index: u32,
    pub vertex_offset: i32,
    pub first_instance: u32,
}

/// Where one frame's data goes and what its draw record says.
#[derive(Clone, Copy, Debug, PartialEq, Eq, Structural)]
pub struct UploadPlan {
    /// The uniform arguments, written whole.
    pub uniform: Region,
    /// The transforms of the objects drawn this frame.
    pub models: Region,
    /// The indirect draw record.
    pub indirect: Region,
    /// The indirect draw record's contents.
    pub command: DrawIndexedCommand,
}

/// What one frame's draw binds and issues.
#[derive(Clone, Copy, Debug, PartialEq, Eq, Structural)]
pub struct DrawPlan {
    /// The descriptor set to bind: that of the frame slot.
    pub descriptor_set: usize,
    /// Binding of the static mesh's vertex stream.
    pub mesh_binding: u32,
    /// Binding of the instance array.
    pub instance_binding: u32,
    /// Offset of the instance array in the frame buffer.
    pub instance_offset: u64,
    /// Offset of the indirect draw record in the frame buffer.
    pub indirect_offset: u64,
    /// Number of indirect draw records to consume.
    pub draw_count: u32,
    /// Distance between indirect draw records.
    pub stride: u32,
}

/// The maxima that fix the sizes of the three regions of a frame slot.
#[derive(Clone, Copy, Debug, PartialEq, Eq, Structural)]
pub struct PipelineDesc {
    /// Size of the uniform arguments, with room for `max_lights` lights.
    pub uniform_size: u64,
    /// Size of one object's transform in the instance array.
    pub model_size: u64,
    /// Most objects that one frame can draw.
    pub max_objects: u32,
    /// Most lights that one frame can hold.
    pub max_lights: u32,
    /// Size of one indirect draw record.
    pub indirect_size: u32,
}

impl PipelineDesc {
    /// Size of the instance array.
    pub open spec fn models_bytes(self) -> int {
        self.model_size * self.max_objects
    }

    /// The layout of a frame slot on a device with offset alignment `align`.
    pub open spec fn layout(self, align: u64) -> FrameLayout {
        FrameLayout {
            align,
            uniform_size: self.uniform_size,
            models_size: self.models_bytes() as u64,
            indirect_size: self.indirect_size as u64,
        }
    }

    /// A buffer of `frames` slots can be laid out.
    pub open spec fn buildable(self, frames: int, align: u64) -> bool {
        &&& self.models_bytes() <= u64::MAX
        &&& self.layout(align).fits(frames)
    }
}

/// The per-frame buffer of a mesh pipeline, laid out: its size and, for each
/// frame slot, the descriptor set's range.
#[derive(Clone, Debug)]
pub struct Pipeline {
    pub layout: FrameLayout,
    /// Number of frame slots.
    pub frames: usize,
    /// Size of the whole buffer.
    pub buffer_size: u64,
    /// What each slot's descriptor set binds: the slot's uniform region.
    pub sets: Vec<DescriptorRange>,
    pub model_size: u64,
    pub max_objects: u32,
    pub max_lights: u32,
    /// Number of indices of the static mesh.
    pub index_count: u32,
}

impl Pipeline {
    /// The range that the descriptor set of slot `index` binds.
    pub open spec fn set_range(self, index: int) -> DescriptorRange {
        DescriptorRange {
            start: self.layout.uniform_at(index) as u64,
            end: self.layout.models_at(index) as u64,
        }
    }

    /// There is one descriptor set for each frame slot, each bound to its
    /// slot's uniform region exactly, and the buffer holds every slot.
    pub open spec fn wf(self) -> bool {
        &&& self.layout.fits(self.frames as int)
        &&& self.buffer_size == self.layout.stride() * self.frames
        &&& self.sets@.len() == self.frames
        &&& forall|i: int| 0 <= i < self.frames ==> #[trigger] self.sets@[i] == self.set_range(i)
        &&& self.layout.models_size == self.model_size * self.max_objects
        &&& self.layout.indirect_size <= u32::MAX
    }

    /// The upload of a frame with `object_count` objects in slot `index`.
    pub open spec fn upload_plan(self, index: int, object_count: int) -> UploadPlan {
        UploadPlan {
            uniform: Region {
                offset: self.layout.uniform_at(index) as u64,
                len: self.layout.uniform_size,
            },
            models: Region {
                offset: self.layout.models_at(index) as u64,
                len: (object_count * self.model_size) as u64,
            },
            indirect: Region {
                offset: self.layout.indirect_at(index) as u64,
                len: self.layout.indirect_size,
            },
            command: DrawIndexedCommand {
                index_count: self.index_count,
                instance_count: object_count as u32,
                first_index: 0,
                vertex_offset: 0,
                first_instance: 0,
            },
        }
    }

    /// The draw of the frame in slot `index`.
    pub open spec fn draw_plan(self, index: int) -> DrawPlan {
        DrawPlan {
            descriptor_set: index as usize,
            mesh_binding: 0,
            instance_binding: 1,
            instance_offset: self.layout.models_at(index) as u64,
            indirect_offset: self.layout.indirect_at(index) as u64,
            draw_count: 1,
            stride: self.layout.indirect_size as u32,
        }
    }

    /// The writes of an upload follow each other without overlap, stay within
    /// the slot and within the buffer, and hold no more instances than the
    /// slot was sized for.
    pub proof fn lemma_upload_within_slot(self, index: int, object_count: int)
        requires
            self.wf(),
            0 <= index < self.frames,
            0 <= object_count <= self.max_objects,
        ensures
            ({
                let plan = self.upload_plan(index, object_count);
                &&& plan.uniform.offset == self.layout.uniform_at(index)
                &&& plan.uniform.offset + plan.uniform.len == plan.models.offset
                &&& plan.models.len == object_count * self.model_size
                &&& plan.models.offset + plan.models.len <= plan.indirect.offset
                &&& plan.indirect.offset + plan.indirect.len <= self.layout.uniform_at(index + 1)
                &&& plan.indirect.offset + plan.indirect.len <= self.buffer_size
                &&& plan.command.instance_count == object_count
            }),
    {
        lemma_fits_fewer(self.layout, index + 1, self.frames as int);
        lemma_regions_ordered(self.layout, index);
        lemma_mul_inequality(object_count, self.max_objects as int, self.model_size as int);
        lemma_mul_is_commutative(self.model_size as int, self.max_objects as int);
        lemma_mul_nonnegative(object_count, self.model_size as int);
        lemma_mul_inequality(index + 1, self.frames as int, self.layout.stride());
        lemma_mul_is_commutative(self.layout.stride(), index + 1);
        lemma_mul_is_commutative(self.layout.stride(), self.frames as int);
    }

    /// Plans the upload of one frame into slot `index`: the uniform arguments,
    /// the transforms of `object_count` objects and the indirect draw record
    /// that draws them. A frame with more objects or lights than the slot was
    /// sized for is refused, not cut short.
    pub fn prepare(&self, index: usize, object_count: usize, light_count: usize) -> (r: Result<
        UploadPlan,
        FrameFault,
    >)
        requires
            self.wf(),
            index < self.frames,
        ensures
            object_count > self.max_objects ==> r == Err::<UploadPlan, FrameFault>(
                FrameFault::TooManyObjects,
            ),
            object_count <= self.max_objects && light_count > self.max_lights ==> r == Err::<
                UploadPlan,
                FrameFault,
            >(FrameFault::TooManyLights),
            object_count <= self.max_objects && light_count <= self.max_lights ==> r == Ok::<
                UploadPlan,
                FrameFault,
            >(self.upload_plan(index as int, object_count as int)),
            r matches Ok(plan) ==> {
                &&& plan.uniform.offset + plan.uniform.len == plan.models.offset
                &&& plan.models.offset + plan.models.len <= plan.indirect.offset
                &&& plan.indirect.offset + plan.indirect.len <= self.layout.uniform_at(index + 1)
                &&& plan.indirect.offset + plan.indirect.len <= self.buffer_size
            },
    {
        if object_count > self.max_objects as usize {
            return Err(FrameFault::TooManyObjects);
        }
        if light_count > self.max_lights as usize {
            return Err(FrameFault::TooManyLights);
        }
        proof {
            self.lemma_upload_within_slot(index as int, object_count as int);
            lemma_fits_fewer(self.layout, index as int, self.frames as int);
            lemma_fits_fewer(self.layout, index + 1, self.frames as int);
            lemma_regions_ordered(self.layout, index as int);
        }
        Ok(
            UploadPlan {
                uniform: Region {
                    offset: uniform_offset(index, &self.layout),
                    len: self.layout.uniform_size,
                },
                models: Region {
                    offset: models_offset(index, &self.layout),
                    len: (object_count as u64) * self.model_size,
                },
                indirect: Region {
                    offset: indirect_offset(index, &self.layout),
                    len: self.layout.indirect_size,
                },
                command: DrawIndexedCommand {
                    index_count: self.index_count,
                    instance_count: object_count as u32,
                    first_index: 0,
                    vertex_offset: 0,
                    first_instance: 0,
                },
            },
        )
    }

    /// Plans the draw of the frame in slot `index`: the slot's descriptor set,
    /// the static mesh at binding 0, the slot's instance array at binding 1,
    /// and one indexed indirect draw that reads the slot's draw record.
    pub fn draw(&self, index: usize) -> (r: DrawPlan)
        requires
            self.wf(),
            index < self.frames,
        ensures
            r == self.draw_plan(index as int),
    {
        proof {
            lemma_fits_fewer(self.layout, index as int, self.frames as int);
            lemma_fits_fewer(self.layout, index + 1, self.frames as int);
            lemma_regions_ordered(self.layout, index as int);
        }
        DrawPlan {
            descriptor_set: index,
            mesh_binding: 0,
            instance_binding: 1,
            instance_offset: models_offset(index, &self.layout),
            indirect_offset: indirect_offset(index, &self.layout),
            draw_count: 1,
            stride: self.layout.indirect_size as u32,
        }
    }
}

impl PipelineDesc {
    /// Lays out the buffer for `frames` frame slots on a device with offset
    /// alignment `align`, and the range that each slot's descriptor set binds.
    /// `index_count` is the number of indices of the static mesh.
    pub fn build(self, frames: u32, align: u64, index_count: u32) -> (r: Result<
        Pipeline,
        LayoutError,
    >)
        ensures
            r is Ok <==> self.buildable(frames as int, align),
            r matches Err(e) ==> (e == LayoutError::ZeroAlignment <==> align == 0),
            r matches Ok(p) ==> {
                &&& p.wf()
                &&& p.layout == self.layout(align)
                &&& p.frames == frames
                &&& p.model_size == self.model_size
                &&& p.max_objects == self.max_objects
                &&& p.max_lights == self.max_lights
                &&& p.index_count == index_count
            },
    {
        if align == 0 {
            return Err(LayoutError::ZeroAlignment);
        }
        proof {
            lemma_mul_nonnegative(self.model_size as int, self.max_objects as int);
        }
        let models_size = match self.model_size.checked_mul(self.max_objects as u64) {
            Some(models_size) => models_size,
            None => {
                return Err(LayoutError::TooLarge);
            },
        };
        let layout = FrameLayout {
            align,
            uniform_size: self.uniform_size,
            models_size,
            indirect_size: self.indirect_size as u64,
        };
        proof {
            lemma_iceil_is_multiple(layout.payload(), align as int);
        }
        let payload = match self.uniform_size.checked_add(models_size) {
            Some(sum) => match sum.checked_add(self.indirect_size as u64) {
                Some(payload) => payload,
                None => {
                    return Err(LayoutError::TooLarge);
                },
            },
            None => {
                return Err(LayoutError::TooLarge);
            },
        };
        let stride = match checked_iceil(payload, align) {
            Some(stride) => stride,
            None => {
                return Err(LayoutError::TooLarge);
            },
        };
        let buffer_size = match stride.checked_mul(frames as u64) {
            Some(buffer_size) => buffer_size,
            None => {
                return Err(LayoutError::TooLarge);
            },
        };
        let mut sets: Vec<DescriptorRange> = Vec::new();
        let mut index: usize = 0;
        while index < frames as usize
            invariant
                index <= frames,
                layout.fits(frames as int),
                sets@.len() == index,
                forall|i: int|
                    0 <= i < index ==> #[trigger] sets@[i] == (DescriptorRange {
                        start: layout.uniform_at(i) as u64,
                        end: layout.models_at(i) as u64,
                    }),
            decreases frames - index,
        {
            proof {
                lemma_fits_fewer(layout, index as int, frames as int);
                lemma_fits_fewer(layout, index + 1, frames as int);
                lemma_regions_ordered(layout, index as int);
            }
            let start = uniform_offset(index, &layout);
            sets.push(DescriptorRange { start, end: start + layout.uniform_size });
            index += 1;
        }
        Ok(
            Pipeline {
                layout,
                frames: frames as usize,
                buffer_size,
                sets,
                model_size: self.model_size,
                max_objects: self.max_objects,
                max_lights: self.max_lights,
                index_count,
            },
        )
    }
}

} // verus!
