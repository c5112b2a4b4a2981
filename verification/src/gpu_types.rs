//! The records the quad pipeline writes for the GPU, block by block.

use crate::clip::{ClipMode, SpatialNodeIndex};
use crate::flags::EdgeMask;
use crate::geometry::{LayoutOrDeviceRect, Rect, ScaleOffset};
use crate::pattern::{ColorU, Pattern, RenderTaskId};
use vstd::prelude::*;

verus! {

/// Number of blocks of a primitive record without segments.
pub const QUAD_PRIMITIVE_BLOCKS: usize = 5;

/// Number of blocks of one segment.
pub const QUAD_SEGMENT_BLOCKS: usize = 2;

/// Place of a record in a GPU buffer: the index of its first block.
#[derive(Clone, Copy, Debug, PartialEq, Eq, Structural)]
pub struct GpuBufferAddress {
    pub index: usize,
}

/// A transform known to the GPU, named by what it relates. The device
/// pixel scale meant by the scaled forms is the one of the frame.
#[derive(Clone, Copy, Debug, PartialEq, Eq, Structural)]
pub enum GpuTransformId {
    Identity,
    /// From `from` to `to`, then scaled to device pixels.
    PostScale { from: SpatialNodeIndex, to: SpatialNodeIndex },
    /// Scaled back from device pixels, then from `from` to `to`.
    PreScale { from: SpatialNodeIndex, to: SpatialNodeIndex },
    /// From `from` to `to`.
    Relative { from: SpatialNodeIndex, to: SpatialNodeIndex },
}

/// The transform from a quad's geometry to the sample space of its pattern.
#[derive(Clone, Copy, Debug, PartialEq, Eq, Structural)]
pub enum PatternTransform {
    Identity,
    /// The inverse of the given transform.
    InverseOf(ScaleOffset),
}

/// One block of a GPU buffer.
#[derive(Clone, Copy, Debug, PartialEq, Eq, Structural)]
pub enum GpuBlock {
    Rect(Rect),
    Transform(PatternTransform),
    /// A colour, premultiplied by whoever encodes the block.
    Color(ColorU),
    /// A render task reference, followed by three zeros.
    Task(RenderTaskId),
    Values(i32, i32, i32, i32),
    /// A clip mode, followed by three zeros.
    Mode(ClipMode),
}

/// A part of a quad: its rectangle and the render task that holds its
/// pixels. The invalid task means that the part is drawn directly.
#[derive(Clone, Copy, Debug, PartialEq, Eq, Structural)]
pub struct QuadSegment {
    pub rect: LayoutOrDeviceRect,
    pub task_id: RenderTaskId,
}

/// The head of a primitive record.
#[derive(Clone, Copy, Debug, PartialEq, Eq, Structural)]
pub struct QuadPrimitive {
    pub bounds: LayoutOrDeviceRect,
    pub clip: LayoutOrDeviceRect,
    pub input_task: RenderTaskId,
    pub pattern_scale_offset: PatternTransform,
    pub color: ColorU,
}

/// The blocks of a primitive record: bounds, clip, pattern transform,
/// colour and input task, then for each segment its rectangle and its task.
pub open spec fn prim_blocks(prim: QuadPrimitive, segments: Seq<QuadSegment>) -> Seq<GpuBlock> {
    Seq::new(
        (QUAD_PRIMITIVE_BLOCKS + QUAD_SEGMENT_BLOCKS * segments.len()) as nat,
        |i: int|
            if i == 0 {
                GpuBlock::Rect(prim.bounds)
            } else if i == 1 {
                GpuBlock::Rect(prim.clip)
            } else if i == 2 {
                GpuBlock::Transform(prim.pattern_scale_offset)
            } else if i == 3 {
                GpuBlock::Color(prim.color)
            } else if i == 4 {
                GpuBlock::Task(prim.input_task)
            } else if (i - 5) % 2 == 0 {
                GpuBlock::Rect(segments[(i - 5) / 2].rect)
            } else {
                GpuBlock::Task(segments[(i - 5) / 2].task_id)
            },
    )
}

/// A GPU buffer under construction. Records are appended; the address of
/// a record is the number of blocks written before it.
pub struct GpuBufferBuilderF {
    pub blocks: Vec<GpuBlock>,
}

impl View for GpuBufferBuilderF {
    type V = Seq<GpuBlock>;

    open spec fn view(&self) -> Seq<GpuBlock> {
        self.blocks@
    }
}

impl GpuBufferBuilderF {
    pub fn new() -> (b: GpuBufferBuilderF)
        ensures
            b@ == Seq::<GpuBlock>::empty(),
    {
        GpuBufferBuilderF { blocks: Vec::new() }
    }
}

/// The head of the record of a quad whose geometry is `local_rect` under
/// the clip `local_clip_rect`. With a transform to device space the record
/// is in device space, clipped to `device_clip_rect`, and the pattern
/// transform leads back; without one it stays in layout space.
pub open spec fn quad_primitive(
    local_rect: Rect,
    local_clip_rect: Rect,
    device_clip_rect: Rect,
    local_to_device: Option<ScaleOffset>,
    pattern: Pattern,
) -> QuadPrimitive {
    match local_to_device {
        Some(t) => QuadPrimitive {
            bounds: t.spec_map_rect(local_rect),
            clip: t.spec_map_rect(local_clip_rect).spec_intersection_unchecked(device_clip_rect),
            input_task: pattern.texture_input.task_id,
            pattern_scale_offset: PatternTransform::InverseOf(t),
            color: pattern.base_color,
        },
        None => QuadPrimitive {
            bounds: local_rect,
            clip: local_clip_rect,
            input_task: pattern.texture_input.task_id,
            pattern_scale_offset: PatternTransform::Identity,
            color: pattern.base_color,
        },
    }
}

/// Builds the head of a quad's record, in device space when a transform
/// to it is given and in layout space otherwise.
pub fn create_quad_primitive(
    local_rect: &Rect,
    local_clip_rect: &Rect,
    device_clip_rect: &Rect,
    local_to_device: Option<&ScaleOffset>,
    pattern: &Pattern,
) -> (prim: QuadPrimitive)
    ensures
        prim == quad_primitive(
            *local_rect,
            *local_clip_rect,
            *device_clip_rect,
            match local_to_device {
                Some(t) => Some(*t),
                None => None,
            },
            *pattern,
        ),
{
    match local_to_device {
        Some(local_to_device) => {
            let prim_rect = local_to_device.map_rect(local_rect);
            let prim_clip_rect = local_to_device.map_rect(local_clip_rect).intersection_unchecked(
                device_clip_rect,
            );
            QuadPrimitive {
                bounds: prim_rect,
                clip: prim_clip_rect,
                input_task: pattern.texture_input.task_id,
                pattern_scale_offset: PatternTransform::InverseOf(*local_to_device),
                color: pattern.base_color,
            }
        },
        None => QuadPrimitive {
            bounds: *local_rect,
            clip: *local_clip_rect,
            input_task: pattern.texture_input.task_id,
            pattern_scale_offset: PatternTransform::Identity,
            color: pattern.base_color,
        },
    }
}

/// The head of the record that `write_prim_blocks` writes. It differs from
/// `quad_primitive` in device space: each edge in `round_edges` of the clip
/// is the edge of the bounds.
pub open spec fn written_quad_primitive(
    local_rect: Rect,
    local_clip_rect: Rect,
    device_clip_rect: Rect,
    local_to_device: Option<ScaleOffset>,
    round_edges: EdgeMask,
    pattern: Pattern,
) -> QuadPrimitive {
    let prim = quad_primitive(local_rect, local_clip_rect, device_clip_rect, local_to_device, pattern);
    match local_to_device {
        Some(t) => QuadPrimitive { clip: round_edges.spec_select(prim.bounds, prim.clip), ..prim },
        None => prim,
    }
}

/// Writes the record of a quad without segments, in device space when a
/// transform to it is given and in layout space otherwise.
pub fn write_prim_blocks(
    builder: &mut GpuBufferBuilderF,
    local_rect: &Rect,
    local_clip_rect: &Rect,
    device_clip_rect: &Rect,
    local_to_device: Option<&ScaleOffset>,
    round_edges: EdgeMask,
    pattern: &Pattern,
) -> (address: GpuBufferAddress)
    ensures
        address.index == old(builder)@.len(),
        final(builder)@ == old(builder)@ + prim_blocks(
            written_quad_primitive(
                *local_rect,
                *local_clip_rect,
                *device_clip_rect,
                match local_to_device {
                    Some(t) => Some(*t),
                    None => None,
                },
                round_edges,
                *pattern,
            ),
            Seq::empty(),
        ),
{
    let prim = create_quad_primitive(
        local_rect,
        local_clip_rect,
        device_clip_rect,
        local_to_device,
        pattern,
    );
    let prim_clip_rect = match local_to_device {
        Some(_) => round_edges.select(prim.bounds, prim.clip),
        None => prim.clip,
    };
    let segments: Vec<QuadSegment> = Vec::new();
    write_prim_blocks_impl(
        builder,
        prim.bounds,
        prim_clip_rect,
        pattern.base_color,
        pattern.texture_input.task_id,
        &segments,
        prim.pattern_scale_offset,
    )
}

/// Write the gpu blocks for a primitive in device space.
pub fn write_device_prim_blocks(
    builder: &mut GpuBufferBuilderF,
    prim_rect: &Rect,
    clip_rect: &Rect,
    pattern_base_color: ColorU,
    pattern_texture_input: RenderTaskId,
    segments: &Vec<QuadSegment>,
    pattern_scale_offset: PatternTransform,
) -> (address: GpuBufferAddress)
    ensures
        address.index == old(builder)@.len(),
        final(builder)@ == old(builder)@ + prim_blocks(
            QuadPrimitive {
                bounds: *prim_rect,
                clip: *clip_rect,
                input_task: pattern_texture_input,
                pattern_scale_offset,
                color: pattern_base_color,
            },
            segments@,
        ),
{
    write_prim_blocks_impl(
        builder,
        *prim_rect,
        *clip_rect,
        pattern_base_color,
        pattern_texture_input,
        segments,
        pattern_scale_offset,
    )
}

/// Write the gpu blocks for a primitive in layout space.
pub fn write_layout_prim_blocks(
    builder: &mut GpuBufferBuilderF,
    prim_rect: &Rect,
    clip_rect: &Rect,
    pattern_base_color: ColorU,
    pattern_texture_input: RenderTaskId,
    segments: &Vec<QuadSegment>,
) -> (address: GpuBufferAddress)
    ensures
        address.index == old(builder)@.len(),
        final(builder)@ == old(builder)@ + prim_blocks(
            QuadPrimitive {
                bounds: *prim_rect,
                clip: *clip_rect,
                input_task: pattern_texture_input,
                pattern_scale_offset: PatternTransform::Identity,
                color: pattern_base_color,
            },
            segments@,
        ),
{
    write_prim_blocks_impl(
        builder,
        *prim_rect,
        *clip_rect,
        pattern_base_color,
        pattern_texture_input,
        segments,
        PatternTransform::Identity,
    )
}

/// Appends the record of a quad and its segments.
pub fn write_prim_blocks_impl(
    builder: &mut GpuBufferBuilderF,
    prim_rect: LayoutOrDeviceRect,
    clip_rect: LayoutOrDeviceRect,
    pattern_base_color: ColorU,
    pattern_texture_input: RenderTaskId,
    segments: &Vec<QuadSegment>,
    pattern_scale_offset: PatternTransform,
) -> (address: GpuBufferAddress)
    ensures
        address.index == old(builder)@.len(),
        final(builder)@ == old(builder)@ + prim_blocks(
            QuadPrimitive {
                bounds: prim_rect,
                clip: clip_rect,
                input_task: pattern_texture_input,
                pattern_scale_offset,
                color: pattern_base_color,
            },
            segments@,
        ),
        final(builder)@.len() == old(builder)@.len() + QUAD_PRIMITIVE_BLOCKS + QUAD_SEGMENT_BLOCKS
            * segments@.len(),
{
    let ghost before = builder@;
    let ghost prim = QuadPrimitive {
        bounds: prim_rect,
        clip: clip_rect,
        input_task: pattern_texture_input,
        pattern_scale_offset,
        color: pattern_base_color,
    };
    let ghost blocks = prim_blocks(prim, segments@);
    let address = GpuBufferAddress { index: builder.blocks.len() };
    builder.blocks.push(GpuBlock::Rect(prim_rect));
    builder.blocks.push(GpuBlock::Rect(clip_rect));
    builder.blocks.push(GpuBlock::Transform(pattern_scale_offset));
    builder.blocks.push(GpuBlock::Color(pattern_base_color));
    builder.blocks.push(GpuBlock::Task(pattern_texture_input));
    assert(builder@ =~= before + blocks.take(5));
    let mut i: usize = 0;
    while i < segments.len()
        invariant
            i <= segments.len(),
            blocks == prim_blocks(prim, segments@),
            builder@ == before + blocks.take(5 + 2 * i),
        decreases segments.len() - i,
    {
        let segment = segments[i];
        builder.blocks.push(GpuBlock::Rect(segment.rect));
        builder.blocks.push(GpuBlock::Task(segment.task_id));
        assert(builder@ =~= before + blocks.take(5 + 2 * (i + 1))) by {
            assert((2 * i) % 2 == 0 && (2 * i) / 2 == i);
            assert((2 * i + 1) % 2 == 1 && (2 * i + 1) / 2 == i);
        }
        i += 1;
    }
    assert(blocks.take(blocks.len() as int) =~= blocks);
    address
}

} // verus!
