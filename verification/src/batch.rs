//! Splitting a finished quad instance into GPU batch entries: anti-aliased
//! edges are drawn as strips that blend, so that the interior can stay in
//! an opaque batch.

use crate::flags::{EdgeMask, QuadFlags};
use crate::gpu_types::{GpuBufferAddress, GpuTransformId};
use crate::pattern::{PatternKind, PatternShaderInput, RenderTaskId};
use vstd::prelude::*;

verus! {

/// The interior of a quad, inside its anti-aliased strips.
pub const PART_CENTER: u8 = 0;

/// The strip along the left edge.
pub const PART_LEFT: u8 = 1;

/// The strip along the top edge.
pub const PART_TOP: u8 = 2;

/// The strip along the right edge.
pub const PART_RIGHT: u8 = 3;

/// The strip along the bottom edge.
pub const PART_BOTTOM: u8 = 4;

/// The whole quad.
pub const PART_ALL: u8 = 5;

/// How an instance is combined with what is below it.
#[derive(Clone, Copy, Debug, PartialEq, Eq, Structural)]
pub enum BlendMode {
    /// No blending: the instance replaces what is below it.
    NoBlending,
    PremultipliedAlpha,
}

/// The primitive kind of a batch.
#[derive(Clone, Copy, Debug, PartialEq, Eq, Structural)]
pub enum BatchKind {
    Quad(PatternKind),
}

/// A texture that a batch binds.
#[derive(Clone, Copy, Debug, PartialEq, Eq, Structural)]
pub enum TextureSource {
    Invalid,
    TextureCache { id: u32 },
}

/// The textures bound by a batch.
#[derive(Clone, Copy, Debug, PartialEq, Eq, Structural)]
pub struct BatchTextures {
    pub color: TextureSource,
    pub mask: TextureSource,
}

/// What instances must share to be drawn in one batch.
#[derive(Clone, Copy, Debug, PartialEq, Eq, Structural)]
pub struct BatchKey {
    pub blend_mode: BlendMode,
    pub kind: BatchKind,
    pub textures: BatchTextures,
}

/// Place of a render task in the task data of the GPU.
#[derive(Clone, Copy, Debug, PartialEq, Eq, Structural)]
pub struct RenderTaskAddress {
    pub index: i32,
}

/// A depth value.
#[derive(Clone, Copy, Debug, PartialEq, Eq, Structural)]
pub struct ZBufferId {
    pub id: i32,
}

/// The integer record of a quad instance.
#[derive(Clone, Copy, Debug, PartialEq, Eq, Structural)]
pub struct QuadHeader {
    pub transform_id: GpuTransformId,
    pub z_id: ZBufferId,
    pub pattern_input: PatternShaderInput,
}

/// One instance of a quad draw.
#[derive(Clone, Copy, Debug, PartialEq, Eq, Structural)]
pub struct QuadInstance {
    pub dst_task_address: RenderTaskAddress,
    pub prim_address_i: GpuBufferAddress,
    pub prim_address_f: GpuBufferAddress,
    pub edge_flags: EdgeMask,
    pub quad_flags: QuadFlags,
    pub part_index: u8,
    pub segment_index: u8,
}

/// An instance with the key of the batch it goes to.
#[derive(Clone, Copy, Debug, PartialEq, Eq, Structural)]
pub struct BatchEntry {
    pub key: BatchKey,
    pub instance: QuadInstance,
}

/// The integer GPU buffer under construction: one header per record.
pub struct GpuBufferBuilderI {
    pub headers: Vec<QuadHeader>,
}

/// The textures behind the render tasks of a built graph; a task without
/// a target has none.
pub struct RenderTaskGraph {
    pub textures: Vec<Option<TextureSource>>,
}

impl RenderTaskGraph {
    /// The texture behind a task, if the graph knows the task and it has
    /// one.
    pub open spec fn spec_resolve_texture(&self, task_id: RenderTaskId) -> Option<TextureSource> {
        if task_id.index < self.textures@.len() {
            self.textures@[task_id.index as int]
        } else {
            None
        }
    }

    pub fn resolve_texture(&self, task_id: RenderTaskId) -> (texture: Option<TextureSource>)
        ensures
            texture == self.spec_resolve_texture(task_id),
    {
        if task_id.index < self.textures.len() {
            self.textures[task_id.index]
        } else {
            None
        }
    }
}

/// The strip of one edge, if the edge is anti-aliased.
pub open spec fn edge_strip(wanted: bool, key: BatchKey, instance: QuadInstance, part: u8) -> Seq<
    BatchEntry,
> {
    if wanted {
        seq![BatchEntry { key, instance: QuadInstance { part_index: part, ..instance } }]
    } else {
        Seq::empty()
    }
}

/// The batch entries of an instance. Without anti-aliased edges it is one
/// entry for the whole quad, opaque if the quad is. With anti-aliased
/// edges drawn as strips it is one blended strip for each such edge, left,
/// top, right, bottom, and then the interior, opaque if the quad is.
/// Otherwise it is one blended entry for the whole quad.
pub open spec fn batch_entries(kind: PatternKind, texture: TextureSource, instance: QuadInstance) -> Seq<
    BatchEntry,
> {
    let textures = BatchTextures { color: texture, mask: TextureSource::Invalid };
    let prim_key = BatchKey {
        blend_mode: if instance.quad_flags.is_opaque {
            BlendMode::NoBlending
        } else {
            BlendMode::PremultipliedAlpha
        },
        kind: BatchKind::Quad(kind),
        textures,
    };
    let aa_key = BatchKey {
        blend_mode: BlendMode::PremultipliedAlpha,
        kind: BatchKind::Quad(kind),
        textures,
    };
    let whole = QuadInstance { part_index: PART_ALL, ..instance };
    if instance.edge_flags.spec_is_empty() {
        seq![BatchEntry { key: prim_key, instance: whole }]
    } else if instance.quad_flags.use_aa_segments {
        edge_strip(instance.edge_flags.left, aa_key, instance, PART_LEFT) + edge_strip(
            instance.edge_flags.top,
            aa_key,
            instance,
            PART_TOP,
        ) + edge_strip(instance.edge_flags.right, aa_key, instance, PART_RIGHT) + edge_strip(
            instance.edge_flags.bottom,
            aa_key,
            instance,
            PART_BOTTOM,
        ) + seq![
            BatchEntry { key: prim_key, instance: QuadInstance { part_index: PART_CENTER, ..instance } },
        ]
    } else {
        seq![BatchEntry { key: aa_key, instance: whole }]
    }
}

/// The texture that a quad samples: none for the invalid task, else the
/// one behind its source task.
pub open spec fn source_texture(render_tasks: RenderTaskGraph, src_task_id: RenderTaskId) -> TextureSource {
    if src_task_id.spec_is_valid() {
        render_tasks.spec_resolve_texture(src_task_id).unwrap()
    } else {
        TextureSource::Invalid
    }
}

/// Writes the integer record of a quad instance and appends its batch
/// entries to `batches`.
pub fn add_to_batch(
    kind: PatternKind,
    pattern_input: PatternShaderInput,
    dst_task_address: RenderTaskAddress,
    transform_id: GpuTransformId,
    prim_address_f: GpuBufferAddress,
    quad_flags: QuadFlags,
    edge_flags: EdgeMask,
    segment_index: u8,
    src_task_id: RenderTaskId,
    z_id: ZBufferId,
    render_tasks: &RenderTaskGraph,
    gpu_buffer_builder: &mut GpuBufferBuilderI,
    batches: &mut Vec<BatchEntry>,
)
    requires
        src_task_id.spec_is_valid() ==> render_tasks.spec_resolve_texture(src_task_id).is_some(),
    ensures
        final(gpu_buffer_builder).headers@ == old(gpu_buffer_builder).headers@.push(
            QuadHeader { transform_id, z_id, pattern_input },
        ),
        final(batches)@ == old(batches)@ + batch_entries(
            kind,
            source_texture(*render_tasks, src_task_id),
            QuadInstance {
                dst_task_address,
                prim_address_i: GpuBufferAddress {
                    index: old(gpu_buffer_builder).headers@.len() as usize,
                },
                prim_address_f,
                edge_flags,
                quad_flags,
                part_index: PART_ALL,
                segment_index,
            },
        ),
{
    let ghost before = batches@;
    let prim_address_i = GpuBufferAddress { index: gpu_buffer_builder.headers.len() };
    gpu_buffer_builder.headers.push(QuadHeader { transform_id, z_id, pattern_input });

    let texture = if !src_task_id.is_valid() {
        TextureSource::Invalid
    } else {
        match render_tasks.resolve_texture(src_task_id) {
            Some(texture) => texture,
            None => TextureSource::Invalid,
        }
    };
    let textures = BatchTextures { color: texture, mask: TextureSource::Invalid };
    let default_blend_mode = if quad_flags.is_opaque {
        BlendMode::NoBlending
    } else {
        BlendMode::PremultipliedAlpha
    };
    let prim_batch_key = BatchKey {
        blend_mode: default_blend_mode,
        kind: BatchKind::Quad(kind),
        textures,
    };
    let aa_batch_key = BatchKey {
        blend_mode: BlendMode::PremultipliedAlpha,
        kind: BatchKind::Quad(kind),
        textures,
    };
    let instance = QuadInstance {
        dst_task_address,
        prim_address_i,
        prim_address_f,
        edge_flags,
        quad_flags,
        part_index: PART_ALL,
        segment_index,
    };
    let ghost entries = batch_entries(kind, texture, instance);

    if edge_flags.is_empty() {
        batches.push(BatchEntry { key: prim_batch_key, instance });
        assert(batches@ =~= before + entries);
    } else if quad_flags.use_aa_segments {
        let ghost left = edge_strip(edge_flags.left, aa_batch_key, instance, PART_LEFT);
        let ghost top = edge_strip(edge_flags.top, aa_batch_key, instance, PART_TOP);
        let ghost right = edge_strip(edge_flags.right, aa_batch_key, instance, PART_RIGHT);
        let ghost bottom = edge_strip(edge_flags.bottom, aa_batch_key, instance, PART_BOTTOM);
        if edge_flags.left {
            batches.push(
                BatchEntry {
                    key: aa_batch_key,
                    instance: QuadInstance { part_index: PART_LEFT, ..instance },
                },
            );
        }
        assert(batches@ =~= before + left);
        if edge_flags.top {
            batches.push(
                BatchEntry {
                    key: aa_batch_key,
                    instance: QuadInstance { part_index: PART_TOP, ..instance },
                },
            );
        }
        assert(batches@ =~= before + (left + top));
        if edge_flags.right {
            batches.push(
                BatchEntry {
                    key: aa_batch_key,
                    instance: QuadInstance { part_index: PART_RIGHT, ..instance },
                },
            );
        }
        assert(batches@ =~= before + (left + top + right));
        if edge_flags.bottom {
            batches.push(
                BatchEntry {
                    key: aa_batch_key,
                    instance: QuadInstance { part_index: PART_BOTTOM, ..instance },
                },
            );
        }
        assert(batches@ =~= before + (left + top + right + bottom));
        batches.push(
            BatchEntry {
                key: prim_batch_key,
                instance: QuadInstance { part_index: PART_CENTER, ..instance },
            },
        );
        assert(batches@ =~= before + entries);
    } else {
        batches.push(BatchEntry { key: aa_batch_key, instance });
        assert(batches@ =~= before + entries);
    }
}

} // verus!
