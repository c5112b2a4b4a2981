//! Fill patterns: what a pattern builder hands to the quad pipeline.

use crate::geometry::DeviceRect;
use vstd::prelude::*;

verus! {

/// Index of a render task in the task graph. One reserved index stands for
/// "no task".
#[derive(Clone, Copy, Debug, PartialEq, Eq, Structural)]
pub struct RenderTaskId {
    pub index: usize,
}

/// The index that no task has.
pub const INVALID_TASK_INDEX: usize = usize::MAX;

impl RenderTaskId {
    pub open spec fn spec_invalid() -> RenderTaskId {
        RenderTaskId { index: INVALID_TASK_INDEX }
    }

    /// The reserved value for "no task".
    #[verifier::when_used_as_spec(spec_invalid)]
    pub fn invalid() -> (id: RenderTaskId)
        ensures
            id == RenderTaskId::spec_invalid(),
    {
        RenderTaskId { index: INVALID_TASK_INDEX }
    }

    pub open spec fn spec_is_valid(&self) -> bool {
        self.index != INVALID_TASK_INDEX
    }

    #[verifier::when_used_as_spec(spec_is_valid)]
    pub fn is_valid(&self) -> (r: bool)
        ensures
            r == self.spec_is_valid(),
    {
        self.index != INVALID_TASK_INDEX
    }
}

/// A colour with 8-bit channels, not premultiplied.
#[derive(Clone, Copy, Debug, PartialEq, Eq, Structural)]
pub struct ColorU {
    pub r: u8,
    pub g: u8,
    pub b: u8,
    pub a: u8,
}

impl ColorU {
    pub open spec fn spec_white() -> ColorU {
        ColorU { r: 255, g: 255, b: 255, a: 255 }
    }

    /// Opaque white.
    #[verifier::when_used_as_spec(spec_white)]
    pub fn white() -> (c: ColorU)
        ensures
            c == ColorU::spec_white(),
    {
        ColorU { r: 255, g: 255, b: 255, a: 255 }
    }
}

/// Which shader family draws a pattern.
#[derive(Clone, Copy, Debug, PartialEq, Eq, Structural)]
pub enum PatternKind {
    ColorOrTexture,
    Gradient,
    Mask,
}

/// Two integers handed to the pattern's shader untouched.
#[derive(Clone, Copy, Debug, PartialEq, Eq, Structural)]
pub struct PatternShaderInput {
    pub first: i32,
    pub second: i32,
}

/// The render task a pattern samples from, if any.
#[derive(Clone, Copy, Debug, PartialEq, Eq, Structural)]
pub struct PatternTextureInput {
    pub task_id: RenderTaskId,
}

/// A fill source for a quad.
#[derive(Clone, Copy, Debug, PartialEq, Eq, Structural)]
pub struct Pattern {
    pub kind: PatternKind,
    pub shader_input: PatternShaderInput,
    pub texture_input: PatternTextureInput,
    pub base_color: ColorU,
    pub is_opaque: bool,
}

impl Pattern {
    pub open spec fn spec_color(color: ColorU) -> Pattern {
        Pattern {
            kind: PatternKind::ColorOrTexture,
            shader_input: PatternShaderInput { first: 0, second: 0 },
            texture_input: PatternTextureInput { task_id: RenderTaskId::spec_invalid() },
            base_color: color,
            is_opaque: color.a == 255,
        }
    }

    /// A solid colour: no texture, opaque exactly if its alpha is full.
    #[verifier::when_used_as_spec(spec_color)]
    pub fn color(color: ColorU) -> (p: Pattern)
        ensures
            p == Pattern::spec_color(color),
    {
        Pattern {
            kind: PatternKind::ColorOrTexture,
            shader_input: PatternShaderInput { first: 0, second: 0 },
            texture_input: PatternTextureInput { task_id: RenderTaskId::invalid() },
            base_color: color,
            is_opaque: color.a == 255,
        }
    }
}

/// The pattern behind an optional reference.
pub open spec fn pattern_value(pattern: Option<&Pattern>) -> Option<Pattern> {
    match pattern {
        Some(p) => Some(*p),
        None => None,
    }
}

/// The capability that yields the pattern of a primitive. `build` is asked
/// either for the whole primitive (`None`) or for one segment of it.
///
/// Nothing is promised of what an implementation answers, beyond what the
/// implementation itself says in `may_build`: the functions that ask state
/// what was asked and what holds for every answer.
pub trait PatternBuilder {
    /// Whether `pattern` is an answer that `build` may give when it is
    /// asked for `sub_rect`. An implementation that says nothing admits
    /// every answer.
    open spec fn may_build(&self, sub_rect: Option<DeviceRect>, pattern: Pattern) -> bool {
        true
    }

    fn build(&self, sub_rect: Option<DeviceRect>) -> (pattern: Pattern)
        ensures
            self.may_build(sub_rect, pattern),
    ;

    fn get_base_color(&self) -> ColorU;

    /// Whether one pattern serves all segments of a primitive.
    fn use_shared_pattern(&self) -> bool;

    /// Whether the primitive may be drawn as a nine-patch.
    fn can_use_nine_patch(&self) -> bool;
}

/// The builder of a solid colour fill.
pub struct SolidColor {
    pub color: ColorU,
}

impl PatternBuilder for SolidColor {
    open spec fn may_build(&self, sub_rect: Option<DeviceRect>, pattern: Pattern) -> bool {
        pattern == Pattern::spec_color(self.color)
    }

    fn build(&self, sub_rect: Option<DeviceRect>) -> (pattern: Pattern) {
        Pattern::color(self.color)
    }

    fn get_base_color(&self) -> (c: ColorU)
        ensures
            c == self.color,
    {
        self.color
    }

    fn use_shared_pattern(&self) -> (b: bool)
        ensures
            b,
    {
        true
    }

    fn can_use_nine_patch(&self) -> (b: bool)
        ensures
            b,
    {
        true
    }
}

} // verus!
