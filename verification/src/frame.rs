//! The presentation-side resources: the surface configuration, the
//! multisampled color and depth/stencil targets, and the uniform buffers.
//!
//! A reconfiguration with a zero dimension is rejected and leaves every
//! resource exactly as it was. A valid reconfiguration stores the new
//! dimensions (the exact aspect ratio of the surface), rebuilds both
//! render targets at the new size, and rewrites the projection uniform
//! from the inverse-aspect word computed at the boundary. Uniform writes
//! are partial and never reallocate: a write replaces a prefix of the
//! buffer and keeps its length.

use vstd::prelude::*;
use crate::errors::ConfigError;
use crate::geometry::Rot2;
use crate::scalar::{WORD_ONE, WORD_ZERO};
use crate::uniforms::{create_ortho_project_matrix, create_rotation_matrix, initial_feather_words, ortho_words, rotation_record_words, FeathersUniform};

verus! {

/// The sample count of the multisampled targets.
pub const SAMPLE_COUNT: u32 = 4;

/// The word length of the shading-parameter buffer.
pub const FEATHER_BUF_WORDS: usize = 8;

/// The word length of the rotation-matrix buffer.
pub const MAT_BUF_WORDS: usize = 16;

/// The word length of the projection buffer.
pub const MVP_BUF_WORDS: usize = 16;

/// The pixel format of a render target: the surface's own color format,
/// or the combined 24-bit depth and 8-bit stencil format.
#[derive(Clone, Copy, PartialEq, Eq, Structural, Debug)]
pub enum TargetFormat {
    Surface,
    Depth24PlusStencil8,
}

/// A render target's description: its dimensions, sample count and
/// format.
#[derive(Clone, Copy, PartialEq, Eq, Structural, Debug)]
pub struct TargetDesc {
    pub width: u32,
    pub height: u32,
    pub sample_count: u32,
    pub format: TargetFormat,
}

/// The three uniform buffers, named by the bind group each feeds: the
/// shading parameters at group zero, the rotation matrix at group one,
/// the projection at group two.
#[derive(Clone, Copy, PartialEq, Eq, Structural, Debug)]
pub enum UniformSlot {
    Feather,
    Mat,
    Mvp,
}

/// The presentation resources: surface dimensions, both render targets,
/// and the three uniform buffers as word images.
pub struct FrameResources {
    pub width: u32,
    pub height: u32,
    pub configured: bool,
    pub color_target: TargetDesc,
    pub depth_target: TargetDesc,
    pub target_epoch: u64,
    pub feather_buf: Vec<u32>,
    pub mat_buf: Vec<u32>,
    pub mvp_buf: Vec<u32>,
}

/// A counter bumped by one until it would overflow.
pub open spec fn bumped(e: u64) -> u64 {
    if e < u64::MAX { (e + 1) as u64 } else { e }
}

/// One uniform bind group of the pipeline layout: its group index, the
/// binding index inside it, and which shader stages see it.
#[derive(Clone, Copy, PartialEq, Eq, Structural, Debug)]
pub struct BindGroupDesc {
    pub group: u32,
    pub binding: u32,
    pub visible_to_vertex: bool,
    pub visible_to_fragment: bool,
}

/// The frozen uniform binding contract of the pipeline: the shading
/// parameters at group zero and the rotation matrix at group one, both
/// visible to every stage, and the projection at group two, visible to
/// the vertex stage only; each at binding zero inside its group.
pub fn uniform_bind_groups() -> (v: Vec<BindGroupDesc>)
    ensures
        v@.len() == 3,
        v@[0] == (BindGroupDesc { group: 0, binding: 0, visible_to_vertex: true, visible_to_fragment: true }),
        v@[1] == (BindGroupDesc { group: 1, binding: 0, visible_to_vertex: true, visible_to_fragment: true }),
        v@[2] == (BindGroupDesc { group: 2, binding: 0, visible_to_vertex: true, visible_to_fragment: false }),
{
    let mut v: Vec<BindGroupDesc> = Vec::new();
    v.push(BindGroupDesc { group: 0, binding: 0, visible_to_vertex: true, visible_to_fragment: true });
    v.push(BindGroupDesc { group: 1, binding: 0, visible_to_vertex: true, visible_to_fragment: true });
    v.push(BindGroupDesc { group: 2, binding: 0, visible_to_vertex: true, visible_to_fragment: false });
    v
}

/// The frozen pipeline contract around the shader text: the entry-point
/// names the shader must declare, the formats of the two targets, the
/// depth comparison, and the sample count.
#[derive(Clone, Copy, Debug)]
pub struct PipelineDesc {
    pub vertex_entry: &'static str,
    pub fragment_entry: &'static str,
    pub color_format: TargetFormat,
    pub depth_format: TargetFormat,
    pub depth_compare_less: bool,
    pub sample_count: u32,
}

/// The one render pipeline of the pass: vertex entry `vs_main` and
/// fragment entry `fs_main`, colors in the surface's own format, depth
/// and stencil in the combined format compared with less-than, at the
/// fixed sample count.
pub fn pipeline_desc() -> (r: PipelineDesc)
    ensures
        r.vertex_entry@ == "vs_main"@,
        r.fragment_entry@ == "fs_main"@,
        r.color_format == TargetFormat::Surface,
        r.depth_format == TargetFormat::Depth24PlusStencil8,
        r.depth_compare_less,
        r.sample_count == SAMPLE_COUNT,
{
    PipelineDesc {
        vertex_entry: "vs_main",
        fragment_entry: "fs_main",
        color_format: TargetFormat::Surface,
        depth_format: TargetFormat::Depth24PlusStencil8,
        depth_compare_less: true,
        sample_count: SAMPLE_COUNT,
    }
}

/// Picks the surface format: the first format flagged as sRGB, and the
/// first offered format when none is.
pub fn select_surface_format(is_srgb: &Vec<bool>) -> (r: usize)
    ensures
        (exists|i: int| 0 <= i < is_srgb@.len() && is_srgb@[i]) ==> {
            &&& r < is_srgb@.len()
            &&& is_srgb@[r as int]
            &&& forall|j: int| 0 <= j < r ==> !is_srgb@[j]
        },
        !(exists|i: int| 0 <= i < is_srgb@.len() && is_srgb@[i]) ==> r == 0,
{
    let n: usize = is_srgb.len();
    let mut i: usize = 0;
    while i < n
        invariant
            n == is_srgb@.len(),
            i <= n,
            forall|j: int| 0 <= j < i ==> !is_srgb@[j],
        decreases n - i,
    {
        if is_srgb[i] {
            return i;
        }
        i = i + 1;
    }
    0
}

/// Overwrites a prefix of a buffer in place: the written words replace
/// the first `words.len()` entries, the rest and the length are kept.
fn overwrite_prefix(buf: &mut Vec<u32>, words: &Vec<u32>)
    requires
        words@.len() <= old(buf)@.len(),
    ensures
        final(buf)@ == words@ + old(buf)@.skip(words@.len() as int),
        final(buf)@.len() == old(buf)@.len(),
{
    let n: usize = words.len();
    let mut i: usize = 0;
    while i < n
        invariant
            n == words@.len(),
            i <= n,
            n <= buf@.len(),
            buf@.len() == old(buf)@.len(),
            buf@ == words@.take(i as int) + old(buf)@.skip(i as int),
        decreases n - i,
    {
        buf.set(i, words[i]);
        proof {
            assert(buf@ =~= words@.take(i + 1) + old(buf)@.skip(i + 1));
        }
        i = i + 1;
    }
    proof {
        assert(words@.take(n as int) =~= words@);
    }
}

impl FrameResources {
    /// Well-formedness: the uniform buffers have their frozen lengths,
    /// and once configured both targets match the surface dimensions at
    /// the fixed sample count, which are not zero.
    pub open spec fn wf(self) -> bool {
        &&& self.feather_buf@.len() == FEATHER_BUF_WORDS
        &&& self.mat_buf@.len() == MAT_BUF_WORDS
        &&& self.mvp_buf@.len() == MVP_BUF_WORDS
        &&& self.configured ==> {
            &&& self.width > 0
            &&& self.height > 0
            &&& self.color_target == (TargetDesc { width: self.width, height: self.height, sample_count: SAMPLE_COUNT, format: TargetFormat::Surface })
            &&& self.depth_target == (TargetDesc { width: self.width, height: self.height, sample_count: SAMPLE_COUNT, format: TargetFormat::Depth24PlusStencil8 })
        }
    }

    /// The word image of a slot's buffer.
    pub open spec fn slot_words(self, slot: UniformSlot) -> Seq<u32> {
        match slot {
            UniformSlot::Feather => self.feather_buf@,
            UniformSlot::Mat => self.mat_buf@,
            UniformSlot::Mvp => self.mvp_buf@,
        }
    }

    /// Unconfigured resources with the initial uniform contents: the
    /// initial shading parameters, the identity rotation record at angle
    /// zero, and the projection of a square surface (inverse aspect one).
    pub fn new() -> (r: FrameResources)
        ensures
            r.wf(),
            !r.configured,
            r.width == 0,
            r.height == 0,
            r.target_epoch == 0,
            r.feather_buf@ == initial_feather_words(),
            r.mat_buf@ == rotation_record_words(WORD_ZERO, Rot2 { cos: WORD_ONE, sin: WORD_ZERO }),
            r.mvp_buf@ == ortho_words(WORD_ONE),
    {
        let feather = FeathersUniform::initial();
        let mat_record = create_rotation_matrix(WORD_ZERO, Rot2::identity());
        let r = FrameResources {
            width: 0,
            height: 0,
            configured: false,
            color_target: TargetDesc { width: 0, height: 0, sample_count: SAMPLE_COUNT, format: TargetFormat::Surface },
            depth_target: TargetDesc { width: 0, height: 0, sample_count: SAMPLE_COUNT, format: TargetFormat::Depth24PlusStencil8 },
            target_epoch: 0,
            feather_buf: feather.to_words(),
            mat_buf: mat_record.to_words(),
            mvp_buf: create_ortho_project_matrix(WORD_ONE),
        };
        proof {
            assert(r.feather_buf@ =~= initial_feather_words());
            assert(r.mat_buf@ =~= rotation_record_words(WORD_ZERO, Rot2 { cos: WORD_ONE, sin: WORD_ZERO }));
        }
        r
    }

    /// Reconfigures the surface. A zero dimension is rejected and leaves
    /// everything exactly as it was. Otherwise the dimensions are stored,
    /// both targets are rebuilt at the new size, and the projection
    /// uniform is rewritten from the inverse-aspect word the boundary
    /// computed for the new dimensions; the other uniforms are untouched.
    pub fn configure(&mut self, width: u32, height: u32, inv_aspect: u32) -> (r: Result<(), ConfigError>)
        requires
            old(self).wf(),
        ensures
            final(self).wf(),
            r is Ok <==> width > 0 && height > 0,
            r is Err ==> *final(self) == *old(self) && r == Err::<(), ConfigError>(ConfigError::InvalidSurfaceSize),
            r is Ok ==> {
                &&& final(self).width == width
                &&& final(self).height == height
                &&& final(self).configured
                &&& final(self).color_target == (TargetDesc { width, height, sample_count: SAMPLE_COUNT, format: TargetFormat::Surface })
                &&& final(self).depth_target == (TargetDesc { width, height, sample_count: SAMPLE_COUNT, format: TargetFormat::Depth24PlusStencil8 })
                &&& final(self).target_epoch == bumped(old(self).target_epoch)
                &&& final(self).mvp_buf@ == ortho_words(inv_aspect)
                &&& final(self).feather_buf@ == old(self).feather_buf@
                &&& final(self).mat_buf@ == old(self).mat_buf@
            },
    {
        if width == 0 || height == 0 {
            return Err(ConfigError::InvalidSurfaceSize);
        }
        self.width = width;
        self.height = height;
        self.configured = true;
        self.color_target = TargetDesc { width, height, sample_count: SAMPLE_COUNT, format: TargetFormat::Surface };
        self.depth_target = TargetDesc { width, height, sample_count: SAMPLE_COUNT, format: TargetFormat::Depth24PlusStencil8 };
        if self.target_epoch < u64::MAX {
            self.target_epoch = self.target_epoch + 1;
        }
        self.mvp_buf = create_ortho_project_matrix(inv_aspect);
        Ok(())
    }

    /// Partially updates a uniform buffer in place, at word offset zero:
    /// the written words replace a prefix, the rest of the buffer and its
    /// length are kept, and no other resource changes.
    pub fn write_uniform(&mut self, slot: UniformSlot, words: &Vec<u32>)
        requires
            old(self).wf(),
            words@.len() <= old(self).slot_words(slot).len(),
        ensures
            final(self).wf(),
            final(self).slot_words(slot) == words@ + old(self).slot_words(slot).skip(words@.len() as int),
            forall|other: UniformSlot| other != slot
                ==> #[trigger] final(self).slot_words(other) == old(self).slot_words(other),
            final(self).width == old(self).width,
            final(self).height == old(self).height,
            final(self).configured == old(self).configured,
            final(self).color_target == old(self).color_target,
            final(self).depth_target == old(self).depth_target,
            final(self).target_epoch == old(self).target_epoch,
    {
        match slot {
            UniformSlot::Feather => overwrite_prefix(&mut self.feather_buf, words),
            UniformSlot::Mat => overwrite_prefix(&mut self.mat_buf, words),
            UniformSlot::Mvp => overwrite_prefix(&mut self.mvp_buf, words),
        }
    }
}

} // verus!
