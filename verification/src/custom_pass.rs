//! The render pass: the quads of the scene, the vertices drawn for them,
//! the parameters handed to the shader and the bookkeeping of one frame.
//!
//! Coordinates and the other real-valued parameters are carried as the bit
//! patterns of IEEE 754 single-precision numbers. Nothing here computes
//! with them; they are only stored, copied and laid out for the buffers.

use amethyst_rendy::rendy::graph::render::PrepareResult;
use amethyst_rendy::ChangeDetection;
use core::ops::Range;
use vstd::prelude::*;

verus! {

/// Bit pattern of the number 0.
pub const ZERO: u32 = 0;

/// Bit pattern of the number 1.
pub const ONE: u32 = 0x3f80_0000;

/// Bit pattern of the number -1.
pub const MINUS_ONE: u32 = 0xbf80_0000;

/// The iteration limit that the shader starts with.
pub const INITIAL_MAX_ITERS: i32 = 100;

/// The least iteration limit that is ever stored.
pub const MIN_MAX_ITERS: i32 = 10;

/// Number of vertices drawn for one quad.
pub const QUAD_VERTICES: usize = 4;

/// One vertex as the vertex shader reads it.
#[derive(Clone, Copy, Debug)]
pub struct CustomArgs {
    /// Position, x then y.
    pub pos: [u32; 2],
}

/// The parameters that every invocation of the shader shares.
#[derive(Clone, Copy, Debug)]
pub struct CustomUniformArgs {
    /// Side length of one unit of the view.
    pub scale: u32,
    /// Centre of the view, x then y.
    pub offset: [u32; 2],
    /// Width of the window divided by its height.
    pub aspect_ratio: u32,
    /// Number of iterations after which the shader gives up on a point.
    pub max_iters: i32,
}

impl CustomUniformArgs {
    /// The parameters at the start: scale 1, centred on the origin, with
    /// the window's aspect ratio and the initial iteration limit.
    pub open spec fn initial(aspect_ratio: u32) -> CustomUniformArgs {
        CustomUniformArgs {
            scale: ONE,
            offset: [ZERO, ZERO],
            aspect_ratio,
            max_iters: INITIAL_MAX_ITERS,
        }
    }

    /// The iteration limit that is stored when `scaled` is asked for.
    pub open spec fn bounded_iters(scaled: i32) -> i32 {
        if scaled < MIN_MAX_ITERS {
            MIN_MAX_ITERS
        } else {
            scaled
        }
    }

    /// Stores `scaled` as the iteration limit, or the least limit where
    /// `scaled` lies below it.
    pub fn set_max_iters(&mut self, scaled: i32)
        ensures
            *final(self) == (CustomUniformArgs {
                max_iters: Self::bounded_iters(scaled),
                ..*old(self)
            }),
    {
        self.max_iters = if scaled < MIN_MAX_ITERS {
            MIN_MAX_ITERS
        } else {
            scaled
        };
    }
}

/// A quad of the scene: four points, x then y each, in the order in which a
/// triangle strip runs through them.
#[derive(Clone, Copy, Debug)]
pub struct Quad {
    pub points: [[u32; 2]; 4],
}

impl Default for Quad {
    /// The quad whose four points lie on the origin.
    fn default() -> (quad: Quad)
        ensures
            quad.points == [[ZERO, ZERO], [ZERO, ZERO], [ZERO, ZERO], [ZERO, ZERO]],
    {
        Quad { points: [[ZERO, ZERO], [ZERO, ZERO], [ZERO, ZERO], [ZERO, ZERO]] }
    }
}

impl Quad {
    /// The quad that spans the whole view, from -1 to 1 on both axes.
    pub open spec fn full_view() -> Quad {
        Quad {
            points: [[MINUS_ONE, MINUS_ONE], [MINUS_ONE, ONE], [ONE, MINUS_ONE], [ONE, ONE]],
        }
    }

    /// The vertices of the quad: one for each point, in the order of the
    /// points.
    pub open spec fn args(self) -> Seq<CustomArgs> {
        Seq::new(QUAD_VERTICES as nat, |i: int| CustomArgs { pos: self.points@[i] })
    }

    /// Lists the vertices of the quad.
    pub fn get_args(&self) -> (vertices: Vec<CustomArgs>)
        ensures
            vertices@ == self.args(),
    {
        let mut vertices: Vec<CustomArgs> = Vec::new();
        for i in 0..QUAD_VERTICES
            invariant
                vertices@.len() == i,
                forall|j: int| 0 <= j < i ==> vertices@[j] == (CustomArgs { pos: self.points@[j] }),
        {
            vertices.push(CustomArgs { pos: self.points[i] });
        }
        vertices
    }
}

/// The vertex buffer for `quads`: the vertices of the first quad, then those
/// of the second, and so on.
pub open spec fn vertex_data(quads: Seq<Quad>) -> Seq<CustomArgs> {
    Seq::new(
        QUAD_VERTICES as nat * quads.len(),
        |k: int| quads[k / QUAD_VERTICES as int].args()[k % QUAD_VERTICES as int],
    )
}

/// `amethyst_rendy::ChangeDetection`, which remembers under which frame
/// index the draw commands were last found changed. It is declared without
/// `external_body`, so that Verus reads its variants, `Stable` and
/// `Changed(usize)`, from the crate itself.
#[verifier::external_type_specification]
pub struct ExChangeDetection(ChangeDetection);

/// `rendy::graph::render::PrepareResult`, which tells the render graph to
/// record the draw commands anew or to use the recorded ones again. It is
/// declared without `external_body`, so that Verus reads its variants,
/// `DrawRecord` and `DrawReuse`, from the crate itself.
#[verifier::external_type_specification]
pub struct ExPrepareResult(PrepareResult);

/// Whether the commands recorded for frame `index` can be used again.
pub open spec fn reusable(change: ChangeDetection, index: usize, changed: bool) -> bool {
    !changed && match change {
        ChangeDetection::Stable => true,
        ChangeDetection::Changed(at) => at == index,
    }
}

/// What is remembered after frame `index` was prepared.
pub open spec fn change_after(change: ChangeDetection, index: usize, changed: bool) -> ChangeDetection {
    if changed {
        ChangeDetection::Changed(index)
    } else if change == ChangeDetection::Changed(index) {
        ChangeDetection::Stable
    } else {
        change
    }
}

/// What the render graph is told after frame `index` was prepared.
pub open spec fn result_after(change: ChangeDetection, index: usize, changed: bool) -> PrepareResult {
    if reusable(change, index, changed) {
        PrepareResult::DrawReuse
    } else {
        PrepareResult::DrawRecord
    }
}

/// `ChangeDetection::prepare_result`. A change is remembered under the
/// index of its frame and has the commands recorded anew. Without a change,
/// the recorded commands are used again if no change is remembered or if
/// the remembered one belongs to this very index, which is then forgotten;
/// under any other index they are recorded anew and the change stays
/// remembered.
pub assume_specification[ ChangeDetection::prepare_result ](
    change: &mut ChangeDetection,
    index: usize,
    changed: bool,
) -> (result: PrepareResult)
    ensures
        *final(change) == change_after(*old(change), index, changed),
        result == result_after(*old(change), index, changed),
;

/// One draw command: the vertices and the instances to draw.
#[derive(Debug)]
pub struct DrawCall {
    pub vertices: Range<u32>,
    pub instances: Range<u32>,
}

/// What `prepare` hands to the host for one frame.
#[derive(Debug)]
pub struct Prepared {
    /// The contents of the vertex buffer.
    pub vertices: Vec<CustomArgs>,
    /// Whether the draw commands have to be recorded anew.
    pub result: PrepareResult,
}

/// Describes the render group before it is built.
#[derive(Clone, Copy, Debug)]
pub struct DrawCustomDesc;

impl Default for DrawCustomDesc {
    fn default() -> Self {
        DrawCustomDesc
    }
}

impl DrawCustomDesc {
    /// The description of the render group.
    pub fn new() -> Self {
        Default::default()
    }

    /// The render group at its start: nothing to draw yet, nothing changed.
    pub fn build(self) -> (group: DrawCustom)
        ensures
            group.vertex_count == 0,
            group.change == ChangeDetection::Stable,
    {
        DrawCustom { vertex_count: 0, change: ChangeDetection::Stable }
    }
}

/// The render group's own bookkeeping from frame to frame.
#[derive(Debug)]
pub struct DrawCustom {
    /// Number of vertices in the vertex buffer.
    pub vertex_count: usize,
    pub change: ChangeDetection,
}

impl DrawCustom {
    /// Prepares frame `index` for the quads of the scene: lays out their
    /// vertices, counts them, and has the draw commands recorded anew where
    /// the count differs from that of the frame before.
    pub fn prepare(&mut self, index: usize, quads: &Vec<Quad>) -> (prepared: Prepared)
        ensures
            prepared.vertices@ == vertex_data(quads@),
            final(self).vertex_count == quads.len() * QUAD_VERTICES,
            ({
                let changed = old(self).vertex_count != final(self).vertex_count;
                &&& final(self).change == change_after(old(self).change, index, changed)
                &&& prepared.result == result_after(old(self).change, index, changed)
            }),
    {
        let mut vertices: Vec<CustomArgs> = Vec::new();
        for q in 0..quads.len()
            invariant
                vertices@ == vertex_data(quads@.take(q as int)),
        {
            let mut args = quads[q].get_args();
            vertices.append(&mut args);
            assert(vertices@ == vertex_data(quads@.take(q + 1)));
        }
        assert(quads@.take(quads.len() as int) == quads@);

        let old_vertex_count = self.vertex_count;
        self.vertex_count = vertices.len();
        let changed = old_vertex_count != self.vertex_count;
        let result = self.change.prepare_result(index, changed);
        Prepared { vertices, result }
    }

    /// The draw command of one frame: none while there is no vertex, else
    /// all vertices of the buffer, once. The count is cut to 32 bits.
    pub fn draw_inline(&self) -> (call: Option<DrawCall>)
        ensures
            self.vertex_count == 0 ==> call is None,
            self.vertex_count != 0 ==> call == Some(
                DrawCall {
                    vertices: Range { start: 0, end: self.vertex_count as u32 },
                    instances: Range { start: 0, end: 1 },
                },
            ),
    {
        if self.vertex_count == 0 {
            return None;
        }
        Some(DrawCall { vertices: 0..(#[verifier::truncate] (self.vertex_count as u32)), instances: 0..1 })
    }
}

/// The plugin that brings the render pass into the host's renderer.
#[derive(Clone, Copy, Debug)]
pub struct RenderCustom {}

impl Default for RenderCustom {
    fn default() -> Self {
        RenderCustom {}
    }
}

impl RenderCustom {
    /// The shader's parameters at the start, for a window of the given
    /// aspect ratio.
    pub fn on_build(&mut self, aspect_ratio: u32) -> (args: CustomUniformArgs)
        ensures
            args == CustomUniformArgs::initial(aspect_ratio),
    {
        CustomUniformArgs {
            scale: ONE,
            offset: [ZERO, ZERO],
            aspect_ratio,
            max_iters: INITIAL_MAX_ITERS,
        }
    }
}

} // verus!
