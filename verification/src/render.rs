use vstd::prelude::*;
use crate::color::Color;
use crate::compute::{ComputeState, image_spec};

verus! {

/// One vertex of the full-screen quad: a position in normalized device
/// units (corners at -1 and 1) and a texture coordinate in texture units
/// (0 and 1).  The host widens these to floating point for the GPU.
#[derive(Clone, Copy, Debug, PartialEq, Eq, Structural)]
pub struct QuadVertex {
    pub pos_x: i32,
    pub pos_y: i32,
    pub tex_u: i32,
    pub tex_v: i32,
}

/// The four vertices of the full-screen triangle strip, in strip order:
/// bottom-left, bottom-right, top-left, top-right.
pub open spec fn quad_spec() -> Seq<QuadVertex> {
    seq![
        QuadVertex { pos_x: -1i32, pos_y: -1i32, tex_u: 0i32, tex_v: 1i32 },
        QuadVertex { pos_x: 1i32, pos_y: -1i32, tex_u: 1i32, tex_v: 1i32 },
        QuadVertex { pos_x: -1i32, pos_y: 1i32, tex_u: 0i32, tex_v: 0i32 },
        QuadVertex { pos_x: 1i32, pos_y: 1i32, tex_u: 1i32, tex_v: 0i32 },
    ]
}

/// Builds the quad's vertex data: positions cover the whole device area,
/// texture coordinates cover the whole image, and the image is flipped
/// vertically (tex_v is 1 where pos_y is -1).
pub fn quad_vertices() -> (vs: Vec<QuadVertex>)
    ensures
        vs@ == quad_spec(),
        forall|i: int|
            0 <= i < vs@.len() ==> (#[trigger] vs@[i]).tex_u == (vs@[i].pos_x + 1) / 2
                && vs@[i].tex_v == (1 - vs@[i].pos_y) / 2,
{
    let mut vs: Vec<QuadVertex> = Vec::new();
    vs.push(QuadVertex { pos_x: -1, pos_y: -1, tex_u: 0, tex_v: 1 });
    vs.push(QuadVertex { pos_x: 1, pos_y: -1, tex_u: 1, tex_v: 1 });
    vs.push(QuadVertex { pos_x: -1, pos_y: 1, tex_u: 0, tex_v: 0 });
    vs.push(QuadVertex { pos_x: 1, pos_y: 1, tex_u: 1, tex_v: 0 });
    proof {
        assert(vs@ =~= quad_spec());
        assert forall|i: int| 0 <= i < vs@.len() implies (#[trigger] vs@[i]).tex_u == (vs@[i].pos_x
            + 1) / 2 && vs@[i].tex_v == (1 - vs@[i].pos_y) / 2 by {
            if i == 0 {
            } else if i == 1 {
            } else if i == 2 {
            } else {
                assert(i == 3);
            }
        }
    }
    vs
}

/// A frame that was drawn and handed to the presentation surface: its
/// dimensions, and the image the draw sampled.
pub struct PresentedFrame {
    pub width: u32,
    pub height: u32,
    pub source: Ghost<Seq<Seq<Color>>>,
}

/// The render stage: the full-screen quad's vertex buffer, a sampler, and
/// the pipeline that samples the compute stage's image onto the surface.
pub struct RenderState {
    pub vertices: Vec<QuadVertex>,
    pub frames_rendered: u64,
}

impl RenderState {
    /// The vertex buffer holds exactly the full-screen quad.
    pub open spec fn inv(self) -> bool {
        self.vertices@ == quad_spec()
    }

    /// Creates the sampler, the quad vertex buffer, the bindings that expose
    /// the compute stage's image to the fragment shader, and the pipeline.
    pub fn new() -> (s: Self)
        ensures
            s.inv(),
            s.frames_rendered == 0,
    {
        RenderState { vertices: quad_vertices(), frames_rendered: 0 }
    }

    /// Records one render pass against a surface frame of the given
    /// dimensions: clears to opaque black, then draws the 4-vertex strip,
    /// sampling the compute stage's image across the whole target.  The
    /// frame therefore shows exactly that image, stretched to the target.
    pub fn render(&mut self, source: &ComputeState, target_width: u32, target_height: u32) -> (f:
        PresentedFrame)
        requires
            old(self).inv(),
            old(self).frames_rendered < u64::MAX,
            source.inv(),
            source.dispatched(),
        ensures
            final(self).inv(),
            final(self).vertices == old(self).vertices,
            final(self).frames_rendered == old(self).frames_rendered + 1,
            f.width == target_width,
            f.height == target_height,
            f.source@ == source.image(),
            f.source@ == image_spec(source.width, source.height),
    {
        self.frames_rendered = self.frames_rendered + 1;
        PresentedFrame { width: target_width, height: target_height, source: Ghost(source.image()) }
    }
}

} // verus!
