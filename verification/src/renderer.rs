//! Overlay render planning: which texture upload a delta calls for, how
//! pixel data is packed for the upload, and which draw commands one
//! frame's primitives produce.
//!
//! The GPU objects themselves (buffers, encoders, command queues) are
//! host-owned and live outside the library; the functions here compute
//! everything the submission needs as plain values.

use vstd::prelude::*;
use crate::scissor::{clip_to_scissor, scissor_of, ClipRect, ScissorRect, FP_MAX};

verus! {

/// One RGBA pixel, eight bits per channel.
#[derive(Clone, Copy, Debug, PartialEq, Eq, Structural)]
pub struct Pixel {
    /// Red.
    pub r: u8,
    /// Green.
    pub g: u8,
    /// Blue.
    pub b: u8,
    /// Alpha.
    pub a: u8,
}

/// The four bytes of one pixel, channel order red, green, blue, alpha.
pub open spec fn pixel_bytes(p: Pixel) -> Seq<u8> {
    seq![p.r, p.g, p.b, p.a]
}

/// The byte stream of a run of pixels, four bytes per pixel, in order.
pub open spec fn packed(pixels: Seq<Pixel>) -> Seq<u8>
    decreases pixels.len(),
{
    if pixels.len() == 0 {
        Seq::empty()
    } else {
        packed(pixels.drop_last()) + pixel_bytes(pixels.last())
    }
}

/// The packed stream is four bytes per pixel.
pub proof fn lemma_packed_len(pixels: Seq<Pixel>)
    ensures
        packed(pixels).len() == 4 * pixels.len(),
    decreases pixels.len(),
{
    if pixels.len() > 0 {
        lemma_packed_len(pixels.drop_last());
    }
}

/// Packs pixel data into the byte layout the texture upload takes.
pub fn pack_rgba(pixels: &Vec<Pixel>) -> (bytes: Vec<u8>)
    ensures
        bytes@ == packed(pixels@),
        bytes@.len() == 4 * pixels@.len(),
{
    let mut bytes: Vec<u8> = Vec::new();
    let n = pixels.len();
    let mut i: usize = 0;
    while i < n
        invariant
            i <= n,
            n == pixels@.len(),
            bytes@ == packed(pixels@.subrange(0, i as int)),
        decreases n - i,
    {
        let p = pixels[i];
        bytes.push(p.r);
        bytes.push(p.g);
        bytes.push(p.b);
        bytes.push(p.a);
        proof {
            let done = pixels@.subrange(0, i + 1);
            assert(done.drop_last() =~= pixels@.subrange(0, i as int));
            assert(bytes@ =~= packed(done.drop_last()) + pixel_bytes(done.last()));
        }
        i = i + 1;
    }
    proof {
        assert(pixels@.subrange(0, n as int) =~= pixels@);
        lemma_packed_len(pixels@);
    }
    bytes
}

/// A rectangular region of a texture, in texels.
#[derive(Clone, Copy, Debug, PartialEq, Eq, Structural)]
pub struct TexRegion {
    /// Left edge.
    pub x: u64,
    /// Top edge.
    pub y: u64,
    /// Width.
    pub w: u64,
    /// Height.
    pub h: u64,
}

/// Which upload a texture delta calls for.
#[derive(Clone, Copy, Debug, PartialEq, Eq, Structural)]
pub enum TextureOp {
    /// Allocate a fresh full texture of the given size and fill it.
    CreateFull {
        /// Texture width in texels.
        w: u64,
        /// Texture height in texels.
        h: u64,
    },
    /// Overwrite one region of the existing texture.
    UpdatePartial {
        /// The region to overwrite.
        region: TexRegion,
    },
    /// Nothing to do: a positioned delta arrived before any texture
    /// exists to patch.
    Skip,
}

/// Decides what to do with one texture delta: a delta without a position
/// replaces the whole texture; a positioned delta patches the existing
/// texture at that position, and is dropped when no texture exists yet.
pub fn plan_texture_update(
    pos: Option<(u64, u64)>,
    img_w: u64,
    img_h: u64,
    has_texture: bool,
) -> (op: TextureOp)
    ensures
        pos is None ==> op == (TextureOp::CreateFull { w: img_w, h: img_h }),
        pos matches Some(p) ==> (has_texture ==> op == (TextureOp::UpdatePartial {
            region: TexRegion { x: p.0, y: p.1, w: img_w, h: img_h },
        })),
        pos is Some && !has_texture ==> op == TextureOp::Skip,
{
    match pos {
        Option::None => TextureOp::CreateFull { w: img_w, h: img_h },
        Option::Some((x, y)) => {
            if has_texture {
                TextureOp::UpdatePartial { region: TexRegion { x, y, w: img_w, h: img_h } }
            } else {
                TextureOp::Skip
            }
        },
    }
}

/// Bytes per row of tightly packed RGBA texel data.
pub fn bytes_per_row(img_w: u64) -> (n: u64)
    requires
        img_w <= u64::MAX / 4,
    ensures
        n == 4 * img_w,
{
    4 * img_w
}

/// One tessellated primitive of an overlay frame, reduced to what the
/// draw submission depends on.
#[derive(Clone, Copy, Debug, PartialEq, Eq, Structural)]
pub enum OverlayPrim {
    /// A vertex/index mesh with its clip rectangle.
    Mesh {
        /// Number of vertices in the mesh.
        vertex_count: usize,
        /// Number of indices to draw.
        index_count: usize,
        /// Clip rectangle in thousandths of a logical point.
        clip: ClipRect,
    },
    /// A paint callback; the overlay draws none.
    Callback,
}

/// One draw command of the render pass.
#[derive(Clone, Copy, Debug, PartialEq, Eq, Structural)]
pub struct DrawCmd {
    /// The scissor rectangle to draw under.
    pub scissor: ScissorRect,
    /// Number of indices to draw.
    pub index_count: usize,
}

/// The draw commands one primitive contributes: an empty mesh, a
/// callback, and a mesh whose clip rectangle converts to nothing are all
/// skipped; every other mesh draws under its converted scissor.
pub open spec fn prim_cmds(p: OverlayPrim, scale_fp: int, surf_w: int, surf_h: int) -> Seq<
    DrawCmd,
> {
    match p {
        OverlayPrim::Callback => Seq::empty(),
        OverlayPrim::Mesh { vertex_count, index_count, clip } => {
            if vertex_count == 0 {
                Seq::empty()
            } else {
                match scissor_of(clip, scale_fp, surf_w, surf_h) {
                    Option::None => Seq::empty(),
                    Option::Some(s) => seq![DrawCmd { scissor: s, index_count }],
                }
            }
        },
    }
}

/// The draw commands of a whole frame, primitives in order.
pub open spec fn draw_plan(prims: Seq<OverlayPrim>, scale_fp: int, surf_w: int, surf_h: int) -> Seq<
    DrawCmd,
>
    decreases prims.len(),
{
    if prims.len() == 0 {
        Seq::empty()
    } else {
        draw_plan(prims.drop_last(), scale_fp, surf_w, surf_h) + prim_cmds(
            prims.last(),
            scale_fp,
            surf_w,
            surf_h,
        )
    }
}

/// Every clip rectangle of the frame is well formed.
pub open spec fn prims_wf(prims: Seq<OverlayPrim>) -> bool {
    forall|i: int|
        0 <= i < prims.len() ==> (#[trigger] prims[i] matches OverlayPrim::Mesh { clip, .. }
            ==> clip.wf())
}

/// Computes the frame's draw commands: one per drawable mesh, each under
/// the scissor its clip rectangle converts to, in primitive order.
pub fn plan_draws(prims: &Vec<OverlayPrim>, scale_fp: u64, surf_w: u64, surf_h: u64) -> (cmds: Vec<
    DrawCmd,
>)
    requires
        prims_wf(prims@),
        scale_fp <= FP_MAX,
    ensures
        cmds@ == draw_plan(prims@, scale_fp as int, surf_w as int, surf_h as int),
{
    let mut cmds: Vec<DrawCmd> = Vec::new();
    let n = prims.len();
    let mut i: usize = 0;
    while i < n
        invariant
            i <= n,
            n == prims@.len(),
            prims_wf(prims@),
            scale_fp <= FP_MAX,
            cmds@ == draw_plan(
                prims@.subrange(0, i as int),
                scale_fp as int,
                surf_w as int,
                surf_h as int,
            ),
        decreases n - i,
    {
        let ghost prev = cmds@;
        match prims[i] {
            OverlayPrim::Mesh { vertex_count, index_count, clip } => {
                if vertex_count > 0 {
                    match clip_to_scissor(&clip, scale_fp, surf_w, surf_h) {
                        Option::Some(s) => {
                            cmds.push(DrawCmd { scissor: s, index_count });
                        },
                        Option::None => {},
                    }
                }
            },
            OverlayPrim::Callback => {},
        }
        proof {
            let done = prims@.subrange(0, i + 1);
            assert(done.drop_last() =~= prims@.subrange(0, i as int));
            assert(done.last() == prims@[i as int]);
            assert(cmds@ =~= prev + prim_cmds(
                prims@[i as int],
                scale_fp as int,
                surf_w as int,
                surf_h as int,
            ));
        }
        i = i + 1;
    }
    proof {
        assert(prims@.subrange(0, n as int) =~= prims@);
    }
    cmds
}

} // verus!
