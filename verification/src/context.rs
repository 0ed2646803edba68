//! The per-frame drawing handle.
//!
//! [`DrawEngine::begin_draw`] consumes the engine and hands back a
//! [`DrawContext`]; all drawing of the frame goes through it, and only
//! [`DrawContext::finish`] gives the engine back — after a final flush and
//! exactly one present. The type system thus guarantees what an RAII
//! destructor would: no frame ends without its flush, and no frame
//! presents twice.

use vstd::prelude::*;

use crate::commands::{cmds_view, GpuCommand};
use crate::engine::DrawEngine;
use crate::model::{
    begin_transition, clear_transition, finish_transition, push_transition, EngineModel,
};
use crate::types::{Color, Point, Rect, TexCoord, Topology, Vertex};

verus! {

broadcast use crate::commands::lemma_cmds_view_push, crate::commands::lemma_cmds_view_add;

/// How a triangle is filled: a flat color, an optional texture (0 is the
/// "no texture" sentinel resolved to the default white one) and one
/// texture coordinate per corner.
#[derive(Clone, Copy, Debug, PartialEq)]
pub struct DrawTriangleParams {
    pub color: Color,
    pub tex_id: u32,
    pub texc: [TexCoord; 3],
}

impl DrawTriangleParams {
    /// The untextured default: opaque white, so the triangle shows its
    /// vertex colors unchanged.
    pub fn plain() -> (p: DrawTriangleParams)
        ensures
            p.color == (Color { r: 255, g: 255, b: 255, a: 255 }),
            p.tex_id == 0,
            forall|i: int| 0 <= i < 3 ==> p.texc[i][0] == 0 && p.texc[i][1] == 0,
    {
        DrawTriangleParams::colored(Color::white())
    }

    /// An untextured fill: the given color, the sentinel texture and
    /// degenerate (0, 0) texture coordinates, so the default white texture
    /// leaves the vertex color unchanged.
    pub fn colored(color: Color) -> (p: DrawTriangleParams)
        ensures
            p.color == color,
            p.tex_id == 0,
            forall|i: int| 0 <= i < 3 ==> p.texc[i][0] == 0 && p.texc[i][1] == 0,
    {
        DrawTriangleParams { color, tex_id: 0, texc: [[0, 0], [0, 0], [0, 0]] }
    }

    /// A textured fill with an explicit color to modulate the samples.
    pub fn textured(color: Color, tex_id: u32, texc: [TexCoord; 3]) -> (p: DrawTriangleParams)
        ensures
            p.color == color,
            p.tex_id == tex_id,
            p.texc == texc,
    {
        DrawTriangleParams { color, tex_id, texc }
    }
}

/// How a rectangle is filled: a flat color, an optional texture and the
/// texture-coordinate rectangle mapped corner to corner onto it.
#[derive(Clone, Copy, Debug, PartialEq)]
pub struct DrawRectParams {
    pub color: Color,
    pub tex_id: u32,
    pub texc: Rect<u16>,
}

impl DrawRectParams {
    /// The untextured default: opaque white, so the rectangle shows its
    /// vertex colors unchanged.
    pub fn plain() -> (p: DrawRectParams)
        ensures
            p.color == (Color { r: 255, g: 255, b: 255, a: 255 }),
            p.tex_id == 0,
            p.texc.tl[0] == 0 && p.texc.tl[1] == 0,
            p.texc.br[0] == 0 && p.texc.br[1] == 0,
    {
        DrawRectParams::colored(Color::white())
    }

    /// An untextured fill: the given color, the sentinel texture and the
    /// degenerate (0, 0) texture rectangle.
    pub fn colored(color: Color) -> (p: DrawRectParams)
        ensures
            p.color == color,
            p.tex_id == 0,
            p.texc.tl[0] == 0 && p.texc.tl[1] == 0,
            p.texc.br[0] == 0 && p.texc.br[1] == 0,
    {
        DrawRectParams { color, tex_id: 0, texc: Rect::new([0, 0], [0, 0]) }
    }

    /// A textured fill with an explicit color to modulate the samples.
    pub fn textured(color: Color, tex_id: u32, texc: Rect<u16>) -> (p: DrawRectParams)
        ensures
            p.color == color,
            p.tex_id == tex_id,
            p.texc == texc,
    {
        DrawRectParams { color, tex_id, texc }
    }
}

/// The three corner vertices a triangle submission writes.
pub open spec fn triangle_vertices(
    p0: Point,
    p1: Point,
    p2: Point,
    params: DrawTriangleParams,
) -> Seq<Vertex> {
    seq![
        Vertex {
            x: p0[0],
            y: p0[1],
            col: params.color,
            u: params.texc[0][0],
            v: params.texc[0][1],
        },
        Vertex {
            x: p1[0],
            y: p1[1],
            col: params.color,
            u: params.texc[1][0],
            v: params.texc[1][1],
        },
        Vertex {
            x: p2[0],
            y: p2[1],
            col: params.color,
            u: params.texc[2][0],
            v: params.texc[2][1],
        },
    ]
}

/// The four corner vertices a rectangle submission writes: top-left,
/// top-right, bottom-right, bottom-left, each with the matching corner of
/// the texture rectangle.
pub open spec fn rect_vertices(pos: Point, width: u16, height: u16, params: DrawRectParams) -> Seq<
    Vertex,
> {
    let x = pos[0];
    let y = pos[1];
    let xw = (x + width) as i16;
    let yh = (y + height) as i16;
    let t = params.texc;
    seq![
        Vertex { x: x, y: y, col: params.color, u: t.tl[0], v: t.tl[1] },
        Vertex { x: xw, y: y, col: params.color, u: t.br[0], v: t.tl[1] },
        Vertex { x: xw, y: yh, col: params.color, u: t.br[0], v: t.br[1] },
        Vertex { x: x, y: yh, col: params.color, u: t.tl[0], v: t.br[1] },
    ]
}

/// The index pattern of a rectangle: two triangles sharing the diagonal.
pub open spec fn rect_indices() -> Seq<u16> {
    seq![0u16, 1u16, 2u16, 2u16, 3u16, 0u16]
}

/// The ghost state of a frame in progress.
pub ghost struct ContextModel {
    pub eng: EngineModel,
    pub surface: u32,
}

/// A scoped, per-frame drawing handle. It owns the engine for the length
/// of the frame and returns it on [`DrawContext::finish`].
pub struct DrawContext {
    eng: DrawEngine,
    surface: u32,
}

impl View for DrawContext {
    type V = ContextModel;

    closed spec fn view(&self) -> ContextModel {
        ContextModel { eng: self.eng@, surface: self.surface }
    }
}

impl DrawContext {
    pub open spec fn wf(&self) -> bool {
        self@.eng.wf() && self@.surface != 0
    }
}

impl DrawEngine {
    /// Starts a frame on `surface` (any nonzero id the caller associates
    /// with a presentable drawable), whose full size is `width * height`
    /// pixels. The surface is made current only if it is not already, so
    /// drawing twice in a row to one surface skips the redundant rebind.
    pub fn begin_draw(self, surface: u32, width: u32, height: u32) -> (r: (
        DrawContext,
        Vec<GpuCommand>,
    ))
        requires
            self.wf(),
            surface != 0,
        ensures
            r.0.wf(),
            r.0@.surface == surface,
            r.0@.eng == begin_transition(self@, surface, width, height).0,
            cmds_view(r.1@) == begin_transition(self@, surface, width, height).1,
    {
        let mut eng = self;
        let out = eng.bind_surface(surface, width, height);
        (DrawContext { eng, surface }, out)
    }
}

impl DrawContext {
    /// Discards everything drawn and not yet flushed this frame and fills
    /// the surface with `color`.
    pub fn clear(&mut self, color: Color) -> (r: Vec<GpuCommand>)
        requires
            old(self).wf(),
        ensures
            final(self).wf(),
            final(self)@.surface == old(self)@.surface,
            final(self)@.eng == clear_transition(old(self)@.eng, color).0,
            cmds_view(r@) == clear_transition(old(self)@.eng, color).1,
    {
        self.eng.clear(color)
    }

    /// Draws a single pixel-sized point.
    pub fn draw_point(&mut self, p: Point, color: Color) -> (r: Vec<GpuCommand>)
        requires
            old(self).wf(),
        ensures
            final(self).wf(),
            final(self)@.surface == old(self)@.surface,
            final(self)@.eng == push_transition(
                old(self)@.eng,
                Topology::Points,
                0,
                seq![Vertex { x: p[0], y: p[1], col: color, u: 0, v: 0 }],
                seq![0u16],
            ).0,
            cmds_view(r@) == push_transition(
                old(self)@.eng,
                Topology::Points,
                0,
                seq![Vertex { x: p[0], y: p[1], col: color, u: 0, v: 0 }],
                seq![0u16],
            ).1,
    {
        let mut verts: Vec<Vertex> = Vec::new();
        verts.push(Vertex::new(p, color, [0, 0]));
        let mut idxs: Vec<u16> = Vec::new();
        idxs.push(0);
        proof {
            assert(verts@ =~= seq![Vertex { x: p[0], y: p[1], col: color, u: 0, v: 0 }]);
            assert(idxs@ =~= seq![0u16]);
        }
        self.eng.push_geometry(Topology::Points, 0, verts, idxs)
    }

    /// Draws a one-pixel-wide line from `p0` to `p1`.
    pub fn draw_line(&mut self, p0: Point, p1: Point, color: Color) -> (r: Vec<GpuCommand>)
        requires
            old(self).wf(),
            old(self)@.eng.max_verts >= 2,
            old(self)@.eng.max_idxs >= 2,
        ensures
            final(self).wf(),
            final(self)@.surface == old(self)@.surface,
            final(self)@.eng == push_transition(
                old(self)@.eng,
                Topology::Lines,
                0,
                seq![
                    Vertex { x: p0[0], y: p0[1], col: color, u: 0, v: 0 },
                    Vertex { x: p1[0], y: p1[1], col: color, u: 0, v: 0 },
                ],
                seq![0u16, 1u16],
            ).0,
            cmds_view(r@) == push_transition(
                old(self)@.eng,
                Topology::Lines,
                0,
                seq![
                    Vertex { x: p0[0], y: p0[1], col: color, u: 0, v: 0 },
                    Vertex { x: p1[0], y: p1[1], col: color, u: 0, v: 0 },
                ],
                seq![0u16, 1u16],
            ).1,
    {
        let mut verts: Vec<Vertex> = Vec::new();
        verts.push(Vertex::new(p0, color, [0, 0]));
        verts.push(Vertex::new(p1, color, [0, 0]));
        let mut idxs: Vec<u16> = Vec::new();
        idxs.push(0);
        idxs.push(1);
        proof {
            assert(verts@ =~= seq![
                Vertex { x: p0[0], y: p0[1], col: color, u: 0, v: 0 },
                Vertex { x: p1[0], y: p1[1], col: color, u: 0, v: 0 },
            ]);
            assert(idxs@ =~= seq![0u16, 1u16]);
        }
        self.eng.push_geometry(Topology::Lines, 0, verts, idxs)
    }

    /// Draws a filled (optionally textured) triangle with corners `p0`,
    /// `p1`, `p2`.
    pub fn draw_triangle(
        &mut self,
        p0: Point,
        p1: Point,
        p2: Point,
        params: DrawTriangleParams,
    ) -> (r: Vec<GpuCommand>)
        requires
            old(self).wf(),
            old(self)@.eng.max_verts >= 3,
            old(self)@.eng.max_idxs >= 3,
            params.tex_id < old(self)@.eng.next_tex,
        ensures
            final(self).wf(),
            final(self)@.surface == old(self)@.surface,
            final(self)@.eng == push_transition(
                old(self)@.eng,
                Topology::Triangles,
                params.tex_id,
                triangle_vertices(p0, p1, p2, params),
                seq![0u16, 1u16, 2u16],
            ).0,
            cmds_view(r@) == push_transition(
                old(self)@.eng,
                Topology::Triangles,
                params.tex_id,
                triangle_vertices(p0, p1, p2, params),
                seq![0u16, 1u16, 2u16],
            ).1,
    {
        let mut verts: Vec<Vertex> = Vec::new();
        verts.push(Vertex::new(p0, params.color, params.texc[0]));
        verts.push(Vertex::new(p1, params.color, params.texc[1]));
        verts.push(Vertex::new(p2, params.color, params.texc[2]));
        let mut idxs: Vec<u16> = Vec::new();
        idxs.push(0);
        idxs.push(1);
        idxs.push(2);
        proof {
            assert(verts@ =~= triangle_vertices(p0, p1, p2, params));
            assert(idxs@ =~= seq![0u16, 1u16, 2u16]);
        }
        self.eng.push_geometry(Topology::Triangles, params.tex_id, verts, idxs)
    }

    /// Draws a filled (optionally textured) axis-aligned rectangle with
    /// top-left corner `pos`: four corner vertices and the six indices of
    /// the two triangles sharing its diagonal.
    pub fn draw_rect(&mut self, pos: Point, width: u16, height: u16, params: DrawRectParams) -> (r:
        Vec<GpuCommand>)
        requires
            old(self).wf(),
            old(self)@.eng.max_verts >= 4,
            old(self)@.eng.max_idxs >= 6,
            params.tex_id < old(self)@.eng.next_tex,
            pos[0] + width <= i16::MAX,
            pos[1] + height <= i16::MAX,
        ensures
            final(self).wf(),
            final(self)@.surface == old(self)@.surface,
            final(self)@.eng == push_transition(
                old(self)@.eng,
                Topology::Triangles,
                params.tex_id,
                rect_vertices(pos, width, height, params),
                rect_indices(),
            ).0,
            cmds_view(r@) == push_transition(
                old(self)@.eng,
                Topology::Triangles,
                params.tex_id,
                rect_vertices(pos, width, height, params),
                rect_indices(),
            ).1,
    {
        let x = pos[0];
        let y = pos[1];
        let xw = (x as i32 + width as i32) as i16;
        let yh = (y as i32 + height as i32) as i16;
        let mut verts: Vec<Vertex> = Vec::new();
        verts.push(Vertex::new([x, y], params.color, params.texc.top_left()));
        verts.push(Vertex::new([xw, y], params.color, params.texc.top_right()));
        verts.push(Vertex::new([xw, yh], params.color, params.texc.bottom_right()));
        verts.push(Vertex::new([x, yh], params.color, params.texc.bottom_left()));
        let mut idxs: Vec<u16> = Vec::new();
        idxs.push(0);
        idxs.push(1);
        idxs.push(2);
        idxs.push(2);
        idxs.push(3);
        idxs.push(0);
        proof {
            assert(verts@ =~= rect_vertices(pos, width, height, params));
            assert(idxs@ =~= rect_indices());
        }
        self.eng.push_geometry(Topology::Triangles, params.tex_id, verts, idxs)
    }

    /// Ends the frame: flushes whatever is still pending (even if nothing
    /// was drawn) and presents the surface exactly once, then gives the
    /// engine back for the next frame.
    pub fn finish(self) -> (r: (DrawEngine, Vec<GpuCommand>))
        requires
            self.wf(),
        ensures
            r.0.wf(),
            r.0@ == finish_transition(self@.eng, self@.surface).0,
            cmds_view(r.1@) == finish_transition(self@.eng, self@.surface).1,
    {
        let ghost m = self@;
        let DrawContext { mut eng, surface } = self;
        let mut out = eng.flush();
        out.push(GpuCommand::Present { surface });
        proof {
            assert(cmds_view(out@) =~= finish_transition(m.eng, m.surface).1);
        }
        (eng, out)
    }
}

} // verus!
