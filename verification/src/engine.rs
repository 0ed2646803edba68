//! The batching engine.
//!
//! [`DrawEngine`] owns the bookkeeping for the two shared GPU buffers and
//! the pending batch, and decides when a draw call must be emitted. It
//! holds no GPU handle: every operation returns the commands the platform
//! executor must perform, and its contract equates state and commands with
//! the transitions of [`crate::model`].

use vstd::prelude::*;

use crate::commands::{cmds_view, CmdModel, GpuCommand};
use crate::model::{
    append_transition, begin_transition, clear_transition, create_texture_transition,
    delete_texture_transition, flush_transition, initial_commands, initial_model,
    lemma_prepare_wf, prepare_transition, push_transition, rebased, update_texture_transition,
    EngineModel,
};
use crate::types::{Color, Topology, Vertex};

verus! {

broadcast use crate::commands::lemma_cmds_view_push, crate::commands::lemma_cmds_view_add;

/// The renderer core. Created once per rendering context; all drawing of a
/// frame goes through the [`crate::context::DrawContext`] that
/// [`DrawEngine::begin_draw`] turns it into, and which hands it back when
/// the frame ends.
pub struct DrawEngine {
    /// Vertex buffer capacity, in vertices (at most 65536, so every rebased
    /// index fits in 16 bits).
    pub max_verts: usize,
    /// Index buffer capacity, in indices.
    pub max_idxs: usize,
    vert_off: usize,
    vert_len: usize,
    idx_off: usize,
    idx_len: usize,
    cur_tex: u32,
    default_tex: u32,
    next_tex: u32,
    cur_topo: Topology,
    cur_surface: u32,
}

impl View for DrawEngine {
    type V = EngineModel;

    closed spec fn view(&self) -> EngineModel {
        EngineModel {
            max_verts: self.max_verts as int,
            max_idxs: self.max_idxs as int,
            vert_off: self.vert_off as int,
            vert_len: self.vert_len as int,
            idx_off: self.idx_off as int,
            idx_len: self.idx_len as int,
            cur_tex: self.cur_tex,
            default_tex: self.default_tex,
            next_tex: self.next_tex,
            cur_topo: self.cur_topo,
            cur_surface: self.cur_surface,
        }
    }
}

/// Rebases every submitted index to an absolute vertex-buffer position by
/// adding `base`, the position the accompanying vertices are written at.
fn rebase_indices(idxs: &Vec<u16>, base: usize) -> (r: Vec<u16>)
    requires
        base + 0x10000 <= usize::MAX,
        forall|j: int| 0 <= j < idxs@.len() ==> (#[trigger] idxs@[j]) + base < 0x10000,
    ensures
        r@ == rebased(idxs@, base as int),
{
    let n = idxs.len();
    let mut r: Vec<u16> = Vec::new();
    let mut k: usize = 0;
    while k < n
        invariant
            k <= n,
            n == idxs@.len(),
            r@.len() == k,
            base + 0x10000 <= usize::MAX,
            forall|j: int| 0 <= j < idxs@.len() ==> (#[trigger] idxs@[j]) + base < 0x10000,
            forall|j: int| 0 <= j < k ==> r@[j] == ((#[trigger] idxs@[j]) + base) as u16,
        decreases n - k,
    {
        let v = idxs[k];
        r.push(((v as usize) + base) as u16);
        k = k + 1;
    }
    proof {
        assert(r@ =~= rebased(idxs@, base as int));
    }
    r
}

impl DrawEngine {
    pub open spec fn wf(&self) -> bool {
        self@.wf()
    }

    /// Sets up an engine whose vertex buffer holds `max_verts` vertices and
    /// whose index buffer holds `max_idxs` 16-bit indices. The returned
    /// commands create the buffers and the default opaque-white texture and
    /// must run before any others.
    pub fn new(max_verts: usize, max_idxs: usize) -> (r: (DrawEngine, Vec<GpuCommand>))
        requires
            1 <= max_verts <= 0x10000,
            1 <= max_idxs <= 0x4000_0000,
        ensures
            r.0.wf(),
            r.0@ == initial_model(max_verts as int, max_idxs as int),
            cmds_view(r.1@) == initial_commands(),
    {
        let eng = DrawEngine {
            max_verts,
            max_idxs,
            vert_off: 0,
            vert_len: 0,
            idx_off: 0,
            idx_len: 0,
            cur_tex: 1,
            default_tex: 1,
            next_tex: 2,
            cur_topo: Topology::Triangles,
            cur_surface: 0,
        };
        let mut white: Vec<u8> = Vec::new();
        white.push(255);
        white.push(255);
        white.push(255);
        white.push(255);
        proof {
            assert(white@ =~= seq![255u8, 255u8, 255u8, 255u8]);
        }
        let mut cmds: Vec<GpuCommand> = Vec::new();
        cmds.push(GpuCommand::CreateTexture { tex: 1, width: 1, height: 1 });
        cmds.push(GpuCommand::UpdateTexture {
            tex: 1,
            x: 0,
            y: 0,
            width: 1,
            height: 1,
            data: white,
        });
        cmds.push(GpuCommand::ResetVertexBuffer);
        cmds.push(GpuCommand::ResetIndexBuffer);
        proof {
            assert(cmds_view(cmds@) =~= initial_commands());
        }
        (eng, cmds)
    }

    /// Emits the pending batch as one draw call (none at all when nothing
    /// is pending) and moves both segment bases past the flushed range.
    pub fn flush(&mut self) -> (r: Vec<GpuCommand>)
        requires
            old(self).wf(),
        ensures
            final(self).wf(),
            final(self)@ == flush_transition(old(self)@).0,
            cmds_view(r@) == flush_transition(old(self)@).1,
    {
        let mut out: Vec<GpuCommand> = Vec::new();
        if self.vert_len == 0 {
            proof {
                assert(cmds_view(out@) =~= Seq::<crate::commands::CmdModel>::empty());
            }
            return out;
        }
        let cmd = if self.cur_topo == Topology::Points {
            GpuCommand::DrawArrays { first: self.vert_off, count: self.vert_len }
        } else {
            GpuCommand::DrawIndexed {
                topo: self.cur_topo,
                first: self.idx_off,
                count: self.idx_len,
            }
        };
        out.push(cmd);
        self.vert_off = self.vert_off + self.vert_len;
        self.idx_off = self.idx_off + self.idx_len;
        self.vert_len = 0;
        self.idx_len = 0;
        proof {
            assert(cmds_view(out@) =~= flush_transition(old(self)@).1);
        }
        out
    }

    /// Discards the pending (never-flushed) batch and fills the render
    /// target with `color`.
    pub fn clear(&mut self, color: Color) -> (r: Vec<GpuCommand>)
        requires
            old(self).wf(),
        ensures
            final(self).wf(),
            final(self)@ == clear_transition(old(self)@, color).0,
            cmds_view(r@) == clear_transition(old(self)@, color).1,
    {
        self.vert_len = 0;
        self.idx_len = 0;
        let mut out: Vec<GpuCommand> = Vec::new();
        out.push(GpuCommand::Clear { color });
        proof {
            assert(cmds_view(out@) =~= clear_transition(old(self)@, color).1);
        }
        out
    }

    /// The state-change phase of one submission: flushes and rebinds as the
    /// batching rule demands, before geometry is appended.
    fn prepare(&mut self, topo: Topology, tex: u32, n_verts: usize, n_idxs: usize) -> (r: Vec<
        GpuCommand,
    >)
        requires
            old(self).wf(),
            tex < old(self)@.next_tex,
            n_verts <= old(self)@.max_verts,
            n_idxs <= old(self)@.max_idxs,
        ensures
            final(self).wf(),
            final(self)@.fits(n_verts as int, n_idxs as int),
            final(self)@ == prepare_transition(old(self)@, topo, tex, n_verts as int, n_idxs as int).0,
            cmds_view(r@) == prepare_transition(old(self)@, topo, tex, n_verts as int, n_idxs as int).1,
    {
        let ghost s0 = old(self)@;
        proof {
            lemma_prepare_wf(s0, topo, tex, n_verts as int, n_idxs as int);
        }
        let mut out: Vec<GpuCommand> = Vec::new();

        let tex_id = if tex == 0 {
            self.default_tex
        } else {
            tex
        };
        let oom_vert = self.vert_off + self.vert_len + n_verts > self.max_verts;
        let oom_idx = self.idx_off + self.idx_len + n_idxs > self.max_idxs;
        let new_tex = self.cur_tex != tex_id;
        let new_topo = self.cur_topo != topo;

        if !(oom_vert || oom_idx || new_tex || new_topo) {
            proof {
                assert(cmds_view(out@) =~= Seq::<CmdModel>::empty());
            }
            return out;
        }

        let mut flushed = self.flush();
        out.append(&mut flushed);
        proof {
            assert(cmds_view(out@) =~= flush_transition(s0).1);
        }
        if oom_vert {
            self.vert_off = 0;
            out.push(GpuCommand::ResetVertexBuffer);
        }
        if oom_idx {
            self.idx_off = 0;
            out.push(GpuCommand::ResetIndexBuffer);
        }
        if new_tex {
            self.cur_tex = tex_id;
            out.push(GpuCommand::BindTexture { tex: tex_id });
        }
        self.cur_topo = topo;
        proof {
            let t = prepare_transition(s0, topo, tex, n_verts as int, n_idxs as int);
            assert(self@ == t.0);
            assert(cmds_view(out@) =~= t.1);
        }
        out
    }

    /// Submits one batch-able piece of geometry: `verts` plus `idxs` into
    /// the current buffers, drawn with `topo` and texture `tex` (0 means
    /// the default white texture; anything else must be a created handle).
    /// Flushes first exactly when the batch key changes or either buffer
    /// would overflow; the new geometry itself is appended whole, never
    /// split. Indices are rebased to absolute vertex-buffer positions, so
    /// submissions merged into one batch share one index range.
    pub fn push_geometry(
        &mut self,
        topo: Topology,
        tex: u32,
        verts: Vec<Vertex>,
        idxs: Vec<u16>,
    ) -> (r: Vec<GpuCommand>)
        requires
            old(self).wf(),
            tex < old(self)@.next_tex,
            verts@.len() <= old(self)@.max_verts,
            idxs@.len() <= old(self)@.max_idxs,
            forall|k: int| 0 <= k < idxs@.len() ==> (#[trigger] idxs@[k]) < verts@.len(),
        ensures
            final(self).wf(),
            final(self)@ == push_transition(old(self)@, topo, tex, verts@, idxs@).0,
            cmds_view(r@) == push_transition(old(self)@, topo, tex, verts@, idxs@).1,
    {
        let ghost s0 = old(self)@;
        let ghost gverts = verts@;
        let ghost gidxs = idxs@;
        let n_verts = verts.len();
        let n_idxs = idxs.len();

        let mut out = self.prepare(topo, tex, n_verts, n_idxs);
        let ghost smid = self@;
        let ghost gprep = cmds_view(out@);

        let vert_start = self.vert_off + self.vert_len;
        let idx_start = self.idx_off + self.idx_len;

        let reb = rebase_indices(&idxs, vert_start);

        out.push(GpuCommand::UploadVertices { first: vert_start, data: verts });
        out.push(GpuCommand::UploadIndices { first: idx_start, data: reb });
        self.vert_len = self.vert_len + n_verts;
        self.idx_len = self.idx_len + n_idxs;

        proof {
            if gverts.len() == 0 && gidxs.len() > 0 {
                assert(gidxs[0] < gverts.len());
            }
            let t = push_transition(s0, topo, tex, gverts, gidxs);
            let appended = append_transition(smid, gverts, gidxs);
            assert(self@ == appended.0);
            assert(cmds_view(out@) =~= gprep + appended.1);
            assert(t.1 == gprep + appended.1);
        }
        out
    }

    /// Allocates an RGBA8 texture of `width * height` texels with
    /// nearest-neighbor filtering and uninitialized contents, and returns
    /// its fresh handle. Creation binds the new texture.
    pub fn create_texture(&mut self, width: u32, height: u32) -> (r: (u32, Vec<GpuCommand>))
        requires
            old(self).wf(),
            old(self)@.next_tex < u32::MAX,
        ensures
            final(self).wf(),
            final(self)@ == create_texture_transition(old(self)@, width, height).0,
            cmds_view(r.1@) == create_texture_transition(old(self)@, width, height).1,
            r.0 == old(self)@.next_tex,
    {
        let id = self.next_tex;
        self.next_tex = self.next_tex + 1;
        self.cur_tex = id;
        let mut out: Vec<GpuCommand> = Vec::new();
        out.push(GpuCommand::CreateTexture { tex: id, width, height });
        proof {
            assert(cmds_view(out@) =~= create_texture_transition(old(self)@, width, height).1);
        }
        (id, out)
    }

    /// Uploads an RGBA8 sub-rectangle into the texture `tex` (a created
    /// handle, or the default texture's own id); `data` holds exactly
    /// `width * height` 4-byte texels. The texture is bound first only if
    /// it is not the bound one already.
    pub fn update_texture(
        &mut self,
        tex: u32,
        x: i32,
        y: i32,
        width: u32,
        height: u32,
        data: Vec<u8>,
    ) -> (r: Vec<GpuCommand>)
        requires
            old(self).wf(),
            0 < tex < old(self)@.next_tex,
            data@.len() == width * height * 4,
        ensures
            final(self).wf(),
            final(self)@ == update_texture_transition(
                old(self)@,
                tex,
                x,
                y,
                width,
                height,
                data@,
            ).0,
            cmds_view(r@) == update_texture_transition(
                old(self)@,
                tex,
                x,
                y,
                width,
                height,
                data@,
            ).1,
    {
        let ghost gdata = data@;
        let mut out: Vec<GpuCommand> = Vec::new();
        if self.cur_tex != tex {
            self.cur_tex = tex;
            out.push(GpuCommand::BindTexture { tex });
        }
        out.push(GpuCommand::UpdateTexture { tex, x, y, width, height, data });
        proof {
            assert(cmds_view(out@) =~= update_texture_transition(
                old(self)@,
                tex,
                x,
                y,
                width,
                height,
                gdata,
            ).1);
        }
        out
    }

    /// Releases the texture `tex`. Callers must never delete the bound
    /// texture (an unflushed batch may still sample it) nor the default
    /// one.
    pub fn delete_texture(&mut self, tex: u32) -> (r: Vec<GpuCommand>)
        requires
            old(self).wf(),
            tex != 0,
            tex != old(self)@.cur_tex,
            tex != old(self)@.default_tex,
        ensures
            final(self).wf(),
            final(self)@ == old(self)@,
            cmds_view(r@) == delete_texture_transition(old(self)@, tex).1,
    {
        let mut out: Vec<GpuCommand> = Vec::new();
        out.push(GpuCommand::DeleteTexture { tex });
        proof {
            assert(cmds_view(out@) =~= delete_texture_transition(old(self)@, tex).1);
        }
        out
    }

    /// Makes `surface` the active render target if it is not already,
    /// setting the viewport and the pixel transform to its full size.
    pub(crate) fn bind_surface(&mut self, surface: u32, width: u32, height: u32) -> (r: Vec<
        GpuCommand,
    >)
        requires
            old(self).wf(),
            surface != 0,
        ensures
            final(self).wf(),
            final(self)@ == begin_transition(old(self)@, surface, width, height).0,
            cmds_view(r@) == begin_transition(old(self)@, surface, width, height).1,
    {
        let mut out: Vec<GpuCommand> = Vec::new();
        if self.cur_surface != surface {
            self.cur_surface = surface;
            out.push(GpuCommand::MakeCurrent { surface });
            out.push(GpuCommand::SetViewport { width, height });
        }
        proof {
            assert(cmds_view(out@) =~= begin_transition(old(self)@, surface, width, height).1);
        }
        out
    }

    /// How many vertices are pending (appended and not yet flushed).
    pub fn pending_vertices(&self) -> (r: usize)
        ensures
            r == self@.vert_len,
    {
        self.vert_len
    }

    /// How many indices are pending.
    pub fn pending_indices(&self) -> (r: usize)
        ensures
            r == self@.idx_len,
    {
        self.idx_len
    }

    /// The vertex-buffer element the pending segment starts at.
    pub fn vertex_offset(&self) -> (r: usize)
        ensures
            r == self@.vert_off,
    {
        self.vert_off
    }

    /// The index-buffer element the pending segment starts at.
    pub fn index_offset(&self) -> (r: usize)
        ensures
            r == self@.idx_off,
    {
        self.idx_off
    }

    /// The texture the GPU currently samples.
    pub fn current_texture(&self) -> (r: u32)
        ensures
            r == self@.cur_tex,
    {
        self.cur_tex
    }

    /// The handle of the built-in 1x1 opaque-white texture.
    pub fn default_texture(&self) -> (r: u32)
        ensures
            r == self@.default_tex,
    {
        self.default_tex
    }

    /// The topology of the pending batch.
    pub fn current_topology(&self) -> (r: Topology)
        ensures
            r == self@.cur_topo,
    {
        self.cur_topo
    }
}

} // verus!
