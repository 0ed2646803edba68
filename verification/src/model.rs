//! The mathematical model of the engine.
//!
//! [`EngineModel`] is the ghost state of a [`crate::engine::DrawEngine`];
//! every executable operation is specified as a pure transition function
//! from a model to the next model plus the command list emitted, and the
//! operation's `ensures` says it equals that transition. The batching laws
//! in [`crate::laws`] are proved over these transitions.

use vstd::prelude::*;

use crate::commands::CmdModel;
use crate::types::{Color, Topology, Vertex};

verus! {

/// The ghost state of the engine: two ring-buffer segments (a base offset
/// plus a pending length each), the pending batch key (topology and bound
/// texture), the texture-id allocator and the active surface (0 = none).
pub ghost struct EngineModel {
    /// Vertex buffer capacity, in vertices.
    pub max_verts: int,
    /// Index buffer capacity, in indices.
    pub max_idxs: int,
    /// Base of the un-flushed vertex segment.
    pub vert_off: int,
    /// Vertices appended since the last flush.
    pub vert_len: int,
    /// Base of the un-flushed index segment.
    pub idx_off: int,
    /// Indices appended since the last flush.
    pub idx_len: int,
    /// The texture the GPU currently samples (never the 0 sentinel).
    pub cur_tex: u32,
    /// The built-in 1x1 opaque-white texture drawn when no texture is given.
    pub default_tex: u32,
    /// The next texture id to hand out; all live ids are below it.
    pub next_tex: u32,
    /// Topology of the pending batch.
    pub cur_topo: Topology,
    /// The surface currently bound as render target, 0 when none is.
    pub cur_surface: u32,
}

impl EngineModel {
    /// Well-formedness: both segments lie within capacity, capacities are
    /// small enough that offsets fit `u16` indices and `usize` sums, and
    /// texture ids are consistent.
    pub open spec fn wf(self) -> bool {
        &&& 1 <= self.max_verts <= 0x10000
        &&& 1 <= self.max_idxs <= 0x4000_0000
        &&& 0 <= self.vert_off
        &&& 0 <= self.vert_len
        &&& self.vert_off + self.vert_len <= self.max_verts
        &&& 0 <= self.idx_off
        &&& 0 <= self.idx_len
        &&& self.idx_off + self.idx_len <= self.max_idxs
        &&& (self.vert_len == 0 ==> self.idx_len == 0)
        &&& self.default_tex != 0
        &&& self.cur_tex != 0
        &&& self.default_tex < self.next_tex
        &&& self.cur_tex < self.next_tex
    }

    /// The texture a request with handle `tex` really draws with:
    /// the 0 sentinel means the default white texture.
    pub open spec fn resolve_tex(self, tex: u32) -> u32 {
        if tex == 0 {
            self.default_tex
        } else {
            tex
        }
    }

    /// Whether a request with key (`topo`, `tex`) continues the pending batch.
    pub open spec fn same_key(self, topo: Topology, tex: u32) -> bool {
        self.cur_topo == topo && self.cur_tex == self.resolve_tex(tex)
    }

    /// Whether `n_verts` vertices and `n_idxs` indices still fit behind the
    /// pending segments without overflowing either buffer.
    pub open spec fn fits(self, n_verts: int, n_idxs: int) -> bool {
        &&& self.vert_off + self.vert_len + n_verts <= self.max_verts
        &&& self.idx_off + self.idx_len + n_idxs <= self.max_idxs
    }
}

/// The state a freshly created engine is in: empty segments, the default
/// white texture (id 1) created and bound, triangles pending, no surface.
pub open spec fn initial_model(max_verts: int, max_idxs: int) -> EngineModel {
    EngineModel {
        max_verts: max_verts,
        max_idxs: max_idxs,
        vert_off: 0,
        vert_len: 0,
        idx_off: 0,
        idx_len: 0,
        cur_tex: 1,
        default_tex: 1,
        next_tex: 2,
        cur_topo: Topology::Triangles,
        cur_surface: 0,
    }
}

/// The commands that set a fresh engine up: create the 1x1 default texture,
/// fill it with opaque white, and size both buffers.
pub open spec fn initial_commands() -> Seq<CmdModel> {
    seq![
        CmdModel::CreateTexture { tex: 1, width: 1, height: 1 },
        CmdModel::UpdateTexture {
            tex: 1,
            x: 0,
            y: 0,
            width: 1,
            height: 1,
            data: seq![255u8, 255u8, 255u8, 255u8],
        },
        CmdModel::ResetVertexBuffer,
        CmdModel::ResetIndexBuffer,
    ]
}

/// Flushing: nothing happens on an empty pending batch; otherwise one draw
/// command covers exactly the pending segment (a direct-array draw for
/// points, an indexed draw for everything else) and both segment bases
/// advance past it.
pub open spec fn flush_transition(s: EngineModel) -> (EngineModel, Seq<CmdModel>) {
    if s.vert_len == 0 {
        (s, Seq::<CmdModel>::empty())
    } else {
        let cmd = if s.cur_topo == Topology::Points {
            CmdModel::DrawArrays { first: s.vert_off, count: s.vert_len }
        } else {
            CmdModel::DrawIndexed { topo: s.cur_topo, first: s.idx_off, count: s.idx_len }
        };
        (
            EngineModel {
                vert_off: s.vert_off + s.vert_len,
                idx_off: s.idx_off + s.idx_len,
                vert_len: 0,
                idx_len: 0,
                ..s
            },
            seq![cmd],
        )
    }
}

/// Every submitted index, rebased to an absolute vertex-buffer position by
/// adding the base the vertices are about to be written at.
pub open spec fn rebased(idxs: Seq<u16>, base: int) -> Seq<u16> {
    idxs.map_values(|i: u16| (i + base) as u16)
}

/// Appending to the pending batch: the vertices go in right behind the
/// pending vertex segment, the rebased indices right behind the pending
/// index segment, and both pending lengths grow.
pub open spec fn append_transition(s: EngineModel, verts: Seq<Vertex>, idxs: Seq<u16>) -> (
    EngineModel,
    Seq<CmdModel>,
) {
    let vert_start = s.vert_off + s.vert_len;
    let idx_start = s.idx_off + s.idx_len;
    (
        EngineModel {
            vert_len: s.vert_len + verts.len(),
            idx_len: s.idx_len + idxs.len(),
            ..s
        },
        seq![
            CmdModel::UploadVertices { first: vert_start, data: verts },
            CmdModel::UploadIndices { first: idx_start, data: rebased(idxs, vert_start) },
        ],
    )
}

/// The state-change phase of a submission of `n_verts` vertices and
/// `n_idxs` indices under key (`topo`, `tex`). If the request continues the
/// pending batch and fits, nothing changes and nothing is emitted.
/// Otherwise the pending batch is flushed; each buffer that would overflow
/// restarts at element 0; a differing texture is bound; and the new key is
/// recorded.
pub open spec fn prepare_transition(
    s: EngineModel,
    topo: Topology,
    tex: u32,
    n_verts: int,
    n_idxs: int,
) -> (EngineModel, Seq<CmdModel>) {
    let tex_id = s.resolve_tex(tex);
    let oom_vert = s.vert_off + s.vert_len + n_verts > s.max_verts;
    let oom_idx = s.idx_off + s.idx_len + n_idxs > s.max_idxs;
    let new_tex = s.cur_tex != tex_id;
    let new_topo = s.cur_topo != topo;
    if oom_vert || oom_idx || new_tex || new_topo {
        let flushed = flush_transition(s);
        let ready = EngineModel {
            vert_off: if oom_vert { 0 } else { flushed.0.vert_off },
            idx_off: if oom_idx { 0 } else { flushed.0.idx_off },
            cur_tex: tex_id,
            cur_topo: topo,
            ..flushed.0
        };
        let prep = flushed.1
            + (if oom_vert { seq![CmdModel::ResetVertexBuffer] } else { Seq::<CmdModel>::empty() })
            + (if oom_idx { seq![CmdModel::ResetIndexBuffer] } else { Seq::<CmdModel>::empty() })
            + (if new_tex { seq![CmdModel::BindTexture { tex: tex_id }] } else { Seq::<CmdModel>::empty() });
        (ready, prep)
    } else {
        (s, Seq::<CmdModel>::empty())
    }
}

/// One geometry submission: the state-change phase, then the geometry is
/// appended, whole, never split across the flush.
pub open spec fn push_transition(
    s: EngineModel,
    topo: Topology,
    tex: u32,
    verts: Seq<Vertex>,
    idxs: Seq<u16>,
) -> (EngineModel, Seq<CmdModel>) {
    let prepared = prepare_transition(s, topo, tex, verts.len() as int, idxs.len() as int);
    let appended = append_transition(prepared.0, verts, idxs);
    (appended.0, prepared.1 + appended.1)
}

/// After the state-change phase of a valid submission, the engine is still
/// well formed and the submission fits behind the (possibly emptied)
/// pending segments.
pub proof fn lemma_prepare_wf(s: EngineModel, topo: Topology, tex: u32, n_verts: int, n_idxs: int)
    requires
        s.wf(),
        tex < s.next_tex,
        0 <= n_verts <= s.max_verts,
        0 <= n_idxs <= s.max_idxs,
    ensures
        prepare_transition(s, topo, tex, n_verts, n_idxs).0.wf(),
        prepare_transition(s, topo, tex, n_verts, n_idxs).0.fits(n_verts, n_idxs),
{
}

/// Clearing: the pending batch is thrown away (nothing of it will ever be
/// drawn) and the target is filled with `color`.
pub open spec fn clear_transition(s: EngineModel, color: Color) -> (EngineModel, Seq<CmdModel>) {
    (
        EngineModel { vert_len: 0, idx_len: 0, ..s },
        seq![CmdModel::Clear { color: color }],
    )
}

/// Creating a texture: a fresh id is handed out and the new texture becomes
/// the bound one (creation binds it on the GPU side).
pub open spec fn create_texture_transition(s: EngineModel, width: u32, height: u32) -> (
    EngineModel,
    Seq<CmdModel>,
) {
    (
        EngineModel { cur_tex: s.next_tex, next_tex: (s.next_tex + 1) as u32, ..s },
        seq![CmdModel::CreateTexture { tex: s.next_tex, width: width, height: height }],
    )
}

/// Updating a texture: it is bound first only if it is not already the
/// bound one, then the sub-rectangle is uploaded.
pub open spec fn update_texture_transition(
    s: EngineModel,
    tex: u32,
    x: i32,
    y: i32,
    width: u32,
    height: u32,
    data: Seq<u8>,
) -> (EngineModel, Seq<CmdModel>) {
    let bind = if s.cur_tex != tex {
        seq![CmdModel::BindTexture { tex: tex }]
    } else {
        Seq::<CmdModel>::empty()
    };
    (
        EngineModel { cur_tex: tex, ..s },
        bind + seq![
            CmdModel::UpdateTexture {
                tex: tex,
                x: x,
                y: y,
                width: width,
                height: height,
                data: data,
            },
        ],
    )
}

/// Deleting a texture (callers may never delete the bound one).
pub open spec fn delete_texture_transition(s: EngineModel, tex: u32) -> (
    EngineModel,
    Seq<CmdModel>,
) {
    (s, seq![CmdModel::DeleteTexture { tex: tex }])
}

/// Beginning a frame on `surface`: if it is already the active render
/// target nothing is emitted; otherwise it is made current and the viewport
/// and pixel transform are set to its full size.
pub open spec fn begin_transition(s: EngineModel, surface: u32, width: u32, height: u32) -> (
    EngineModel,
    Seq<CmdModel>,
) {
    if s.cur_surface == surface {
        (s, Seq::<CmdModel>::empty())
    } else {
        (
            EngineModel { cur_surface: surface, ..s },
            seq![
                CmdModel::MakeCurrent { surface: surface },
                CmdModel::SetViewport { width: width, height: height },
            ],
        )
    }
}

/// Ending a frame on `surface`: a final flush, then exactly one present.
pub open spec fn finish_transition(s: EngineModel, surface: u32) -> (EngineModel, Seq<CmdModel>) {
    let flushed = flush_transition(s);
    (flushed.0, flushed.1 + seq![CmdModel::Present { surface: surface }])
}

} // verus!
