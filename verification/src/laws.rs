//! The batching laws.
//!
//! Each public proof function here states, over the transitions of
//! [`crate::model`], one guarantee the renderer gives its callers: when
//! draw calls are (and are not) emitted, that geometry is never split by a
//! flush, and how index rebasing lines consecutive submissions up in one
//! shared buffer.

use vstd::prelude::*;

use crate::commands::{
    draw_count, is_draw, lemma_draw_count_push, lemma_draw_count_zero, CmdModel,
};
use crate::context::{rect_indices, rect_vertices, DrawRectParams};
use crate::model::{
    clear_transition, finish_transition, flush_transition, prepare_transition, push_transition,
    rebased, EngineModel,
};
use crate::types::{Color, Point, Topology, Vertex};

verus! {

broadcast use crate::commands::lemma_draw_count_add;

/// One geometry submission, as [`run_pushes`] replays it.
pub ghost struct PushRequest {
    pub topo: Topology,
    pub tex: u32,
    pub verts: Seq<Vertex>,
    pub idxs: Seq<u16>,
}

/// Replays a whole sequence of submissions against the engine model,
/// collecting every command emitted along the way.
pub open spec fn run_pushes(s: EngineModel, reqs: Seq<PushRequest>) -> (EngineModel, Seq<CmdModel>)
    decreases reqs.len(),
{
    if reqs.len() == 0 {
        (s, Seq::<CmdModel>::empty())
    } else {
        let first = push_transition(s, reqs[0].topo, reqs[0].tex, reqs[0].verts, reqs[0].idxs);
        let rest = run_pushes(first.0, reqs.drop_first());
        (rest.0, first.1 + rest.1)
    }
}

/// The total number of vertices a sequence of submissions carries.
pub open spec fn total_verts(reqs: Seq<PushRequest>) -> int
    decreases reqs.len(),
{
    if reqs.len() == 0 {
        0
    } else {
        reqs[0].verts.len() + total_verts(reqs.drop_first())
    }
}

/// The total number of indices a sequence of submissions carries.
pub open spec fn total_idxs(reqs: Seq<PushRequest>) -> int
    decreases reqs.len(),
{
    if reqs.len() == 0 {
        0
    } else {
        reqs[0].idxs.len() + total_idxs(reqs.drop_first())
    }
}

/// Whether every submission continues the batch `s` has pending: the same
/// topology and the same resolved texture.
pub open spec fn all_continue_batch(s: EngineModel, reqs: Seq<PushRequest>) -> bool {
    forall|i: int| 0 <= i < reqs.len() ==> (#[trigger] reqs[i]).topo == s.cur_topo
        && s.resolve_tex(reqs[i].tex) == s.cur_tex
}

proof fn lemma_totals_nonneg(reqs: Seq<PushRequest>)
    ensures
        total_verts(reqs) >= 0,
        total_idxs(reqs) >= 0,
    decreases reqs.len(),
{
    if reqs.len() > 0 {
        lemma_totals_nonneg(reqs.drop_first());
    }
}

/// Submissions that keep one batch key and fit the buffers together are
/// coalesced: replaying them emits no draw command at all, only appends —
/// and the one flush that follows (explicit, or the frame's end) emits
/// exactly one draw command covering the whole accumulated range.
pub proof fn lemma_coalesced_batch(s: EngineModel, reqs: Seq<PushRequest>)
    requires
        all_continue_batch(s, reqs),
        s.vert_off + s.vert_len + total_verts(reqs) <= s.max_verts,
        s.idx_off + s.idx_len + total_idxs(reqs) <= s.max_idxs,
    ensures
        draw_count(run_pushes(s, reqs).1) == 0,
        run_pushes(s, reqs).0 == (EngineModel {
            vert_len: s.vert_len + total_verts(reqs),
            idx_len: s.idx_len + total_idxs(reqs),
            ..s
        }),
        ({
            let end = run_pushes(s, reqs).0;
            &&& (end.vert_len > 0 ==> draw_count(flush_transition(end).1) == 1)
            &&& (end.vert_len > 0 && end.cur_topo != Topology::Points ==> flush_transition(end).1
                == seq![
                    CmdModel::DrawIndexed {
                        topo: s.cur_topo,
                        first: s.idx_off,
                        count: s.idx_len + total_idxs(reqs),
                    },
                ])
            &&& (end.vert_len > 0 && end.cur_topo == Topology::Points ==> flush_transition(end).1
                == seq![
                    CmdModel::DrawArrays {
                        first: s.vert_off,
                        count: s.vert_len + total_verts(reqs),
                    },
                ])
        }),
    decreases reqs.len(),
{
    lemma_totals_nonneg(reqs);
    if reqs.len() == 0 {
        assert(run_pushes(s, reqs).0 == (EngineModel {
            vert_len: s.vert_len + total_verts(reqs),
            idx_len: s.idx_len + total_idxs(reqs),
            ..s
        }));
    } else {
        let r0 = reqs[0];
        let rest = reqs.drop_first();
        lemma_totals_nonneg(rest);
        let first = push_transition(s, r0.topo, r0.tex, r0.verts, r0.idxs);
        // the first submission continues the batch and fits, so it only appends
        assert(first.1 == seq![
            CmdModel::UploadVertices { first: s.vert_off + s.vert_len, data: r0.verts },
            CmdModel::UploadIndices {
                first: s.idx_off + s.idx_len,
                data: rebased(r0.idxs, s.vert_off + s.vert_len),
            },
        ]);
        lemma_draw_count_zero(first.1);
        assert(all_continue_batch(first.0, rest)) by {
            assert(forall|i: int| 0 <= i < rest.len() ==> rest[i] == reqs[i + 1]);
        }
        lemma_coalesced_batch(first.0, rest);
    }
    let end = run_pushes(s, reqs).0;
    if end.vert_len > 0 {
        lemma_draw_count_push(Seq::<CmdModel>::empty(), flush_transition(end).1[0]);
        lemma_draw_count_zero(Seq::<CmdModel>::empty());
        assert(flush_transition(end).1 =~= Seq::<CmdModel>::empty().push(
            flush_transition(end).1[0],
        ));
    }
}

/// Switching texture or topology between two submissions always flushes:
/// the second submission's command list begins with the draw call of the
/// batch pending before it, and contains no other draw.
pub proof fn lemma_key_change_flushes(
    s: EngineModel,
    topo: Topology,
    tex: u32,
    verts: Seq<Vertex>,
    idxs: Seq<u16>,
)
    requires
        s.vert_len > 0,
        !s.same_key(topo, tex),
    ensures
        ({
            let out = push_transition(s, topo, tex, verts, idxs).1;
            &&& out.len() >= 1
            &&& out[0] == flush_transition(s).1[0]
            &&& is_draw(out[0])
            &&& draw_count(out) == 1
        }),
        verts.len() > 0 ==> draw_count(
            flush_transition(push_transition(s, topo, tex, verts, idxs).0).1,
        ) == 1,
{
    let out = push_transition(s, topo, tex, verts, idxs).1;
    assert(out[0] == flush_transition(s).1[0]);
    assert(draw_count(out) == 1) by {
        let tail = out.drop_first();
        assert(out =~= seq![out[0]] + tail);
        lemma_draw_count_push(Seq::<CmdModel>::empty(), out[0]);
        lemma_draw_count_zero(Seq::<CmdModel>::empty());
        assert(seq![out[0]] =~= Seq::<CmdModel>::empty().push(out[0]));
        lemma_draw_count_zero(tail);
    }
    // the new batch is drawn by the next flush: two draw calls in all,
    // never one merged draw
    if verts.len() > 0 {
        let after = flush_transition(push_transition(s, topo, tex, verts, idxs).0).1;
        lemma_draw_count_push(Seq::<CmdModel>::empty(), after[0]);
        lemma_draw_count_zero(Seq::<CmdModel>::empty());
        assert(after =~= Seq::<CmdModel>::empty().push(after[0]));
    }
}

/// A submission that would overflow a buffer flushes the pending batch
/// first (one draw call, leading the command list) and only then appends
/// the new geometry — whole, in a single vertex upload and a single index
/// upload that still fit the reset buffers. New geometry is never split
/// across a flush boundary.
pub proof fn lemma_overflow_flushes_first(
    s: EngineModel,
    topo: Topology,
    tex: u32,
    verts: Seq<Vertex>,
    idxs: Seq<u16>,
)
    requires
        s.wf(),
        tex < s.next_tex,
        verts.len() <= s.max_verts,
        idxs.len() <= s.max_idxs,
        s.vert_off + s.vert_len + verts.len() > s.max_verts || s.idx_off + s.idx_len + idxs.len()
            > s.max_idxs,
    ensures
        ({
            let prepared = prepare_transition(s, topo, tex, verts.len() as int, idxs.len() as int);
            let out = push_transition(s, topo, tex, verts, idxs).1;
            &&& draw_count(out) == (if s.vert_len > 0 {
                1int
            } else {
                0int
            })
            &&& (s.vert_len > 0 ==> out[0] == flush_transition(s).1[0] && is_draw(out[0]))
            &&& out.len() >= 2
            &&& out[out.len() - 2] == (CmdModel::UploadVertices {
                first: prepared.0.vert_off,
                data: verts,
            })
            &&& out[out.len() - 1] == (CmdModel::UploadIndices {
                first: prepared.0.idx_off,
                data: rebased(idxs, prepared.0.vert_off),
            })
            &&& prepared.0.vert_off + verts.len() <= s.max_verts
            &&& prepared.0.idx_off + idxs.len() <= s.max_idxs
        }),
{
    crate::model::lemma_prepare_wf(s, topo, tex, verts.len() as int, idxs.len() as int);
    let prepared = prepare_transition(s, topo, tex, verts.len() as int, idxs.len() as int);
    let out = push_transition(s, topo, tex, verts, idxs).1;
    assert(prepared.0.vert_len == 0 && prepared.0.idx_len == 0);
    assert(out[out.len() - 2] == (CmdModel::UploadVertices {
        first: prepared.0.vert_off,
        data: verts,
    }));
    assert(draw_count(out) == (if s.vert_len > 0 {
        1int
    } else {
        0int
    })) by {
        if s.vert_len > 0 {
            let tail = out.drop_first();
            assert(out =~= seq![out[0]] + tail);
            lemma_draw_count_push(Seq::<CmdModel>::empty(), out[0]);
            lemma_draw_count_zero(Seq::<CmdModel>::empty());
            assert(seq![out[0]] =~= Seq::<CmdModel>::empty().push(out[0]));
            lemma_draw_count_zero(tail);
        } else {
            lemma_draw_count_zero(out);
        }
    }
}

/// Index rebasing: when two rectangles land in one batch, the first is
/// indexed `[0, 1, 2, 2, 3, 0]` and the second's indices are shifted by
/// exactly the first's four vertices: `[4, 5, 6, 6, 7, 4]`.
pub proof fn lemma_second_rect_rebased(
    s: EngineModel,
    tex: u32,
    verts1: Seq<Vertex>,
    verts2: Seq<Vertex>,
)
    requires
        s.vert_off == 0,
        s.vert_len == 0,
        s.idx_len == 0,
        s.cur_topo == Topology::Triangles,
        s.resolve_tex(tex) == s.cur_tex,
        verts1.len() == 4,
        verts2.len() == 4,
        8 <= s.max_verts,
        s.idx_off + 12 <= s.max_idxs,
    ensures
        ({
            let first = push_transition(s, Topology::Triangles, tex, verts1, rect_indices());
            let second = push_transition(
                first.0,
                Topology::Triangles,
                tex,
                verts2,
                rect_indices(),
            );
            &&& first.1 == seq![
                CmdModel::UploadVertices { first: 0, data: verts1 },
                CmdModel::UploadIndices {
                    first: s.idx_off,
                    data: seq![0u16, 1u16, 2u16, 2u16, 3u16, 0u16],
                },
            ]
            &&& second.1 == seq![
                CmdModel::UploadVertices { first: 4, data: verts2 },
                CmdModel::UploadIndices {
                    first: s.idx_off + 6,
                    data: seq![4u16, 5u16, 6u16, 6u16, 7u16, 4u16],
                },
            ]
        }),
{
    assert(rebased(rect_indices(), 0) =~= seq![0u16, 1u16, 2u16, 2u16, 3u16, 0u16]);
    assert(rebased(rect_indices(), 4) =~= seq![4u16, 5u16, 6u16, 6u16, 7u16, 4u16]);
}

/// The end of a frame presents its surface exactly once, after at most
/// one draw call: one covering the pending batch if there is one, none at
/// all otherwise — and afterwards nothing is pending.
pub proof fn lemma_frame_end(s: EngineModel, surface: u32)
    requires
        s.wf(),
    ensures
        draw_count(finish_transition(s, surface).1) == (if s.vert_len > 0 {
            1int
        } else {
            0int
        }),
        finish_transition(s, surface).1.last() == (CmdModel::Present { surface }),
        finish_transition(s, surface).1.filter(
            |c: CmdModel| c matches CmdModel::Present { .. },
        ).len() == 1,
        finish_transition(s, surface).0.vert_len == 0,
        finish_transition(s, surface).0.idx_len == 0,
{
    let flushed = flush_transition(s);
    let out = finish_transition(s, surface).1;
    assert(out =~= flushed.1.push(CmdModel::Present { surface }));
    lemma_draw_count_push(flushed.1, CmdModel::Present { surface });
    if s.vert_len > 0 {
        lemma_draw_count_push(Seq::<CmdModel>::empty(), flushed.1[0]);
        lemma_draw_count_zero(Seq::<CmdModel>::empty());
        assert(flushed.1 =~= Seq::<CmdModel>::empty().push(flushed.1[0]));
    } else {
        lemma_draw_count_zero(flushed.1);
    }
    let is_present = |c: CmdModel| c matches CmdModel::Present { .. };
    assert(out.filter(is_present).len() == 1) by {
        reveal(Seq::filter);
        assert(out.drop_last() =~= flushed.1);
        assert(flushed.1.filter(is_present).len() == 0) by {
            reveal_with_fuel(Seq::filter, 3);
            if flushed.1.len() > 0 {
                assert(flushed.1.drop_last() =~= Seq::<CmdModel>::empty());
                assert(!is_present(flushed.1.last()));
            }
        }
    }
}

/// A clear throws the pending batch away for good: the clear itself draws
/// no geometry, and a flush right after it (frame end included) emits no
/// draw command at all.
pub proof fn lemma_clear_discards_pending(s: EngineModel, color: Color)
    ensures
        draw_count(clear_transition(s, color).1) == 0,
        flush_transition(clear_transition(s, color).0).1 == Seq::<CmdModel>::empty(),
        flush_transition(clear_transition(s, color).0).0 == clear_transition(s, color).0,
{
    lemma_draw_count_zero(clear_transition(s, color).1);
}

/// An untextured rectangle: all four of its vertices carry the degenerate
/// (0, 0) texture coordinate and the vertex color itself, and the sentinel
/// texture resolves to the engine's default opaque-white texture — whose
/// sample multiplies the color by one, so the drawn color equals the
/// vertex color.
pub proof fn lemma_untextured_rect(
    s: EngineModel,
    pos: Point,
    width: u16,
    height: u16,
    params: DrawRectParams,
)
    requires
        params.tex_id == 0,
        params.texc.tl[0] == 0 && params.texc.tl[1] == 0,
        params.texc.br[0] == 0 && params.texc.br[1] == 0,
    ensures
        rect_vertices(pos, width, height, params).len() == 4,
        forall|i: int| 0 <= i < 4 ==> {
            let vtx = #[trigger] rect_vertices(pos, width, height, params)[i];
            vtx.u == 0 && vtx.v == 0 && vtx.col == params.color
        },
        s.resolve_tex(params.tex_id) == s.default_tex,
{
}

} // verus!
