//! The GPU command vocabulary.
//!
//! The engine never calls the GPU itself: every operation returns a
//! `Vec<GpuCommand>` that an executor (the unverified platform layer)
//! performs in order against the real rendering context. Contracts and
//! proofs speak of the ghost mirror [`CmdModel`], reached through `@`.

use vstd::prelude::*;

use crate::types::{Color, Topology, Vertex};

verus! {

/// One GPU operation, in terms of the two shared buffers (measured in
/// elements, not bytes), texture ids and surface ids of this library.
#[derive(Debug, Clone, PartialEq)]
pub enum GpuCommand {
    /// Orphan the vertex buffer storage (the previous contents are no longer
    /// needed) and start writing again at element 0.
    ResetVertexBuffer,
    /// The same for the index buffer.
    ResetIndexBuffer,
    /// Write `data` into the vertex buffer starting at element `first`.
    UploadVertices { first: usize, data: Vec<Vertex> },
    /// Write `data` into the index buffer starting at element `first`.
    UploadIndices { first: usize, data: Vec<u16> },
    /// Draw `count` 16-bit indices, starting at index-buffer element
    /// `first`, assembled with topology `topo`.
    DrawIndexed { topo: Topology, first: usize, count: usize },
    /// Draw `count` vertices directly (no indices), starting at
    /// vertex-buffer element `first`, assembled as points.
    DrawArrays { first: usize, count: usize },
    /// Make `tex` the texture sampled by subsequent draws.
    BindTexture { tex: u32 },
    /// Allocate an RGBA8 texture of `width * height` texels under id `tex`,
    /// nearest-neighbor filtered, contents uninitialized; it becomes the
    /// bound texture.
    CreateTexture { tex: u32, width: u32, height: u32 },
    /// Upload an RGBA8 sub-rectangle into the bound texture `tex`.
    UpdateTexture { tex: u32, x: i32, y: i32, width: u32, height: u32, data: Vec<u8> },
    /// Release the texture `tex`.
    DeleteTexture { tex: u32 },
    /// Fill the whole render target with `color`.
    Clear { color: Color },
    /// Make `surface` the active render target.
    MakeCurrent { surface: u32 },
    /// Set the viewport (and the pixel-to-clip transform) to the full
    /// `width * height` surface.
    SetViewport { width: u32, height: u32 },
    /// Swap `surface`'s buffers, showing everything drawn to it.
    Present { surface: u32 },
}

/// The ghost mirror of [`GpuCommand`]: sizes as `int`, buffers as `Seq`.
pub ghost enum CmdModel {
    ResetVertexBuffer,
    ResetIndexBuffer,
    UploadVertices { first: int, data: Seq<Vertex> },
    UploadIndices { first: int, data: Seq<u16> },
    DrawIndexed { topo: Topology, first: int, count: int },
    DrawArrays { first: int, count: int },
    BindTexture { tex: u32 },
    CreateTexture { tex: u32, width: u32, height: u32 },
    UpdateTexture { tex: u32, x: i32, y: i32, width: u32, height: u32, data: Seq<u8> },
    DeleteTexture { tex: u32 },
    Clear { color: Color },
    MakeCurrent { surface: u32 },
    SetViewport { width: u32, height: u32 },
    Present { surface: u32 },
}

impl View for GpuCommand {
    type V = CmdModel;

    open spec fn view(&self) -> CmdModel {
        match self {
            GpuCommand::ResetVertexBuffer => CmdModel::ResetVertexBuffer,
            GpuCommand::ResetIndexBuffer => CmdModel::ResetIndexBuffer,
            GpuCommand::UploadVertices { first, data } => CmdModel::UploadVertices {
                first: *first as int,
                data: data@,
            },
            GpuCommand::UploadIndices { first, data } => CmdModel::UploadIndices {
                first: *first as int,
                data: data@,
            },
            GpuCommand::DrawIndexed { topo, first, count } => CmdModel::DrawIndexed {
                topo: *topo,
                first: *first as int,
                count: *count as int,
            },
            GpuCommand::DrawArrays { first, count } => CmdModel::DrawArrays {
                first: *first as int,
                count: *count as int,
            },
            GpuCommand::BindTexture { tex } => CmdModel::BindTexture { tex: *tex },
            GpuCommand::CreateTexture { tex, width, height } => CmdModel::CreateTexture {
                tex: *tex,
                width: *width,
                height: *height,
            },
            GpuCommand::UpdateTexture { tex, x, y, width, height, data } => {
                CmdModel::UpdateTexture {
                    tex: *tex,
                    x: *x,
                    y: *y,
                    width: *width,
                    height: *height,
                    data: data@,
                }
            },
            GpuCommand::DeleteTexture { tex } => CmdModel::DeleteTexture { tex: *tex },
            GpuCommand::Clear { color } => CmdModel::Clear { color: *color },
            GpuCommand::MakeCurrent { surface } => CmdModel::MakeCurrent { surface: *surface },
            GpuCommand::SetViewport { width, height } => CmdModel::SetViewport {
                width: *width,
                height: *height,
            },
            GpuCommand::Present { surface } => CmdModel::Present { surface: *surface },
        }
    }
}

/// The ghost view of a whole command list.
pub open spec fn cmds_view(cs: Seq<GpuCommand>) -> Seq<CmdModel> {
    cs.map_values(|c: GpuCommand| c@)
}

/// Whether a command makes the GPU draw (a flush emits exactly these).
pub open spec fn is_draw(c: CmdModel) -> bool {
    match c {
        CmdModel::DrawIndexed { .. } => true,
        CmdModel::DrawArrays { .. } => true,
        _ => false,
    }
}

/// How many draw commands a command list contains.
pub open spec fn draw_count(cs: Seq<CmdModel>) -> nat {
    cs.filter(|c: CmdModel| is_draw(c)).len()
}

pub broadcast proof fn lemma_cmds_view_push(cs: Seq<GpuCommand>, c: GpuCommand)
    ensures
        #[trigger] cmds_view(cs.push(c)) == cmds_view(cs).push(c@),
{
    assert(cmds_view(cs.push(c)) =~= cmds_view(cs).push(c@));
}

pub broadcast proof fn lemma_cmds_view_add(a: Seq<GpuCommand>, b: Seq<GpuCommand>)
    ensures
        #[trigger] cmds_view(a + b) == cmds_view(a) + cmds_view(b),
{
    assert(cmds_view(a + b) =~= cmds_view(a) + cmds_view(b));
}

pub broadcast proof fn lemma_draw_count_add(a: Seq<CmdModel>, b: Seq<CmdModel>)
    ensures
        #[trigger] draw_count(a + b) == draw_count(a) + draw_count(b),
{
    Seq::filter_distributes_over_add(a, b, |c: CmdModel| is_draw(c));
}

/// A command list that holds no draw command has draw count zero.
pub proof fn lemma_draw_count_zero(cs: Seq<CmdModel>)
    requires
        forall|i: int| 0 <= i < cs.len() ==> !is_draw(#[trigger] cs[i]),
    ensures
        draw_count(cs) == 0,
    decreases cs.len(),
{
    reveal(Seq::filter);
    if cs.len() > 0 {
        lemma_draw_count_zero(cs.drop_last());
    }
}

/// Appending one command raises the draw count by one exactly when that
/// command draws.
pub proof fn lemma_draw_count_push(cs: Seq<CmdModel>, c: CmdModel)
    ensures
        draw_count(cs.push(c)) == draw_count(cs) + (if is_draw(c) {
            1int
        } else {
            0int
        }),
{
    reveal(Seq::filter);
    assert(cs.push(c).drop_last() =~= cs);
}

} // verus!
