use glengine::commands::GpuCommand;
use glengine::{Color, DrawEngine, DrawRectParams, DrawTriangleParams, Topology, Vertex};

fn red() -> Color {
    Color { r: 255, g: 0, b: 0, a: 255 }
}

fn draws(cmds: &[GpuCommand]) -> usize {
    cmds.iter()
        .filter(|c| matches!(c, GpuCommand::DrawIndexed { .. } | GpuCommand::DrawArrays { .. }))
        .count()
}

#[test]
fn init_commands_create_default_texture_and_buffers() {
    let (eng, init) = DrawEngine::new(1024, 2048);
    assert_eq!(init.len(), 4);
    assert_eq!(init[0], GpuCommand::CreateTexture { tex: 1, width: 1, height: 1 });
    assert_eq!(
        init[1],
        GpuCommand::UpdateTexture {
            tex: 1,
            x: 0,
            y: 0,
            width: 1,
            height: 1,
            data: vec![255, 255, 255, 255],
        }
    );
    assert_eq!(init[2], GpuCommand::ResetVertexBuffer);
    assert_eq!(init[3], GpuCommand::ResetIndexBuffer);
    assert_eq!(eng.default_texture(), 1);
    assert_eq!(eng.current_texture(), 1);
    assert_eq!(eng.pending_vertices(), 0);
    assert_eq!(eng.pending_indices(), 0);
}

#[test]
fn same_key_submissions_coalesce_into_one_draw() {
    // Two triangles of one color and no texture: no draw until the frame
    // ends, then exactly one draw covering all six indices.
    let (eng, _) = DrawEngine::new(1024, 2048);
    let (mut ctx, _) = eng.begin_draw(1, 640, 480);
    let c1 = ctx.draw_triangle([0, 0], [10, 0], [5, 8], DrawTriangleParams::colored(red()));
    let c2 = ctx.draw_triangle([20, 20], [30, 20], [25, 28], DrawTriangleParams::colored(red()));
    assert_eq!(draws(&c1), 0);
    assert_eq!(draws(&c2), 0);
    let (eng, end) = ctx.finish();
    assert_eq!(draws(&end), 1);
    assert_eq!(
        end[0],
        GpuCommand::DrawIndexed { topo: Topology::Triangles, first: 0, count: 6 }
    );
    assert_eq!(end[1], GpuCommand::Present { surface: 1 });
    assert_eq!(eng.pending_vertices(), 0);
    assert_eq!(eng.vertex_offset(), 6);
    assert_eq!(eng.index_offset(), 6);
}

#[test]
fn topology_switch_flushes_between_submissions() {
    // A triangle followed by a point: the point's submission must begin
    // with the draw call of the pending triangle batch.
    let (eng, _) = DrawEngine::new(1024, 2048);
    let (mut ctx, _) = eng.begin_draw(1, 640, 480);
    let c1 = ctx.draw_triangle([0, 0], [10, 0], [5, 8], DrawTriangleParams::colored(red()));
    assert_eq!(draws(&c1), 0);
    let c2 = ctx.draw_point([50, 50], red());
    assert_eq!(draws(&c2), 1);
    assert_eq!(
        c2[0],
        GpuCommand::DrawIndexed { topo: Topology::Triangles, first: 0, count: 3 }
    );
    let (_, end) = ctx.finish();
    // the point batch flushes as a direct-array draw
    assert_eq!(draws(&end), 1);
    assert_eq!(end[0], GpuCommand::DrawArrays { first: 3, count: 1 });
}

#[test]
fn texture_switch_flushes_between_submissions() {
    let (mut eng, _) = DrawEngine::new(1024, 2048);
    let (tex, _) = eng.create_texture(8, 8);
    assert_eq!(tex, 2);
    let (mut ctx, _) = eng.begin_draw(1, 640, 480);
    let c1 = ctx.draw_rect([0, 0], 10, 10, DrawRectParams::colored(red()));
    assert_eq!(draws(&c1), 0);
    let c2 = ctx.draw_rect(
        [20, 0],
        10,
        10,
        DrawRectParams::textured(Color::white(), tex, glengine::Rect::new([0, 0], [65535, 65535])),
    );
    // two draw calls in the frame, not one: the untextured batch flushes
    // before the textured rectangle is appended
    assert_eq!(draws(&c2), 1);
    assert!(matches!(c2[0], GpuCommand::DrawIndexed { .. }));
    assert!(c2.contains(&GpuCommand::BindTexture { tex }));
    let (_, end) = ctx.finish();
    assert_eq!(draws(&end), 1);
}

#[test]
fn overflow_flushes_before_append_and_never_splits() {
    // Vertex capacity 8: two rectangles fit, the third forces a flush
    // first and lands whole at the start of the reset buffer.
    let (eng, _) = DrawEngine::new(8, 1024);
    let (mut ctx, _) = eng.begin_draw(1, 640, 480);
    ctx.draw_rect([0, 0], 4, 4, DrawRectParams::colored(red()));
    ctx.draw_rect([8, 0], 4, 4, DrawRectParams::colored(red()));
    let c3 = ctx.draw_rect([16, 0], 4, 4, DrawRectParams::colored(red()));
    assert_eq!(draws(&c3), 1);
    assert_eq!(
        c3[0],
        GpuCommand::DrawIndexed { topo: Topology::Triangles, first: 0, count: 12 }
    );
    assert_eq!(c3[1], GpuCommand::ResetVertexBuffer);
    // the third rectangle's four vertices are uploaded in one piece
    let upload = c3
        .iter()
        .find_map(|c| match c {
            GpuCommand::UploadVertices { first, data } => Some((*first, data.len())),
            _ => None,
        })
        .unwrap();
    assert_eq!(upload, (0, 4));
}

#[test]
fn index_rebasing_offsets_second_rectangle_by_four() {
    let (eng, _) = DrawEngine::new(1024, 2048);
    let (mut ctx, _) = eng.begin_draw(1, 640, 480);
    let c1 = ctx.draw_rect([0, 0], 10, 10, DrawRectParams::colored(red()));
    let c2 = ctx.draw_rect([20, 0], 10, 10, DrawRectParams::colored(red()));
    let idxs1 = c1
        .iter()
        .find_map(|c| match c {
            GpuCommand::UploadIndices { data, .. } => Some(data.clone()),
            _ => None,
        })
        .unwrap();
    let idxs2 = c2
        .iter()
        .find_map(|c| match c {
            GpuCommand::UploadIndices { data, .. } => Some(data.clone()),
            _ => None,
        })
        .unwrap();
    assert_eq!(idxs1, vec![0, 1, 2, 2, 3, 0]);
    assert_eq!(idxs2, vec![4, 5, 6, 6, 7, 4]);
}

#[test]
fn clear_discards_pending_batch() {
    // clear() then an immediate frame end: the final flush draws nothing.
    let (eng, _) = DrawEngine::new(1024, 2048);
    let (mut ctx, _) = eng.begin_draw(1, 640, 480);
    ctx.draw_rect([0, 0], 10, 10, DrawRectParams::colored(red()));
    let cleared = ctx.clear(Color { r: 25, g: 25, b: 25, a: 255 });
    assert_eq!(cleared, vec![GpuCommand::Clear { color: Color { r: 25, g: 25, b: 25, a: 255 } }]);
    let (_, end) = ctx.finish();
    assert_eq!(draws(&end), 0);
    assert_eq!(end, vec![GpuCommand::Present { surface: 1 }]);
}

#[test]
fn untextured_rect_has_degenerate_texcoords_and_white_texture() {
    // Round trip: an untextured rectangle's four vertices all carry
    // texture coordinate (0, 0) and the vertex color; the batch samples
    // the default opaque-white texture, so the drawn color equals the
    // vertex color.
    let (eng, _) = DrawEngine::new(1024, 2048);
    let (mut ctx, _) = eng.begin_draw(1, 640, 480);
    let cmds = ctx.draw_rect([3, 4], 10, 20, DrawRectParams::colored(red()));
    let verts: Vec<Vertex> = cmds
        .iter()
        .find_map(|c| match c {
            GpuCommand::UploadVertices { data, .. } => Some(data.clone()),
            _ => None,
        })
        .unwrap();
    assert_eq!(verts.len(), 4);
    for v in &verts {
        assert_eq!((v.u, v.v), (0, 0));
        assert_eq!(v.col, red());
    }
    assert_eq!(verts[0], Vertex { x: 3, y: 4, col: red(), u: 0, v: 0 });
    assert_eq!(verts[1], Vertex { x: 13, y: 4, col: red(), u: 0, v: 0 });
    assert_eq!(verts[2], Vertex { x: 13, y: 24, col: red(), u: 0, v: 0 });
    assert_eq!(verts[3], Vertex { x: 3, y: 24, col: red(), u: 0, v: 0 });
    let (eng, _) = ctx.finish();
    assert_eq!(eng.current_texture(), eng.default_texture());
}

#[test]
fn tiny_capacity_forces_flush_at_exact_boundary() {
    // End to end with capacity 4 vertices / 6 indices: the first triangle
    // (3 vertices) fits; the second's 3 more would exceed 4, so its
    // submission flushes first; the frame end flushes the rest.
    let (eng, _) = DrawEngine::new(4, 6);
    let (mut ctx, _) = eng.begin_draw(1, 320, 200);
    let c1 = ctx.draw_triangle([0, 0], [10, 0], [5, 8], DrawTriangleParams::colored(red()));
    assert_eq!(draws(&c1), 0);
    let c2 = ctx.draw_triangle([20, 20], [30, 20], [25, 28], DrawTriangleParams::colored(red()));
    assert_eq!(draws(&c2), 1);
    assert_eq!(
        c2[0],
        GpuCommand::DrawIndexed { topo: Topology::Triangles, first: 0, count: 3 }
    );
    assert_eq!(c2[1], GpuCommand::ResetVertexBuffer);
    let (_, end) = ctx.finish();
    assert_eq!(draws(&end), 1);
    assert_eq!(
        end[0],
        GpuCommand::DrawIndexed { topo: Topology::Triangles, first: 3, count: 3 }
    );
    assert_eq!(*end.last().unwrap(), GpuCommand::Present { surface: 1 });
}

#[test]
fn exact_fit_does_not_flush() {
    // Filling the vertex buffer to exactly its capacity is not an
    // overflow: no draw happens until the frame ends.
    let (eng, _) = DrawEngine::new(8, 12);
    let (mut ctx, _) = eng.begin_draw(1, 640, 480);
    let c1 = ctx.draw_rect([0, 0], 4, 4, DrawRectParams::colored(red()));
    let c2 = ctx.draw_rect([8, 0], 4, 4, DrawRectParams::colored(red()));
    assert_eq!(draws(&c1) + draws(&c2), 0);
    let (_, end) = ctx.finish();
    assert_eq!(draws(&end), 1);
    assert_eq!(
        end[0],
        GpuCommand::DrawIndexed { topo: Topology::Triangles, first: 0, count: 12 }
    );
}

#[test]
fn begin_draw_skips_redundant_rebind() {
    let (eng, _) = DrawEngine::new(64, 64);
    let (ctx, first) = eng.begin_draw(7, 640, 480);
    assert_eq!(
        first,
        vec![
            GpuCommand::MakeCurrent { surface: 7 },
            GpuCommand::SetViewport { width: 640, height: 480 },
        ]
    );
    let (eng, _) = ctx.finish();
    // drawing to the same surface again: it is already current
    let (ctx, second) = eng.begin_draw(7, 640, 480);
    assert!(second.is_empty());
    let (eng, _) = ctx.finish();
    // a different surface must be bound and get a fresh viewport
    let (ctx, third) = eng.begin_draw(9, 100, 100);
    assert_eq!(
        third,
        vec![
            GpuCommand::MakeCurrent { surface: 9 },
            GpuCommand::SetViewport { width: 100, height: 100 },
        ]
    );
    let (_, end) = ctx.finish();
    assert_eq!(end, vec![GpuCommand::Present { surface: 9 }]);
}

#[test]
fn lines_batch_and_flush_as_indexed_lines() {
    let (eng, _) = DrawEngine::new(64, 64);
    let (mut ctx, _) = eng.begin_draw(1, 640, 480);
    let c1 = ctx.draw_line([0, 0], [10, 10], red());
    let c2 = ctx.draw_line([5, 0], [15, 10], red());
    assert_eq!(draws(&c1) + draws(&c2), 0);
    let idxs2 = c2
        .iter()
        .find_map(|c| match c {
            GpuCommand::UploadIndices { data, .. } => Some(data.clone()),
            _ => None,
        })
        .unwrap();
    assert_eq!(idxs2, vec![2, 3]);
    let (_, end) = ctx.finish();
    assert_eq!(
        end[0],
        GpuCommand::DrawIndexed { topo: Topology::Lines, first: 0, count: 4 }
    );
}
