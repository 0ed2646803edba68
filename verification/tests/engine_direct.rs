use glengine::commands::GpuCommand;
use glengine::{Color, DrawEngine, Topology, Vertex};

fn vertex(x: i16, y: i16) -> Vertex {
    Vertex { x, y, col: Color { r: 0, g: 255, b: 0, a: 255 }, u: 0, v: 0 }
}

#[test]
fn push_geometry_appends_and_flush_draws_once() {
    let (mut eng, _) = DrawEngine::new(16, 16);
    let cmds = eng.push_geometry(
        Topology::Triangles,
        0,
        vec![vertex(0, 0), vertex(1, 0), vertex(0, 1)],
        vec![0, 1, 2],
    );
    assert_eq!(cmds.len(), 2);
    assert!(matches!(cmds[0], GpuCommand::UploadVertices { first: 0, .. }));
    assert!(matches!(cmds[1], GpuCommand::UploadIndices { first: 0, .. }));
    assert_eq!(eng.pending_vertices(), 3);
    assert_eq!(eng.pending_indices(), 3);

    let flushed = eng.flush();
    assert_eq!(
        flushed,
        vec![GpuCommand::DrawIndexed { topo: Topology::Triangles, first: 0, count: 3 }]
    );
    assert_eq!(eng.pending_vertices(), 0);
    assert_eq!(eng.vertex_offset(), 3);
    assert_eq!(eng.index_offset(), 3);

    // nothing pending: a second flush emits nothing at all
    assert!(eng.flush().is_empty());
}

#[test]
fn empty_submission_draws_nothing() {
    let (mut eng, _) = DrawEngine::new(16, 16);
    let cmds = eng.push_geometry(Topology::Triangles, 0, Vec::new(), Vec::new());
    assert_eq!(cmds.len(), 2);
    assert!(eng.flush().is_empty());
    assert_eq!(eng.vertex_offset(), 0);
}

#[test]
fn points_flush_as_direct_array_draw() {
    let (mut eng, _) = DrawEngine::new(16, 16);
    eng.push_geometry(Topology::Points, 0, vec![vertex(5, 5)], vec![0]);
    eng.push_geometry(Topology::Points, 0, vec![vertex(6, 6)], vec![0]);
    let flushed = eng.flush();
    assert_eq!(flushed, vec![GpuCommand::DrawArrays { first: 0, count: 2 }]);
}

#[test]
fn sentinel_texture_resolves_to_default_white() {
    let (mut eng, _) = DrawEngine::new(16, 16);
    let (tex, _) = eng.create_texture(4, 4);
    assert_eq!(eng.current_texture(), tex);
    // drawing with the 0 sentinel rebinds the default white texture
    let cmds = eng.push_geometry(
        Topology::Triangles,
        0,
        vec![vertex(0, 0), vertex(1, 0), vertex(0, 1)],
        vec![0, 1, 2],
    );
    assert!(cmds.contains(&GpuCommand::BindTexture { tex: eng.default_texture() }));
    assert_eq!(eng.current_texture(), eng.default_texture());
}
