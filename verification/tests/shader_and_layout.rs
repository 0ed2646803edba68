use glengine::shader::{location_from_raw, strip_log_terminator, validate_build};
use glengine::stuff::desc_flags;
use glengine::typeinfo::{encode_vertices, plan_attribute_bindings, vertex_layout, vertex_stride, GlTypeEnum};
use glengine::{Color, Rect, Vertex};

#[test]
fn successful_build_surfaces_its_log() {
    assert_eq!(validate_build(true, None), Ok(None));
    assert_eq!(
        validate_build(true, Some("warning: foo".to_string())),
        Ok(Some("warning: foo".to_string()))
    );
}

#[test]
fn failed_build_reports_the_driver_text() {
    assert_eq!(
        validate_build(false, Some("syntax error".to_string())),
        Err("syntax error".to_string())
    );
    assert_eq!(validate_build(false, None), Err("unknown error".to_string()));
}

#[test]
fn locations_are_optional_not_errors() {
    assert_eq!(location_from_raw(-1), None);
    assert_eq!(location_from_raw(0), Some(0));
    assert_eq!(location_from_raw(7), Some(7));
}

#[test]
fn log_buffers_lose_their_trailing_nul_only() {
    assert_eq!(strip_log_terminator(vec![104, 105, 0]), vec![104, 105]);
    assert_eq!(strip_log_terminator(vec![104, 105]), vec![104, 105]);
    assert_eq!(strip_log_terminator(vec![]), Vec::<u8>::new());
    assert_eq!(strip_log_terminator(vec![0]), Vec::<u8>::new());
}

#[test]
fn vertex_layout_is_densely_packed() {
    let layout = vertex_layout();
    assert_eq!(layout.len(), 3);
    assert_eq!(layout[0].name, "pos");
    assert_eq!(layout[0].offset, 0);
    assert_eq!(layout[0].count, 2);
    assert_eq!(layout[0].kind, GlTypeEnum::Short);
    assert!(!layout[0].normalized);
    assert_eq!(layout[1].name, "col");
    assert_eq!(layout[1].offset, 4);
    assert_eq!(layout[1].count, 4);
    assert_eq!(layout[1].kind, GlTypeEnum::UnsignedByte);
    assert!(layout[1].normalized);
    assert_eq!(layout[2].name, "texc");
    assert_eq!(layout[2].offset, 8);
    assert_eq!(layout[2].count, 2);
    assert_eq!(layout[2].kind, GlTypeEnum::UnsignedShort);
    assert!(layout[2].normalized);
    assert_eq!(vertex_stride(), 12);
}

#[test]
fn binding_plan_pairs_fields_with_locations() {
    let layout = vertex_layout();
    let locations = vec![Some(3), Some(0), Some(1)];
    let plan = plan_attribute_bindings(&layout, &locations).unwrap();
    assert_eq!(plan.len(), 3);
    assert_eq!(plan[0].location, 3);
    assert_eq!(plan[0].field, layout[0]);
    assert_eq!(plan[1].location, 0);
    assert_eq!(plan[2].location, 1);
}

#[test]
fn missing_shader_input_is_fatal_at_initialization() {
    let layout = vertex_layout();
    let locations = vec![Some(3), None, Some(1)];
    assert_eq!(plan_attribute_bindings(&layout, &locations), Err(1));
}

#[test]
fn desc_flags_picks_set_bits_in_order() {
    let names = ["zero", "one", "two", "three"];
    assert_eq!(desc_flags(0b0101, &names), vec!["zero", "two"]);
    assert_eq!(desc_flags(0, &names), Vec::<&str>::new());
    assert_eq!(desc_flags(0b1111, &names), vec!["zero", "one", "two", "three"]);
    assert_eq!(desc_flags(-1, &names), vec!["zero", "one", "two", "three"]);
}

#[test]
fn rect_corners_combine_the_two_given_ones() {
    let r = Rect::new([1, 2], [30, 40]);
    assert_eq!(r.top_left(), [1, 2]);
    assert_eq!(r.top_right(), [30, 2]);
    assert_eq!(r.bottom_right(), [30, 40]);
    assert_eq!(r.bottom_left(), [1, 40]);
}

#[test]
fn vertices_encode_little_endian_at_layout_offsets() {
    let v = Vertex {
        x: 0x0102,
        y: -2, // 0xFFFE as two's complement
        col: Color { r: 10, g: 20, b: 30, a: 40 },
        u: 0x0304,
        v: 0xA0B0,
    };
    let bytes = encode_vertices(&vec![v, v]);
    assert_eq!(bytes.len(), 24);
    assert_eq!(
        &bytes[0..12],
        &[0x02, 0x01, 0xFE, 0xFF, 10, 20, 30, 40, 0x04, 0x03, 0xB0, 0xA0]
    );
    assert_eq!(&bytes[12..24], &bytes[0..12]);
}
