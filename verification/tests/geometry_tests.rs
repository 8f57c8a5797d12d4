use flowmap::geometry::{create_quad, Vertex};

#[test]
fn the_quad_has_six_vertices_two_triangles() {
    let q = create_quad();
    assert_eq!(q.len(), 6);
    let expected = vec![
        Vertex { pos: (-1, -1), uv: (0, 0) },
        Vertex { pos: (1, -1), uv: (1, 0) },
        Vertex { pos: (1, 1), uv: (1, 1) },
        Vertex { pos: (-1, -1), uv: (0, 0) },
        Vertex { pos: (1, 1), uv: (1, 1) },
        Vertex { pos: (-1, 1), uv: (0, 1) },
    ];
    assert_eq!(q, expected);
}

#[test]
fn quad_positions_span_the_unit_square_and_uv_the_unit_interval() {
    for v in create_quad() {
        assert!(v.pos.0 == -1 || v.pos.0 == 1);
        assert!(v.pos.1 == -1 || v.pos.1 == 1);
        assert!(v.uv.0 == 0 || v.uv.0 == 1);
        assert!(v.uv.1 == 0 || v.uv.1 == 1);
        // UV follows position: texture corner matches quad corner.
        assert_eq!(v.uv.0, (v.pos.0 + 1) / 2);
        assert_eq!(v.uv.1, (v.pos.1 + 1) / 2);
    }
}

#[test]
fn vertex_new_stores_position_and_uv() {
    let v = Vertex::new((1, -1), (1, 0));
    assert_eq!(v.pos, (1, -1));
    assert_eq!(v.uv, (1, 0));
}

#[test]
fn the_quad_is_deterministic() {
    assert_eq!(create_quad(), create_quad());
}
