use physics_bridge::mesh_collider::{
    ErrorSum, Indices, Mesh, Point3Bits, SharedShapeMesh, TriangleIndices,
    VertexAttributeValues,
};

fn p(x: f32, y: f32, z: f32) -> Point3Bits {
    Point3Bits { x: x.to_bits(), y: y.to_bits(), z: z.to_bits() }
}

#[test]
fn packed_points_and_triangle_indices_convert_exactly() {
    let points = vec![
        p(0.0, 0.0, 0.0),
        p(1.0, 0.0, 0.0),
        p(0.0, 1.0, 0.0),
        p(0.0, 0.0, 1.0),
    ];
    let mesh = SharedShapeMesh(Mesh {
        positions: Some(VertexAttributeValues::Float32x3(points.clone())),
        indices: Some(Indices::U32(vec![0, 1, 2, 1, 2, 3])),
    });
    let (vtx, tri) = SharedShapeMesh::try_from(mesh).unwrap();
    assert_eq!(vtx.len(), 4);
    assert_eq!(tri.len(), 2);
    assert_eq!(vtx, points);
    assert_eq!(tri[0], TriangleIndices { a: 0, b: 1, c: 2 });
    assert_eq!(tri[1], TriangleIndices { a: 1, b: 2, c: 3 });
}

#[test]
fn flat_coordinate_buffer_is_grouped_into_points() {
    let flat: Vec<u32> = [0.0f32, 0.5, 1.0, 2.0, 3.0, 4.0]
        .iter()
        .map(|v| v.to_bits())
        .collect();
    let mesh = SharedShapeMesh(Mesh {
        positions: Some(VertexAttributeValues::Float32(flat)),
        indices: Some(Indices::U32(vec![0, 1, 0])),
    });
    let (vtx, tri) = SharedShapeMesh::try_from(mesh).unwrap();
    assert_eq!(vtx, vec![p(0.0, 0.5, 1.0), p(2.0, 3.0, 4.0)]);
    assert_eq!(tri, vec![TriangleIndices { a: 0, b: 1, c: 0 }]);
}

#[test]
fn narrow_indices_are_widened() {
    let mesh = SharedShapeMesh(Mesh {
        positions: Some(VertexAttributeValues::Float32x3(vec![p(0.0, 0.0, 0.0)])),
        indices: Some(Indices::U16(vec![0, 0, 0, 0, 0, 0, 0])),
    });
    let (vtx, tri) = SharedShapeMesh::try_from(mesh).unwrap();
    assert_eq!(vtx.len(), 1);
    // a trailing partial triple is dropped
    assert_eq!(tri.len(), 2);
}

#[test]
fn missing_position_attribute_is_reported() {
    let mesh = SharedShapeMesh(Mesh {
        positions: None,
        indices: Some(Indices::U32(vec![0, 1, 2])),
    });
    let err = SharedShapeMesh::try_from(mesh).unwrap_err();
    assert!(matches!(err, ErrorSum::VertexPositionAttributeMissing(_)));
    assert_eq!(err.message(), "Vertex position attribute missing.");
}

#[test]
fn missing_indices_are_reported() {
    let mesh = SharedShapeMesh(Mesh {
        positions: Some(VertexAttributeValues::Float32x3(vec![p(0.0, 0.0, 0.0)])),
        indices: None,
    });
    let err = SharedShapeMesh::try_from(mesh).unwrap_err();
    assert!(matches!(err, ErrorSum::VertexIndicesMissing(_)));
    assert_eq!(err.message(), "Vertex indices missing.");
}

#[test]
fn unsupported_vertex_format_is_reported() {
    let mesh = SharedShapeMesh(Mesh {
        positions: Some(VertexAttributeValues::Unsupported),
        indices: Some(Indices::U32(vec![0, 1, 2])),
    });
    let err = SharedShapeMesh::try_from(mesh).unwrap_err();
    assert!(matches!(err, ErrorSum::VertexFormatError(_)));
    assert_eq!(
        err.message(),
        "Invalid vertex buffer format! Only Float3 is allowed."
    );
}

#[test]
fn format_error_takes_precedence_over_missing_indices() {
    let mesh = SharedShapeMesh(Mesh {
        positions: Some(VertexAttributeValues::Unsupported),
        indices: None,
    });
    let err = SharedShapeMesh::try_from(mesh).unwrap_err();
    assert!(matches!(err, ErrorSum::VertexFormatError(_)));
}

#[test]
fn empty_buffers_convert_to_empty_buffers() {
    let mesh = SharedShapeMesh(Mesh {
        positions: Some(VertexAttributeValues::Float32x3(vec![])),
        indices: Some(Indices::U32(vec![])),
    });
    let (vtx, tri) = SharedShapeMesh::try_from(mesh).unwrap();
    assert!(vtx.is_empty());
    assert!(tri.is_empty());
}
