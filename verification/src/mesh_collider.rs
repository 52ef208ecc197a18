//! Conversion of a render mesh into the point and triangle buffers a
//! trimesh collider is built from.
//!
//! The conversion reads the mesh's position attribute and its index
//! buffer. Its errors form a closed set: an unsupported vertex format, a
//! missing position attribute, a missing index buffer. Each is reported
//! to the caller, never silently defaulted. Coordinates travel as the
//! 32-bit patterns of the numbers they stand for.

use vstd::prelude::*;

verus! {

/// The vertex buffer holds positions in a format other than three
/// 32-bit reals per vertex.
#[derive(Clone, Copy, PartialEq, Eq, Structural, Debug, Default)]
pub struct VertexFormatError();

impl VertexFormatError {
    pub fn message(&self) -> (r: &'static str)
        ensures
            r@ == "Invalid vertex buffer format! Only Float3 is allowed."@,
    {
        "Invalid vertex buffer format! Only Float3 is allowed."
    }
}

/// The mesh carries no vertex position attribute.
#[derive(Clone, Copy, PartialEq, Eq, Structural, Debug, Default)]
pub struct VertexPositionAttributeMissing();

impl VertexPositionAttributeMissing {
    pub fn message(&self) -> (r: &'static str)
        ensures
            r@ == "Vertex position attribute missing."@,
    {
        "Vertex position attribute missing."
    }
}

/// The mesh carries no index buffer.
#[derive(Clone, Copy, PartialEq, Eq, Structural, Debug, Default)]
pub struct VertexIndicesMissing();

impl VertexIndicesMissing {
    pub fn message(&self) -> (r: &'static str)
        ensures
            r@ == "Vertex indices missing."@,
    {
        "Vertex indices missing."
    }
}

/// The closed set of mesh-conversion errors.
#[derive(Clone, Copy, PartialEq, Eq, Structural, Debug)]
pub enum ErrorSum {
    VertexFormatError(VertexFormatError),
    VertexPositionAttributeMissing(VertexPositionAttributeMissing),
    VertexIndicesMissing(VertexIndicesMissing),
}

impl ErrorSum {
    pub fn message(&self) -> (r: &'static str)
        ensures
            match self {
                ErrorSum::VertexFormatError(_) => r@
                    == "Invalid vertex buffer format! Only Float3 is allowed."@,
                ErrorSum::VertexPositionAttributeMissing(_) => r@
                    == "Vertex position attribute missing."@,
                ErrorSum::VertexIndicesMissing(_) => r@ == "Vertex indices missing."@,
            },
    {
        match self {
            ErrorSum::VertexFormatError(e) => e.message(),
            ErrorSum::VertexPositionAttributeMissing(e) => e.message(),
            ErrorSum::VertexIndicesMissing(e) => e.message(),
        }
    }
}

/// One mesh point: three coordinate bit patterns.
#[derive(Clone, Copy, PartialEq, Eq, Structural, Debug)]
pub struct Point3Bits {
    pub x: u32,
    pub y: u32,
    pub z: u32,
}

/// One triangle: three indices into the point buffer.
#[derive(Clone, Copy, PartialEq, Eq, Structural, Debug)]
pub struct TriangleIndices {
    pub a: u32,
    pub b: u32,
    pub c: u32,
}

/// The position attribute of a mesh: a flat buffer of coordinates, a
/// buffer of packed three-coordinate points, or a format the conversion
/// does not support.
#[derive(Clone, PartialEq, Eq, Debug)]
pub enum VertexAttributeValues {
    Float32(Vec<u32>),
    Float32x3(Vec<Point3Bits>),
    Unsupported,
}

/// The index buffer of a mesh, in either index width.
#[derive(Clone, PartialEq, Eq, Debug)]
pub enum Indices {
    U16(Vec<u16>),
    U32(Vec<u32>),
}

/// What the conversion reads of a render mesh: its optional position
/// attribute and its optional index buffer.
#[derive(Clone, PartialEq, Eq, Debug)]
pub struct Mesh {
    pub positions: Option<VertexAttributeValues>,
    pub indices: Option<Indices>,
}

/// A mesh destined to become a shared trimesh shape.
#[derive(Clone, PartialEq, Eq, Debug)]
pub struct SharedShapeMesh(pub Mesh);

/// The points a supported position attribute stands for: a flat buffer
/// yields one point per three coordinates, a packed buffer is taken as
/// is.
pub open spec fn spec_points(v: VertexAttributeValues) -> Seq<Point3Bits> {
    match v {
        VertexAttributeValues::Float32(b) => Seq::new(
            b@.len() / 3,
            |i: int| Point3Bits { x: b@[3 * i], y: b@[3 * i + 1], z: b@[3 * i + 2] },
        ),
        VertexAttributeValues::Float32x3(p) => p@,
        VertexAttributeValues::Unsupported => Seq::empty(),
    }
}

/// The triangles an index buffer stands for: one per three indices, a
/// trailing partial triple dropped.
pub open spec fn spec_triangles(ix: Indices) -> Seq<TriangleIndices> {
    match ix {
        Indices::U16(v) => Seq::new(
            v@.len() / 3,
            |i: int| TriangleIndices {
                a: v@[3 * i] as u32,
                b: v@[3 * i + 1] as u32,
                c: v@[3 * i + 2] as u32,
            },
        ),
        Indices::U32(v) => Seq::new(
            v@.len() / 3,
            |i: int| TriangleIndices { a: v@[3 * i], b: v@[3 * i + 1], c: v@[3 * i + 2] },
        ),
    }
}

impl SharedShapeMesh {
    /// Converts the mesh into the point and triangle buffers a trimesh
    /// shape is built from. A mesh with `n` packed points and `3k`
    /// indices yields exactly `n` points and `k` triangles; a missing
    /// position attribute, an unsupported position format and a missing
    /// index buffer are each reported as their own error. A flat
    /// coordinate buffer must hold whole points.
    pub fn try_from(mesh: SharedShapeMesh) -> (r: Result<
        (Vec<Point3Bits>, Vec<TriangleIndices>),
        ErrorSum,
    >)
        requires
            mesh.0.positions matches Some(VertexAttributeValues::Float32(b)) ==> b@.len() % 3
                == 0,
        ensures
            mesh.0.positions is None ==> r == Err::<(Vec<Point3Bits>, Vec<TriangleIndices>),
            ErrorSum>(
                ErrorSum::VertexPositionAttributeMissing(VertexPositionAttributeMissing()),
            ),
            mesh.0.positions == Some(VertexAttributeValues::Unsupported) ==> r == Err::<(
                Vec<Point3Bits>,
                Vec<TriangleIndices>,
            ), ErrorSum>(ErrorSum::VertexFormatError(VertexFormatError())),
            (match mesh.0.positions {
                Some(VertexAttributeValues::Float32(_)) => true,
                Some(VertexAttributeValues::Float32x3(_)) => true,
                _ => false,
            }) && mesh.0.indices is None ==> r == Err::<(
                Vec<Point3Bits>,
                Vec<TriangleIndices>,
            ), ErrorSum>(ErrorSum::VertexIndicesMissing(VertexIndicesMissing())),
            (match mesh.0.positions {
                Some(VertexAttributeValues::Float32(_)) => true,
                Some(VertexAttributeValues::Float32x3(_)) => true,
                _ => false,
            }) && mesh.0.indices is Some ==> (r matches Ok(out) && out.0@ == spec_points(
                mesh.0.positions->Some_0,
            ) && out.1@ == spec_triangles(mesh.0.indices->Some_0)),
    {
        let vtx: Vec<Point3Bits> = match &mesh.0.positions {
            None => {
                return Err(
                    ErrorSum::VertexPositionAttributeMissing(VertexPositionAttributeMissing()),
                );
            },
            Some(VertexAttributeValues::Unsupported) => {
                return Err(ErrorSum::VertexFormatError(VertexFormatError()));
            },
            Some(VertexAttributeValues::Float32(b)) => {
                let n = b.len();
                let count = n / 3;
                let mut out: Vec<Point3Bits> = Vec::new();
                let mut i: usize = 0;
                while i < count
                    invariant
                        i <= count,
                        n == b@.len(),
                        n % 3 == 0,
                        count == n / 3,
                        out@.len() == i,
                        forall|j: int|
                            0 <= j < i ==> (#[trigger] out@[j]) == (Point3Bits {
                                x: b@[3 * j],
                                y: b@[3 * j + 1],
                                z: b@[3 * j + 2],
                            }),
                    decreases count - i,
                {
                    let x = b[3 * i];
                    let y = b[3 * i + 1];
                    let z = b[3 * i + 2];
                    out.push(Point3Bits { x, y, z });
                    i += 1;
                }
                proof {
                    assert(out@ =~= spec_points(mesh.0.positions->Some_0));
                }
                out
            },
            Some(VertexAttributeValues::Float32x3(p)) => {
                let n = p.len();
                let mut out: Vec<Point3Bits> = Vec::new();
                let mut i: usize = 0;
                while i < n
                    invariant
                        i <= n,
                        n == p@.len(),
                        out@.len() == i,
                        forall|j: int| 0 <= j < i ==> (#[trigger] out@[j]) == p@[j],
                    decreases n - i,
                {
                    let v = p[i];
                    out.push(v);
                    i += 1;
                }
                proof {
                    assert(out@ =~= spec_points(mesh.0.positions->Some_0));
                }
                out
            },
        };
        let idx: Vec<TriangleIndices> = match &mesh.0.indices {
            None => {
                return Err(ErrorSum::VertexIndicesMissing(VertexIndicesMissing()));
            },
            Some(Indices::U16(v)) => {
                let n = v.len();
                let count = n / 3;
                let mut out: Vec<TriangleIndices> = Vec::new();
                let mut i: usize = 0;
                while i < count
                    invariant
                        i <= count,
                        n == v@.len(),
                        count == n / 3,
                        out@.len() == i,
                        forall|j: int|
                            0 <= j < i ==> (#[trigger] out@[j]) == (TriangleIndices {
                                a: v@[3 * j] as u32,
                                b: v@[3 * j + 1] as u32,
                                c: v@[3 * j + 2] as u32,
                            }),
                    decreases count - i,
                {
                    let a = v[3 * i] as u32;
                    let b = v[3 * i + 1] as u32;
                    let c = v[3 * i + 2] as u32;
                    out.push(TriangleIndices { a, b, c });
                    i += 1;
                }
                proof {
                    assert(out@ =~= spec_triangles(mesh.0.indices->Some_0));
                }
                out
            },
            Some(Indices::U32(v)) => {
                let n = v.len();
                let count = n / 3;
                let mut out: Vec<TriangleIndices> = Vec::new();
                let mut i: usize = 0;
                while i < count
                    invariant
                        i <= count,
                        n == v@.len(),
                        count == n / 3,
                        out@.len() == i,
                        forall|j: int|
                            0 <= j < i ==> (#[trigger] out@[j]) == (TriangleIndices {
                                a: v@[3 * j],
                                b: v@[3 * j + 1],
                                c: v@[3 * j + 2],
                            }),
                    decreases count - i,
                {
                    let a = v[3 * i];
                    let b = v[3 * i + 1];
                    let c = v[3 * i + 2];
                    out.push(TriangleIndices { a, b, c });
                    i += 1;
                }
                proof {
                    assert(out@ =~= spec_triangles(mesh.0.indices->Some_0));
                }
                out
            },
        };
        Ok((vtx, idx))
    }
}

} // verus!
