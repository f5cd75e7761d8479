//! Mesh descriptors: the geometry and topology of a renderable shape.
//!
//! A mesh is three parallel sequences: vertex positions (three coordinates per
//! vertex), vertex colours (four channels per vertex) and triangle indices
//! (three per triangle). Coordinates and channels are whole numbers; whoever
//! hands them to the graphics driver turns each into the float of the same
//! value.

use vstd::prelude::*;

verus! {

/// Coordinates per vertex position.
pub const POSITION_COMPONENTS: u32 = 3;

/// Channels per vertex colour.
pub const COLOR_COMPONENTS: u32 = 4;

/// The layout that every mesh keeps: whole vertices, one colour per vertex,
/// whole triangles, and no index that points past the last vertex.
pub open spec fn layout_valid(positions: Seq<i32>, colors: Seq<i32>, indices: Seq<u8>) -> bool {
    &&& positions.len() % 3 == 0
    &&& colors.len() % 4 == 0
    &&& colors.len() / 4 == positions.len() / 3
    &&& indices.len() % 3 == 0
    &&& forall|i: int| 0 <= i < indices.len() ==> (#[trigger] indices[i]) < positions.len() / 3
}

/// A point or a direction in space.
pub type Vector = (int, int, int);

/// The position of vertex number `vertex`.
pub open spec fn corner(positions: Seq<i32>, vertex: int) -> Vector {
    (
        positions[3 * vertex] as int,
        positions[3 * vertex + 1] as int,
        positions[3 * vertex + 2] as int,
    )
}

/// The direction from `from` to `to`.
pub open spec fn edge(from: Vector, to: Vector) -> Vector {
    (to.0 - from.0, to.1 - from.1, to.2 - from.2)
}

/// The cross product of two directions.
pub open spec fn cross(a: Vector, b: Vector) -> Vector {
    (a.1 * b.2 - a.2 * b.1, a.2 * b.0 - a.0 * b.2, a.0 * b.1 - a.1 * b.0)
}

/// The dot product of two directions.
pub open spec fn dot(a: Vector, b: Vector) -> int {
    a.0 * b.0 + a.1 * b.1 + a.2 * b.2
}

/// Four points lie in one plane: the box spanned by the three directions out
/// of the first point has no volume.
pub open spec fn coplanar(a: Vector, b: Vector, c: Vector, d: Vector) -> bool {
    dot(edge(a, b), cross(edge(a, c), edge(a, d))) == 0
}

/// Walking `a`, `b`, `c`, `d` and back to `a` turns the same way, by less than
/// a half turn, at every corner.
pub open spec fn convex(a: Vector, b: Vector, c: Vector, d: Vector) -> bool {
    let turn = cross(edge(a, b), edge(b, c));
    &&& dot(turn, turn) > 0
    &&& dot(turn, cross(edge(b, c), edge(c, d))) > 0
    &&& dot(turn, cross(edge(c, d), edge(d, a))) > 0
    &&& dot(turn, cross(edge(d, a), edge(a, b))) > 0
}

/// The four vertices of face number `face`, which start at vertex `4 * face`,
/// are the corners of a flat convex quad.
pub open spec fn face_is_convex_quad(positions: Seq<i32>, face: int) -> bool {
    let a = corner(positions, 4 * face);
    let b = corner(positions, 4 * face + 1);
    let c = corner(positions, 4 * face + 2);
    let d = corner(positions, 4 * face + 3);
    coplanar(a, b, c, d) && convex(a, b, c, d)
}

/// How a quad is cut into two triangles: the corners of the first, then those
/// of the second, each counted from the quad's first vertex.
pub open spec fn quad_split() -> Seq<int> {
    seq![0, 1, 2, 0, 2, 3]
}

/// The positions of the cube's 24 vertices: front, back, top, bottom, right
/// and left face, four corners each.
pub open spec fn cube_positions() -> Seq<i32> {
    seq![
        -1i32, -1i32, 1, 1, -1i32, 1, 1, 1, 1, -1i32, 1, 1,
        -1i32, -1i32, -1i32, -1i32, 1, -1i32, 1, 1, -1i32, 1, -1i32, -1i32,
        -1i32, 1, -1i32, -1i32, 1, 1, 1, 1, 1, 1, 1, -1i32,
        -1i32, -1i32, -1i32, 1, -1i32, -1i32, 1, -1i32, 1, -1i32, -1i32, 1,
        1, -1i32, -1i32, 1, 1, -1i32, 1, 1, 1, 1, -1i32, 1,
        -1i32, -1i32, -1i32, -1i32, -1i32, 1, -1i32, 1, 1, -1i32, 1, -1i32,
    ]
}

/// The colour of each face of the cube, as red, green, blue and alpha: white,
/// red, green, blue, yellow and purple.
pub open spec fn cube_face_colors() -> Seq<i32> {
    seq![
        1i32, 1, 1, 1,
        1, 0, 0, 1,
        0, 1, 0, 1,
        0, 0, 1, 1,
        1, 1, 0, 1,
        1, 0, 1, 1,
    ]
}

/// The colours of the cube's 24 vertices: every vertex has the colour of its
/// face.
pub open spec fn cube_colors() -> Seq<i32> {
    Seq::new(96, |i: int| cube_face_colors()[4 * (i / 16) + i % 4])
}

/// The cube's 12 triangles: each face is a quad of its own four vertices, cut
/// as `quad_split` says.
pub open spec fn cube_indices() -> Seq<u8> {
    Seq::new(36, |i: int| (4 * (i / 6) + quad_split()[i % 6]) as u8)
}

/// A shape that can be drawn: a source of vertex positions, vertex colours and
/// triangle indices.
pub trait Model {
    /// The coordinates of the vertices, three per vertex.
    spec fn position_data(&self) -> Seq<i32>;

    /// The colour channels of the vertices, four per vertex.
    spec fn color_data(&self) -> Seq<i32>;

    /// The vertex numbers of the triangles, three per triangle.
    spec fn index_data(&self) -> Seq<u8>;

    /// The mesh is as its constructor made it.
    spec fn well_formed(&self) -> bool;

    /// The three sequences of a mesh that is well formed fit together.
    proof fn layout_is_valid(&self)
        requires
            self.well_formed(),
        ensures
            layout_valid(self.position_data(), self.color_data(), self.index_data()),
    ;

    fn positions(&self) -> (data: Vec<i32>)
        ensures
            data@ == self.position_data(),
    ;

    fn colors(&self) -> (data: Vec<i32>)
        ensures
            data@ == self.color_data(),
    ;

    fn indices(&self) -> (data: Vec<u8>)
        ensures
            data@ == self.index_data(),
    ;
}

/// The index accessor is a pure function of the mesh: whatever two calls on
/// one mesh return, it is the same sequence.
pub proof fn indices_are_repeatable<M: Model>(mesh: &M, first: Vec<u8>, second: Vec<u8>)
    requires
        call_ensures(M::indices, (mesh,), first),
        call_ensures(M::indices, (mesh,), second),
    ensures
        first@ == second@,
{
}

/// A cube with edges of length 2 around the origin, one colour per face.
pub struct Cube {
    positions: Vec<i32>,
    colors: Vec<i32>,
    indices: Vec<u8>,
}

impl Cube {
    #[verifier::type_invariant]
    spec fn holds_the_tables(&self) -> bool {
        &&& self.positions@ == cube_positions()
        &&& self.colors@ == cube_colors()
        &&& self.indices@ == cube_indices()
    }

    /// The cube: it holds the three tables, and is well formed.
    pub fn new() -> (cube: Self)
        ensures
            cube.well_formed(),
            cube.position_data() == cube_positions(),
            cube.color_data() == cube_colors(),
            cube.index_data() == cube_indices(),
    {
        let positions: Vec<i32> = vec![
            // Front face
            -1, -1, 1,
            1, -1, 1,
            1, 1, 1,
            -1, 1, 1,
            // Back face
            -1, -1, -1,
            -1, 1, -1,
            1, 1, -1,
            1, -1, -1,
            // Top face
            -1, 1, -1,
            -1, 1, 1,
            1, 1, 1,
            1, 1, -1,
            // Bottom face
            -1, -1, -1,
            1, -1, -1,
            1, -1, 1,
            -1, -1, 1,
            // Right face
            1, -1, -1,
            1, 1, -1,
            1, 1, 1,
            1, -1, 1,
            // Left face
            -1, -1, -1,
            -1, -1, 1,
            -1, 1, 1,
            -1, 1, -1,
        ];
        let face_colors: Vec<i32> = vec![
            1, 1, 1, 1,  // Front face: white
            1, 0, 0, 1,  // Back face: red
            0, 1, 0, 1,  // Top face: green
            0, 0, 1, 1,  // Bottom face: blue
            1, 1, 0, 1,  // Right face: yellow
            1, 0, 1, 1,  // Left face: purple
        ];
        let split: Vec<u8> = vec![0, 1, 2, 0, 2, 3];
        assert(positions@ =~= cube_positions());
        assert(face_colors@ =~= cube_face_colors());
        assert(split@.len() == 6 && forall|k: int| 0 <= k < 6 ==> split@[k] == quad_split()[k]);

        let mut colors: Vec<i32> = Vec::new();
        let mut indices: Vec<u8> = Vec::new();
        let mut face: usize = 0;
        while face < 6
            invariant
                face <= 6,
                face_colors@ == cube_face_colors(),
                split@.len() == 6,
                forall|k: int| 0 <= k < 6 ==> split@[k] == quad_split()[k],
                colors@.len() == 16 * face,
                forall|i: int| 0 <= i < 16 * face ==> colors@[i] == cube_colors()[i],
                indices@.len() == 6 * face,
                forall|i: int| 0 <= i < 6 * face ==> indices@[i] == cube_indices()[i],
            decreases 6 - face,
        {
            let mut vertex: usize = 0;
            while vertex < 4
                invariant
                    face < 6,
                    vertex <= 4,
                    face_colors@ == cube_face_colors(),
                    colors@.len() == 16 * face + 4 * vertex,
                    forall|i: int| 0 <= i < 16 * face + 4 * vertex ==> colors@[i] == cube_colors()[i],
                decreases 4 - vertex,
            {
                let mut channel: usize = 0;
                while channel < 4
                    invariant
                        face < 6,
                        vertex < 4,
                        channel <= 4,
                        face_colors@ == cube_face_colors(),
                        colors@.len() == 16 * face + 4 * vertex + channel,
                        forall|i: int|
                            0 <= i < 16 * face + 4 * vertex + channel ==> colors@[i]
                                == cube_colors()[i],
                    decreases 4 - channel,
                {
                    colors.push(face_colors[4 * face + channel]);
                    channel += 1;
                }
                vertex += 1;
            }
            let first: u8 = (4 * face) as u8;
            let mut k: usize = 0;
            while k < 6
                invariant
                    face < 6,
                    k <= 6,
                    first == 4 * face,
                    split@.len() == 6,
                    forall|j: int| 0 <= j < 6 ==> split@[j] == quad_split()[j],
                    indices@.len() == 6 * face + k,
                    forall|i: int| 0 <= i < 6 * face + k ==> indices@[i] == cube_indices()[i],
                decreases 6 - k,
            {
                assert(quad_split()[k as int] <= 3);
                indices.push(first + split[k]);
                k += 1;
            }
            face += 1;
        }
        assert(colors@ =~= cube_colors());
        assert(indices@ =~= cube_indices());
        Cube { positions, colors, indices }
    }
}

impl Model for Cube {
    closed spec fn position_data(&self) -> Seq<i32> {
        self.positions@
    }

    closed spec fn color_data(&self) -> Seq<i32> {
        self.colors@
    }

    closed spec fn index_data(&self) -> Seq<u8> {
        self.indices@
    }

    closed spec fn well_formed(&self) -> bool {
        self.holds_the_tables()
    }

    proof fn layout_is_valid(&self) {
        cube_layout_is_valid();
    }

    fn positions(&self) -> (data: Vec<i32>) {
        let data = self.positions.clone();
        assert(data@ =~= self.positions@);
        data
    }

    fn colors(&self) -> (data: Vec<i32>) {
        let data = self.colors.clone();
        assert(data@ =~= self.colors@);
        data
    }

    fn indices(&self) -> (data: Vec<u8>) {
        let data = self.indices.clone();
        assert(data@ =~= self.indices@);
        data
    }
}

/// A cube that is well formed holds the three tables.
pub proof fn well_formed_cube_holds_the_tables(cube: Cube)
    requires
        cube.well_formed(),
    ensures
        cube.position_data() == cube_positions(),
        cube.color_data() == cube_colors(),
        cube.index_data() == cube_indices(),
{
}

/// The cube has 24 vertices, a colour for each, and 12 triangles whose 36
/// indices all name one of the 24 vertices.
pub proof fn cube_layout_is_valid()
    ensures
        cube_positions().len() == 72,
        cube_colors().len() == 96,
        cube_indices().len() == 36,
        forall|i: int| 0 <= i < 36 ==> (#[trigger] cube_indices()[i]) < 24,
        layout_valid(cube_positions(), cube_colors(), cube_indices()),
{
    assert forall|i: int| 0 <= i < 36 implies (#[trigger] cube_indices()[i]) < 24 by {
        assert(0 <= quad_split()[i % 6] <= 3);
    }
}

/// Every face of the cube is a flat convex quad.
pub proof fn cube_faces_are_convex_quads()
    ensures
        forall|face: int| 0 <= face < 6 ==> face_is_convex_quad(cube_positions(), face),
{
    let p = cube_positions();
    assert(face_is_convex_quad(p, 0)) by {
        let a = corner(p, 0);
        let b = corner(p, 1);
        let c = corner(p, 2);
        let d = corner(p, 3);
        assert(coplanar(a, b, c, d) && convex(a, b, c, d)) by (nonlinear_arith)
            requires
                a == (-1int, -1int, 1int),
                b == (1int, -1int, 1int),
                c == (1int, 1int, 1int),
                d == (-1int, 1int, 1int),
        ;
    }
    assert(face_is_convex_quad(p, 1)) by {
        let a = corner(p, 4);
        let b = corner(p, 5);
        let c = corner(p, 6);
        let d = corner(p, 7);
        assert(coplanar(a, b, c, d) && convex(a, b, c, d)) by (nonlinear_arith)
            requires
                a == (-1int, -1int, -1int),
                b == (-1int, 1int, -1int),
                c == (1int, 1int, -1int),
                d == (1int, -1int, -1int),
        ;
    }
    assert(face_is_convex_quad(p, 2)) by {
        let a = corner(p, 8);
        let b = corner(p, 9);
        let c = corner(p, 10);
        let d = corner(p, 11);
        assert(coplanar(a, b, c, d) && convex(a, b, c, d)) by (nonlinear_arith)
            requires
                a == (-1int, 1int, -1int),
                b == (-1int, 1int, 1int),
                c == (1int, 1int, 1int),
                d == (1int, 1int, -1int),
        ;
    }
    assert(face_is_convex_quad(p, 3)) by {
        let a = corner(p, 12);
        let b = corner(p, 13);
        let c = corner(p, 14);
        let d = corner(p, 15);
        assert(coplanar(a, b, c, d) && convex(a, b, c, d)) by (nonlinear_arith)
            requires
                a == (-1int, -1int, -1int),
                b == (1int, -1int, -1int),
                c == (1int, -1int, 1int),
                d == (-1int, -1int, 1int),
        ;
    }
    assert(face_is_convex_quad(p, 4)) by {
        let a = corner(p, 16);
        let b = corner(p, 17);
        let c = corner(p, 18);
        let d = corner(p, 19);
        assert(coplanar(a, b, c, d) && convex(a, b, c, d)) by (nonlinear_arith)
            requires
                a == (1int, -1int, -1int),
                b == (1int, 1int, -1int),
                c == (1int, 1int, 1int),
                d == (1int, -1int, 1int),
        ;
    }
    assert(face_is_convex_quad(p, 5)) by {
        let a = corner(p, 20);
        let b = corner(p, 21);
        let c = corner(p, 22);
        let d = corner(p, 23);
        assert(coplanar(a, b, c, d) && convex(a, b, c, d)) by (nonlinear_arith)
            requires
                a == (-1int, -1int, -1int),
                b == (-1int, -1int, 1int),
                c == (-1int, 1int, 1int),
                d == (-1int, 1int, -1int),
        ;
    }
}

/// Index `6 * face + k` of the cube is corner `quad_split()[k]` of the quad
/// that starts at vertex `4 * face`: each face is cut into the triangles
/// (0, 1, 2) and (0, 2, 3) of its own four vertices.
pub proof fn cube_triangulation(face: int, k: int)
    requires
        0 <= face < 6,
        0 <= k < 6,
    ensures
        cube_indices()[6 * face + k] == 4 * face + quad_split()[k],
{
    let i = 6 * face + k;
    assert(i / 6 == face && i % 6 == k);
}

} // verus!
