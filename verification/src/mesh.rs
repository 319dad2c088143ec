//! The cube mesh: eight shared corners, one texture quad reused by every
//! face, and the index list that expands them into flat vertices.

use vstd::prelude::*;

verus! {

/// Number of distinct corners of the cube.
pub const CORNER_COUNT: usize = 8;

/// Number of texture coordinates in the quad that every face reuses.
pub const FACE_VERTEX_COUNT: usize = 6;

/// Number of indices, and of expanded vertices: six faces of two triangles.
pub const INDEX_COUNT: usize = 36;

/// A corner position on the integer lattice.
#[derive(Clone, Copy, Debug, PartialEq, Eq, Structural)]
pub struct Position {
    pub x: i32,
    pub y: i32,
    pub z: i32,
}

/// A texture coordinate on the integer lattice.
#[derive(Clone, Copy, Debug, PartialEq, Eq, Structural)]
pub struct TexCoord {
    pub u: i32,
    pub v: i32,
}

/// One vertex as the GPU receives it: a position and a texture coordinate.
#[derive(Clone, Copy, Debug, PartialEq, Eq, Structural)]
pub struct Vertex {
    pub position: Position,
    pub tex_coords: TexCoord,
}

/// The eight corners of the unit cube.
pub open spec fn cube_corners() -> Seq<Position> {
    seq![
        Position { x: 0, y: 0, z: 0 },
        Position { x: 0, y: 1, z: 0 },
        Position { x: 1, y: 1, z: 0 },
        Position { x: 1, y: 0, z: 0 },
        Position { x: 0, y: 1, z: 1 },
        Position { x: 1, y: 1, z: 1 },
        Position { x: 1, y: 0, z: 1 },
        Position { x: 0, y: 0, z: 1 },
    ]
}

/// The texture quad of one face, as two triangles.
pub open spec fn cube_tex_coords() -> Seq<TexCoord> {
    seq![
        TexCoord { u: 1, v: 1 },
        TexCoord { u: 0, v: 1 },
        TexCoord { u: 0, v: 0 },
        TexCoord { u: 1, v: 1 },
        TexCoord { u: 1, v: 0 },
        TexCoord { u: 0, v: 0 },
    ]
}

/// The corner of each expanded vertex, face by face, front face first. The
/// last face ends on the triangle 6, 3, 2, which the third face holds too.
pub open spec fn cube_indices() -> Seq<u32> {
    seq![
        0u32, 1, 2, 2, 3, 0,
        1, 4, 5, 5, 2, 1,
        2, 5, 6, 6, 3, 2,
        7, 6, 5, 5, 4, 7,
        4, 0, 3, 3, 7, 4,
        7, 3, 6, 6, 3, 2,
    ]
}

/// Whether every index names an entry of a pool of `pool_len` corners.
pub open spec fn indices_within(indices: Seq<u32>, pool_len: nat) -> bool {
    forall|i: int| 0 <= i < indices.len() ==> (#[trigger] indices[i]) < pool_len
}

/// Whether `vertices` is the flat form of an indexed mesh: vertex `i` takes
/// the corner that index `i` names and the texture coordinate at `i` modulo
/// the length of the quad.
pub open spec fn is_expansion(
    vertices: Seq<Vertex>,
    corners: Seq<Position>,
    tex_coords: Seq<TexCoord>,
    indices: Seq<u32>,
) -> bool {
    &&& vertices.len() == indices.len()
    &&& forall|i: int|
        0 <= i < indices.len() ==> (#[trigger] vertices[i]) == (Vertex {
            position: corners[indices[i] as int],
            tex_coords: tex_coords[i % (tex_coords.len() as int)],
        })
}

pub fn corners() -> (table: [Position; 8])
    ensures
        table@ == cube_corners(),
{
    let table = [
        Position { x: 0, y: 0, z: 0 },
        Position { x: 0, y: 1, z: 0 },
        Position { x: 1, y: 1, z: 0 },
        Position { x: 1, y: 0, z: 0 },
        Position { x: 0, y: 1, z: 1 },
        Position { x: 1, y: 1, z: 1 },
        Position { x: 1, y: 0, z: 1 },
        Position { x: 0, y: 0, z: 1 },
    ];
    assert(table@ =~= cube_corners());
    table
}

pub fn tex_coords() -> (table: [TexCoord; 6])
    ensures
        table@ == cube_tex_coords(),
{
    let table = [
        TexCoord { u: 1, v: 1 },
        TexCoord { u: 0, v: 1 },
        TexCoord { u: 0, v: 0 },
        TexCoord { u: 1, v: 1 },
        TexCoord { u: 1, v: 0 },
        TexCoord { u: 0, v: 0 },
    ];
    assert(table@ =~= cube_tex_coords());
    table
}

pub fn indices() -> (table: [u32; 36])
    ensures
        table@ == cube_indices(),
{
    let table: [u32; 36] = [
        0, 1, 2, 2, 3, 0,
        1, 4, 5, 5, 2, 1,
        2, 5, 6, 6, 3, 2,
        7, 6, 5, 5, 4, 7,
        4, 0, 3, 3, 7, 4,
        7, 3, 6, 6, 3, 2,
    ];
    assert(table@ =~= cube_indices());
    table
}

/// Tells whether every index names an entry of a pool of `pool_len` corners.
pub fn indices_in_range(indices: &[u32], pool_len: usize) -> (ok: bool)
    ensures
        ok == indices_within(indices@, pool_len as nat),
{
    let mut i: usize = 0;
    while i < indices.len()
        invariant
            i <= indices.len(),
            forall|j: int| 0 <= j < i ==> (#[trigger] indices@[j]) < pool_len,
        decreases indices.len() - i,
    {
        if indices[i] as usize >= pool_len {
            return false;
        }
        i += 1;
    }
    true
}

/// Expands an indexed mesh into flat vertices.
pub fn expand(corners: &[Position], tex_coords: &[TexCoord], indices: &[u32]) -> (vertices: Vec<
    Vertex,
>)
    requires
        tex_coords.len() > 0,
        indices_within(indices@, corners@.len()),
    ensures
        is_expansion(vertices@, corners@, tex_coords@, indices@),
{
    let mut vertices: Vec<Vertex> = Vec::new();
    let mut i: usize = 0;
    while i < indices.len()
        invariant
            i <= indices.len(),
            tex_coords.len() > 0,
            indices_within(indices@, corners@.len()),
            vertices.len() == i,
            forall|j: int|
                0 <= j < i ==> (#[trigger] vertices@[j]) == (Vertex {
                    position: corners@[indices@[j] as int],
                    tex_coords: tex_coords@[j % (tex_coords@.len() as int)],
                }),
        decreases indices.len() - i,
    {
        let corner = indices[i] as usize;
        vertices.push(
            Vertex { position: corners[corner], tex_coords: tex_coords[i % tex_coords.len()] },
        );
        i += 1;
    }
    vertices
}

/// The cube as it is uploaded: the expanded vertices and the index list.
pub struct Cube {
    pub vertices: Vec<Vertex>,
    pub indices: Vec<u32>,
}

impl Cube {
    /// The indices are the cube's index table, and the vertices are the
    /// expansion of the cube's tables, entry for entry.
    pub open spec fn wf(&self) -> bool {
        &&& self.indices@ == cube_indices()
        &&& self.vertices@.len() == INDEX_COUNT
        &&& forall|i: int|
            0 <= i < INDEX_COUNT ==> (#[trigger] self.vertices@[i]) == (Vertex {
                position: cube_corners()[cube_indices()[i] as int],
                tex_coords: cube_tex_coords()[i % 6],
            })
    }

    pub fn new() -> (cube: Cube)
        ensures
            cube.wf(),
            is_expansion(cube.vertices@, cube_corners(), cube_tex_coords(), cube_indices()),
    {
        let corner_table = corners();
        let tex_coord_table = tex_coords();
        let index_table = indices();
        proof {
            lemma_cube_tables();
        }
        let vertices = expand(
            corner_table.as_slice(),
            tex_coord_table.as_slice(),
            index_table.as_slice(),
        );
        let indices = vstd::slice::slice_to_vec(index_table.as_slice());
        assert(cube_tex_coords().len() as int == 6);
        Cube { vertices, indices }
    }
}

/// The tables have the sizes their names promise, every index names one of
/// the eight corners, and the expanded mesh is twelve triangles.
pub proof fn lemma_cube_tables()
    ensures
        cube_corners().len() == CORNER_COUNT,
        cube_tex_coords().len() == FACE_VERTEX_COUNT,
        cube_indices().len() == INDEX_COUNT,
        INDEX_COUNT == 6 * FACE_VERTEX_COUNT,
        INDEX_COUNT == 12 * 3,
        indices_within(cube_indices(), CORNER_COUNT as nat),
{
}

/// The corner table lists every point of the unit cube once: all
/// coordinates are 0 or 1, each such point occurs, and no two entries agree.
pub proof fn lemma_corners_are_the_unit_cube()
    ensures
        forall|i: int|
            0 <= i < cube_corners().len() ==> {
                let p = #[trigger] cube_corners()[i];
                0 <= p.x <= 1 && 0 <= p.y <= 1 && 0 <= p.z <= 1
            },
        forall|p: Position|
            0 <= p.x <= 1 && 0 <= p.y <= 1 && 0 <= p.z <= 1 ==> #[trigger] cube_corners().contains(
                p,
            ),
        forall|i: int, j: int|
            0 <= i < j < cube_corners().len() ==> cube_corners()[i] != cube_corners()[j],
{
    let c = cube_corners();
    assert(c[0] == Position { x: 0, y: 0, z: 0 });
    assert(c[1] == Position { x: 0, y: 1, z: 0 });
    assert(c[2] == Position { x: 1, y: 1, z: 0 });
    assert(c[3] == Position { x: 1, y: 0, z: 0 });
    assert(c[4] == Position { x: 0, y: 1, z: 1 });
    assert(c[5] == Position { x: 1, y: 1, z: 1 });
    assert(c[6] == Position { x: 1, y: 0, z: 1 });
    assert(c[7] == Position { x: 0, y: 0, z: 1 });
}

/// The first face is the front of the cube: the first six indices name
/// corners in the plane z = 0.
pub proof fn lemma_front_face_first()
    ensures
        forall|i: int|
            0 <= i < FACE_VERTEX_COUNT ==> cube_corners()[(#[trigger] cube_indices()[i]) as int].z
                == 0,
{
    let indices = cube_indices();
    assert(indices[0] == 0 && indices[1] == 1 && indices[2] == 2);
    assert(indices[3] == 2 && indices[4] == 3 && indices[5] == 0);
}

/// Every triangle of the index table has three different corners.
pub proof fn lemma_triangles_are_proper(triangle: int)
    requires
        0 <= triangle < 12,
    ensures
        cube_indices()[3 * triangle] != cube_indices()[3 * triangle + 1],
        cube_indices()[3 * triangle + 1] != cube_indices()[3 * triangle + 2],
        cube_indices()[3 * triangle] != cube_indices()[3 * triangle + 2],
{
}

/// In an expansion, vertex `i` has the corner that index `i` names and the
/// texture coordinate at `i` modulo the length of the quad.
pub proof fn lemma_expansion_entry(
    vertices: Seq<Vertex>,
    corners: Seq<Position>,
    tex_coords: Seq<TexCoord>,
    indices: Seq<u32>,
    i: int,
)
    requires
        is_expansion(vertices, corners, tex_coords, indices),
        0 <= i < indices.len(),
    ensures
        vertices[i].position == corners[indices[i] as int],
        vertices[i].tex_coords == tex_coords[i % (tex_coords.len() as int)],
{
}

/// An indexed mesh has one expansion only.
pub proof fn lemma_expansion_is_unique(
    first: Seq<Vertex>,
    second: Seq<Vertex>,
    corners: Seq<Position>,
    tex_coords: Seq<TexCoord>,
    indices: Seq<u32>,
)
    requires
        is_expansion(first, corners, tex_coords, indices),
        is_expansion(second, corners, tex_coords, indices),
    ensures
        first == second,
{
    assert(first =~= second);
}

} // verus!
