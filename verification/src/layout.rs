//! Byte layout of the vertex and index buffers, as it is declared to the GPU:
//! each vertex is three position components followed by two texture
//! components, four bytes each, with no padding.

use vstd::prelude::*;

verus! {

/// Bytes in one component of a vertex attribute, and in one index.
pub const COMPONENT_SIZE: usize = 4;

/// Components of a position.
pub const POSITION_COMPONENTS: usize = 3;

/// Components of a texture coordinate.
pub const TEX_COORD_COMPONENTS: usize = 2;

/// Byte offset of the position inside a vertex.
pub const POSITION_OFFSET: usize = 0;

/// Byte offset of the texture coordinate inside a vertex.
pub const TEX_COORD_OFFSET: usize = 12;

/// Bytes from one vertex to the next.
pub const VERTEX_STRIDE: usize = 20;

/// One attribute of the vertex format: its shader location, how many
/// components it has, the stride of the buffer and its byte offset.
#[derive(Clone, Copy, Debug, PartialEq, Eq, Structural)]
pub struct VertexAttribute {
    pub location: u32,
    pub components: i32,
    pub stride: i32,
    pub offset: usize,
}

/// The byte after the last one that the attribute occupies inside a vertex.
pub open spec fn attribute_end(attribute: VertexAttribute) -> int {
    attribute.offset + attribute.components * COMPONENT_SIZE
}

/// Whether the attributes tile a vertex of `stride` bytes: locations count
/// up from zero, each attribute starts where the one before it ends, the
/// first starts at zero and the last ends at the stride.
pub open spec fn is_packed(attributes: Seq<VertexAttribute>, stride: int) -> bool {
    &&& attributes.len() > 0
    &&& forall|i: int|
        0 <= i < attributes.len() ==> {
            let a = #[trigger] attributes[i];
            a.location == i && a.components > 0 && a.stride == stride
        }
    &&& attributes[0].offset == 0
    &&& forall|i: int|
        0 < i < attributes.len() ==> (#[trigger] attributes[i]).offset == attribute_end(
            attributes[i - 1],
        )
    &&& attribute_end(attributes.last()) == stride
}

/// The vertex format of the cube: position at location 0, texture coordinate
/// at location 1.
pub open spec fn cube_vertex_format() -> Seq<VertexAttribute> {
    seq![
        VertexAttribute { location: 0, components: 3, stride: 20, offset: 0 },
        VertexAttribute { location: 1, components: 2, stride: 20, offset: 12 },
    ]
}

pub fn vertex_attributes() -> (attributes: [VertexAttribute; 2])
    ensures
        attributes@ == cube_vertex_format(),
        is_packed(attributes@, VERTEX_STRIDE as int),
{
    let attributes = [
        VertexAttribute {
            location: 0,
            components: POSITION_COMPONENTS as i32,
            stride: VERTEX_STRIDE as i32,
            offset: POSITION_OFFSET,
        },
        VertexAttribute {
            location: 1,
            components: TEX_COORD_COMPONENTS as i32,
            stride: VERTEX_STRIDE as i32,
            offset: TEX_COORD_OFFSET,
        },
    ];
    assert(attributes@ =~= cube_vertex_format());
    attributes
}

/// Bytes that `vertex_count` vertices occupy, or `None` where that does not
/// fit the size type of the GPU interface.
pub fn vertex_buffer_size(vertex_count: usize) -> (size: Option<isize>)
    ensures
        vertex_count * VERTEX_STRIDE <= isize::MAX ==> size == Some(
            (vertex_count * VERTEX_STRIDE) as isize,
        ),
        vertex_count * VERTEX_STRIDE > isize::MAX ==> size is None,
{
    if vertex_count <= (isize::MAX as usize) / VERTEX_STRIDE {
        Some((vertex_count * VERTEX_STRIDE) as isize)
    } else {
        None
    }
}

/// Bytes that `index_count` indices occupy, or `None` where that does not
/// fit the size type of the GPU interface.
pub fn index_buffer_size(index_count: usize) -> (size: Option<isize>)
    ensures
        index_count * COMPONENT_SIZE <= isize::MAX ==> size == Some(
            (index_count * COMPONENT_SIZE) as isize,
        ),
        index_count * COMPONENT_SIZE > isize::MAX ==> size is None,
{
    if index_count <= (isize::MAX as usize) / COMPONENT_SIZE {
        Some((index_count * COMPONENT_SIZE) as isize)
    } else {
        None
    }
}

/// The number of indices as a draw call takes it, or `None` where it does
/// not fit.
pub fn draw_count(index_count: usize) -> (count: Option<i32>)
    ensures
        index_count <= i32::MAX ==> count == Some(index_count as i32),
        index_count > i32::MAX ==> count is None,
{
    if index_count <= i32::MAX as usize {
        Some(index_count as i32)
    } else {
        None
    }
}

/// In a packed format, attributes lie one after the other inside the vertex:
/// an earlier one ends before a later one starts, and each ends within the
/// stride.
pub proof fn lemma_packed_attributes_are_disjoint(
    attributes: Seq<VertexAttribute>,
    stride: int,
    i: int,
    j: int,
)
    requires
        is_packed(attributes, stride),
        0 <= i < j < attributes.len(),
    ensures
        attribute_end(attributes[i]) <= attributes[j].offset,
        attribute_end(attributes[i]) <= stride,
        attribute_end(attributes[j]) <= stride,
{
    lemma_attribute_ends_ascend(attributes, stride, i, j - 1);
    lemma_attribute_ends_ascend(attributes, stride, j, attributes.len() - 1);
    lemma_attribute_ends_ascend(attributes, stride, i, attributes.len() - 1);
}

/// In a packed format, the ends of the attributes ascend with the index.
proof fn lemma_attribute_ends_ascend(
    attributes: Seq<VertexAttribute>,
    stride: int,
    i: int,
    j: int,
)
    requires
        is_packed(attributes, stride),
        0 <= i <= j < attributes.len(),
    ensures
        attribute_end(attributes[i]) <= attribute_end(attributes[j]),
    decreases j - i,
{
    if i < j {
        lemma_attribute_ends_ascend(attributes, stride, i, j - 1);
        assert(attributes[j].offset == attribute_end(attributes[j - 1]));
        assert(attributes[j].components > 0);
    }
}

/// The constants describe the packed vertex: the position fills the first
/// twelve bytes and the texture coordinate the eight after them.
pub proof fn lemma_vertex_constants()
    ensures
        POSITION_OFFSET == 0,
        TEX_COORD_OFFSET == POSITION_OFFSET + POSITION_COMPONENTS * COMPONENT_SIZE,
        VERTEX_STRIDE == TEX_COORD_OFFSET + TEX_COORD_COMPONENTS * COMPONENT_SIZE,
{
}

} // verus!
