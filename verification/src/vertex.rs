//! The geometry table: one vertex list, two alternative triangulations of
//! it, and the layout in which a vertex lies in the vertex buffer.
//!
//! Coordinates are single-precision numbers. They are held as their 32-bit
//! patterns, which is what the vertex buffer receives.

use crate::bytes::{cast_indices, cast_words, is_memory_of_indices, is_memory_of_words};
use vstd::prelude::*;

verus! {

/// Number of 32-bit words in one vertex: three of position, two of texture
/// coordinates.
pub const WORDS_PER_VERTEX: usize = 5;

/// One vertex: a position in space and a position on the texture, each
/// coordinate as the bit pattern of a single-precision number.
#[derive(Copy, Clone, Debug)]
pub struct Vertex {
    position: [u32; 3],
    tex_coords: [u32; 2],
}

/// The data types a vertex attribute can have.
#[derive(Copy, Clone, Debug, PartialEq, Eq, Structural)]
pub enum VertexFormat {
    /// Two single-precision numbers.
    Float32x2,
    /// Three single-precision numbers.
    Float32x3,
}

/// How often the vertex buffer advances by one stride.
#[derive(Copy, Clone, Debug, PartialEq, Eq, Structural)]
pub enum VertexStepMode {
    /// Once for each vertex.
    Vertex,
    /// Once for each instance.
    Instance,
}

/// One input of the vertex stage.
#[derive(Copy, Clone, Debug, PartialEq, Eq, Structural)]
pub struct VertexAttribute {
    /// The data type of the input.
    pub format: VertexFormat,
    /// Where the input starts within a vertex, in bytes.
    pub offset: u64,
    /// The shader location that receives the input.
    pub shader_location: u32,
}

/// How the vertices lie in the vertex buffer.
#[derive(Clone, Debug)]
pub struct VertexBufferLayout {
    /// Distance between the starts of two successive vertices, in bytes.
    pub array_stride: u64,
    /// How often the buffer advances.
    pub step_mode: VertexStepMode,
    /// The attributes of one vertex.
    pub attributes: Vec<VertexAttribute>,
}

/// A vertex buffer layout as a value: the attributes as a sequence.
pub struct VertexBufferLayoutView {
    /// Distance between the starts of two successive vertices, in bytes.
    pub array_stride: u64,
    /// How often the buffer advances.
    pub step_mode: VertexStepMode,
    /// The attributes of one vertex.
    pub attributes: Seq<VertexAttribute>,
}

impl View for VertexBufferLayout {
    type V = VertexBufferLayoutView;

    open spec fn view(&self) -> VertexBufferLayoutView {
        VertexBufferLayoutView {
            array_stride: self.array_stride,
            step_mode: self.step_mode,
            attributes: self.attributes@,
        }
    }
}

/// Size of an attribute of the given format, in bytes.
pub open spec fn format_size(format: VertexFormat) -> nat {
    match format {
        VertexFormat::Float32x2 => 8,
        VertexFormat::Float32x3 => 12,
    }
}

/// Sum of the sizes of a run of formats, in bytes.
pub open spec fn total_size(formats: Seq<VertexFormat>) -> nat
    decreases formats.len(),
{
    if formats.len() == 0 {
        0
    } else {
        total_size(formats.drop_last()) + format_size(formats.last())
    }
}

/// The attributes of a vertex whose inputs have the given formats and lie
/// one after the other without gaps: the input number `i` goes to shader
/// location `i` and starts where the inputs before it end.
pub open spec fn packed_attributes(formats: Seq<VertexFormat>) -> Seq<VertexAttribute> {
    Seq::new(
        formats.len(),
        |i: int|
            VertexAttribute {
                format: formats[i],
                offset: total_size(formats.take(i)) as u64,
                shader_location: i as u32,
            },
    )
}

/// The formats of a vertex of this engine: position, then texture
/// coordinates.
pub open spec fn vertex_formats() -> Seq<VertexFormat> {
    seq![VertexFormat::Float32x3, VertexFormat::Float32x2]
}

/// The layout of the vertex buffer of this engine: one vertex per stride,
/// position and texture coordinates packed into a stride of twenty bytes.
pub open spec fn vertex_layout() -> VertexBufferLayoutView {
    VertexBufferLayoutView {
        array_stride: 20,
        step_mode: VertexStepMode::Vertex,
        attributes: packed_attributes(vertex_formats()),
    }
}

/// The vertex list, each vertex as its five words.
pub open spec fn vertex_table() -> Seq<Seq<u32>> {
    seq![
        seq![0xBDB1D0D5u32, 0x3EFC1C5Cu32, 0x00000000u32, 0x3ED38BCBu32, 0x3BF8E900u32],
        seq![0xBEFD8236u32, 0x3D8E835Au32, 0x00000000u32, 0x3B9F7280u32, 0x3EDC5F2Au32],
        seq![0xBE607229u32, 0xBEE6175Fu32, 0x00000000u32, 0x3E8FC6ECu32, 0x3F730BB0u32],
        seq![0x3EB826AAu32, 0xBEB1D51Fu32, 0x00000000u32, 0x3F5C1355u32, 0x3F58EA8Fu32],
        seq![0x3EE208D8u32, 0x3E705E9Cu32, 0x00000000u32, 0x3F71046Cu32, 0x3E87D0B2u32],
        seq![0x3E3594A3u32, 0x3EED5908u32, 0x00000000u32, 0x3F2D6528u32, 0x3E0BB458u32],
        seq![0x3DCD4BCFu32, 0xBEDB5268u32, 0x00000000u32, 0x3F11FB66u32, 0x3F65FB20u32],
    ]
}

/// The primary triangulation: three triangles.
pub open spec fn primary_indices() -> Seq<u16> {
    seq![0u16, 1u16, 4u16, 1u16, 2u16, 4u16, 2u16, 3u16, 4u16]
}

/// The alternative triangulation: the same three triangles and two more.
pub open spec fn challenge2_indices() -> Seq<u16> {
    seq![
        0u16, 1u16, 4u16, 1u16, 2u16, 4u16, 2u16, 3u16, 4u16, 5u16, 0u16, 4u16, 2u16, 6u16, 3u16,
    ]
}

/// The words of a run of vertices, vertex after vertex.
pub open spec fn flattened(vertices: Seq<Seq<u32>>) -> Seq<u32> {
    Seq::new(5 * vertices.len(), |i: int| vertices[i / 5][i % 5])
}

/// A triangle list over `vertex_count` vertices: three indices for each
/// triangle, each of them naming a vertex that exists.
pub open spec fn is_triangle_list(indices: Seq<u16>, vertex_count: nat) -> bool {
    &&& indices.len() % 3 == 0
    &&& forall|i: int| 0 <= i < indices.len() ==> (#[trigger] indices[i] as nat) < vertex_count
}

impl View for Vertex {
    type V = Seq<u32>;

    /// The five words of the vertex in the order in which they lie in
    /// memory.
    closed spec fn view(&self) -> Seq<u32> {
        self.position@ + self.tex_coords@
    }
}

impl VertexFormat {
    /// Size of an attribute of this format, in bytes.
    pub fn size(&self) -> (bytes: u64)
        ensures
            bytes == format_size(*self),
    {
        match self {
            VertexFormat::Float32x2 => 8,
            VertexFormat::Float32x3 => 12,
        }
    }
}

impl Vertex {
    /// A vertex from the bit patterns of its coordinates.
    pub fn new(position: [u32; 3], tex_coords: [u32; 2]) -> (vertex: Self)
        ensures
            vertex@ == position@ + tex_coords@,
            vertex@.len() == WORDS_PER_VERTEX,
    {
        Vertex { position, tex_coords }
    }

    /// The bit patterns of the position.
    pub fn position(&self) -> (position: [u32; 3])
        ensures
            position@ == self@.take(3),
    {
        self.position
    }

    /// The bit patterns of the texture coordinates.
    pub fn tex_coords(&self) -> (tex_coords: [u32; 2])
        ensures
            tex_coords@ == self@.skip(3),
    {
        self.tex_coords
    }

    /// The layout of the vertex buffer: one vertex per stride, and the two
    /// attributes packed into the stride.
    pub fn desc() -> (layout: VertexBufferLayout)
        ensures
            layout@ == vertex_layout(),
            layout.array_stride == 4 * WORDS_PER_VERTEX,
            layout.array_stride == total_size(vertex_formats()),
    {
        let formats: Vec<VertexFormat> = vec![VertexFormat::Float32x3, VertexFormat::Float32x2];
        let (attributes, stride) = pack_attributes(formats.as_slice());
        proof {
            lemma_vertex_stride();
        }
        VertexBufferLayout { array_stride: stride, step_mode: VertexStepMode::Vertex, attributes }
    }
}

/// A vertex of this engine takes twenty bytes: five words.
pub proof fn lemma_vertex_stride()
    ensures
        total_size(vertex_formats()) == 4 * WORDS_PER_VERTEX,
{
    let f = vertex_formats();
    assert(total_size(f.drop_last().drop_last()) == 0);
    assert(total_size(f.drop_last()) == 12);
}

/// Adding one format at the end adds its size to the total.
pub proof fn lemma_total_size_push(formats: Seq<VertexFormat>, format: VertexFormat)
    ensures
        total_size(formats.push(format)) == total_size(formats) + format_size(format),
{
    assert(formats.push(format).drop_last() == formats);
}

/// The total size of a run of formats is at most twelve bytes for each.
pub proof fn lemma_total_size_bound(formats: Seq<VertexFormat>)
    ensures
        total_size(formats) <= 12 * formats.len(),
    decreases formats.len(),
{
    if formats.len() > 0 {
        lemma_total_size_bound(formats.drop_last());
    }
}

/// Packed attributes neither overlap nor leave the stride: each ends where
/// the next begins, and the last ends at the total size.
pub proof fn lemma_packed_attributes_tile(formats: Seq<VertexFormat>, i: int)
    requires
        0 <= i < formats.len(),
        formats.len() <= u32::MAX,
    ensures
        packed_attributes(formats)[i].offset + format_size(formats[i]) == total_size(
            formats.take(i + 1),
        ),
        packed_attributes(formats)[i].offset + format_size(formats[i]) <= total_size(formats),
{
    lemma_total_size_bound(formats.take(i));
    assert(formats.take(i + 1) == formats.take(i).push(formats[i]));
    lemma_total_size_push(formats.take(i), formats[i]);
    lemma_total_size_prefix(formats, i + 1);
}

/// A prefix of a run of formats is no larger than the run.
pub proof fn lemma_total_size_prefix(formats: Seq<VertexFormat>, n: int)
    requires
        0 <= n <= formats.len(),
    ensures
        total_size(formats.take(n)) <= total_size(formats),
    decreases formats.len() - n,
{
    if n == formats.len() {
        assert(formats.take(n) == formats);
    } else {
        lemma_total_size_prefix(formats, n + 1);
        assert(formats.take(n + 1) == formats.take(n).push(formats[n]));
        lemma_total_size_push(formats.take(n), formats[n]);
    }
}

/// Lays the inputs of a vertex out one after the other: returns the
/// attributes, with offsets and shader locations counted from zero, and the
/// size of the whole vertex.
pub fn pack_attributes(formats: &[VertexFormat]) -> (packed: (Vec<VertexAttribute>, u64))
    requires
        formats.len() <= u32::MAX,
    ensures
        packed.0@ == packed_attributes(formats@),
        packed.1 == total_size(formats@),
{
    let mut attributes: Vec<VertexAttribute> = Vec::new();
    let mut offset: u64 = 0;
    let mut i: usize = 0;
    while i < formats.len()
        invariant
            i <= formats.len(),
            formats.len() <= u32::MAX,
            offset == total_size(formats@.take(i as int)),
            attributes@ == packed_attributes(formats@.take(i as int)),
        decreases formats.len() - i,
    {
        let format = formats[i];
        proof {
            lemma_total_size_bound(formats@.take(i as int));
            lemma_total_size_push(formats@.take(i as int), format);
            assert(formats@.take(i + 1) == formats@.take(i as int).push(format));
        }
        attributes.push(VertexAttribute { format, offset, shader_location: i as u32 });
        offset = offset + format.size();
        proof {
            let before = formats@.take(i as int);
            let after = formats@.take(i + 1);
            assert(attributes@ == packed_attributes(after)) by {
                assert forall|k: int| 0 <= k < attributes@.len() implies attributes@[k]
                    == packed_attributes(after)[k] by {
                    assert(after.take(k) == formats@.take(k));
                    if k < i {
                        assert(before.take(k) == formats@.take(k));
                    }
                }
            }
        }
        i = i + 1;
    }
    proof {
        assert(formats@.take(i as int) == formats@);
    }
    (attributes, offset)
}

/// The vertex list of the scene.
pub fn vertices() -> (list: Vec<Vertex>)
    ensures
        list@.map_values(|v: Vertex| v@) == vertex_table(),
{
    let list = vec![
        Vertex::new([0xBDB1D0D5, 0x3EFC1C5C, 0x00000000], [0x3ED38BCB, 0x3BF8E900]),
        Vertex::new([0xBEFD8236, 0x3D8E835A, 0x00000000], [0x3B9F7280, 0x3EDC5F2A]),
        Vertex::new([0xBE607229, 0xBEE6175F, 0x00000000], [0x3E8FC6EC, 0x3F730BB0]),
        Vertex::new([0x3EB826AA, 0xBEB1D51F, 0x00000000], [0x3F5C1355, 0x3F58EA8F]),
        Vertex::new([0x3EE208D8, 0x3E705E9C, 0x00000000], [0x3F71046C, 0x3E87D0B2]),
        Vertex::new([0x3E3594A3, 0x3EED5908, 0x00000000], [0x3F2D6528, 0x3E0BB458]),
        Vertex::new([0x3DCD4BCF, 0xBEDB5268, 0x00000000], [0x3F11FB66, 0x3F65FB20]),
    ];
    proof {
        let views = list@.map_values(|v: Vertex| v@);
        assert(views[0] == vertex_table()[0]);
        assert(views[1] == vertex_table()[1]);
        assert(views[2] == vertex_table()[2]);
        assert(views[3] == vertex_table()[3]);
        assert(views[4] == vertex_table()[4]);
        assert(views[5] == vertex_table()[5]);
        assert(views[6] == vertex_table()[6]);
    }
    list
}

/// The primary triangulation of the vertex list.
pub fn indices() -> (list: Vec<u16>)
    ensures
        list@ == primary_indices(),
        is_triangle_list(list@, vertex_table().len()),
{
    vec![0, 1, 4, 1, 2, 4, 2, 3, 4]
}

/// The alternative triangulation of the vertex list.
pub fn indices_challenge2() -> (list: Vec<u16>)
    ensures
        list@ == challenge2_indices(),
        is_triangle_list(list@, vertex_table().len()),
{
    vec![0, 1, 4, 1, 2, 4, 2, 3, 4, 5, 0, 4, 2, 6, 3]
}

/// The words of a run of vertices, vertex after vertex.
pub fn flatten(vertices: &[Vertex]) -> (words: Vec<u32>)
    requires
        5 * vertices.len() <= usize::MAX,
    ensures
        words@ == flattened(vertices@.map_values(|v: Vertex| v@)),
{
    let ghost views = vertices@.map_values(|v: Vertex| v@);
    let mut words: Vec<u32> = Vec::new();
    let mut i: usize = 0;
    while i < vertices.len()
        invariant
            i <= vertices.len(),
            views == vertices@.map_values(|v: Vertex| v@),
            words@ == flattened(views.take(i as int)),
        decreases vertices.len() - i,
    {
        let vertex = vertices[i];
        words.push(vertex.position[0]);
        words.push(vertex.position[1]);
        words.push(vertex.position[2]);
        words.push(vertex.tex_coords[0]);
        words.push(vertex.tex_coords[1]);
        proof {
            let target = flattened(views.take(i + 1));
            assert forall|k: int| 0 <= k < words@.len() implies words@[k] == target[k] by {}
        }
        i = i + 1;
    }
    words
}

/// The contents of the vertex buffer: the words of the vertex list as they
/// lie in memory.
pub fn vertex_buffer_contents() -> (bytes: Vec<u8>)
    ensures
        is_memory_of_words(bytes@, flattened(vertex_table())),
        bytes@.len() == 4 * WORDS_PER_VERTEX * vertex_table().len(),
{
    let list = vertices();
    let words = flatten(list.as_slice());
    cast_words(words.as_slice())
}

/// The contents of an index buffer: the given indices as they lie in
/// memory, two bytes for each.
pub fn index_buffer_contents(indices: &[u16]) -> (bytes: Vec<u8>)
    ensures
        is_memory_of_indices(bytes@, indices@),
        bytes@.len() == 2 * indices@.len(),
{
    cast_indices(indices)
}

} // verus!
