//! Vertices, their GPU layout, and the static geometry built from a mesh.

use vstd::prelude::*;
use crate::error::AssetError;
use crate::resource::{index_usage, vertex_usage, BufferInit, BufferUsages};
use crate::layout::{
    append_words, holds_words_at, is_memory_image, lemma_image_subrange, memory_image,
    native_bytes, ByteOrder, ONE_BITS,
};

verus! {

/// One vertex of a mesh. Every component is the bit pattern of a
/// single-precision number.
#[derive(Clone, Copy, Debug, PartialEq, Eq)]
pub struct Vertex {
    pub position: [u32; 3],
    pub normal: [u32; 3],
    pub uv: [u32; 2],
    pub color: [u32; 4],
}

/// A vertex as the GPU reads it: twelve words, in declaration order.
#[derive(Clone, Copy, Debug, PartialEq, Eq)]
pub struct VertexRaw {
    pub position: [u32; 3],
    pub normal: [u32; 3],
    pub uv: [u32; 2],
    pub color: [u32; 4],
}

/// The number of words in a `VertexRaw`.
pub const VERTEX_WORDS: usize = 12;

/// The number of bytes in a `VertexRaw`.
pub const VERTEX_BYTES: u64 = 48;

impl VertexRaw {
    /// The twelve words of the vertex in the order the GPU reads them.
    pub open spec fn words(self) -> Seq<u32> {
        self.position@ + self.normal@ + self.uv@ + self.color@
    }

    /// The twelve words of the vertex, in the order the GPU reads them.
    pub fn to_words(&self) -> (words: Vec<u32>)
        ensures
            words@ == self.words(),
            words@.len() == VERTEX_WORDS,
    {
        let mut words: Vec<u32> = Vec::new();
        append_words(&mut words, &self.position);
        append_words(&mut words, &self.normal);
        append_words(&mut words, &self.uv);
        append_words(&mut words, &self.color);
        words
    }

    /// The bytes of the vertex as they lie in a vertex buffer: 48 bytes, with
    /// position, normal, uv and color at byte offsets 0, 12, 24 and 32.
    pub fn to_bytes(&self) -> (bytes: Vec<u8>)
        ensures
            is_memory_image(bytes@, self.words()),
            bytes@.len() == VERTEX_BYTES,
            holds_words_at(bytes@, 0, self.position@),
            holds_words_at(bytes@, 12, self.normal@),
            holds_words_at(bytes@, 24, self.uv@),
            holds_words_at(bytes@, 32, self.color@),
    {
        let words = self.to_words();
        let bytes = native_bytes(&words);
        proof {
            lemma_vertex_fields(*self, ByteOrder::Little);
            lemma_vertex_fields(*self, ByteOrder::Big);
        }
        bytes
    }
}

/// In the memory image of a vertex the four attributes lie one after another:
/// position in bytes 0..12, normal in 12..24, uv in 24..32, color in 32..48.
pub proof fn lemma_vertex_fields(v: VertexRaw, order: ByteOrder)
    ensures
        memory_image(v.words(), order).len() == VERTEX_BYTES,
        memory_image(v.words(), order).subrange(0, 12) == memory_image(v.position@, order),
        memory_image(v.words(), order).subrange(12, 24) == memory_image(v.normal@, order),
        memory_image(v.words(), order).subrange(24, 32) == memory_image(v.uv@, order),
        memory_image(v.words(), order).subrange(32, 48) == memory_image(v.color@, order),
{
    let w = v.words();
    lemma_image_subrange(w, 0, 3, order);
    lemma_image_subrange(w, 3, 6, order);
    lemma_image_subrange(w, 6, 8, order);
    lemma_image_subrange(w, 8, 12, order);
    assert(w.subrange(0, 3) == v.position@);
    assert(w.subrange(3, 6) == v.normal@);
    assert(w.subrange(6, 8) == v.uv@);
    assert(w.subrange(8, 12) == v.color@);
}

impl Vertex {
    /// The vertex in the form the GPU reads: the same components, field by field.
    pub fn as_raw(&self) -> (raw: VertexRaw)
        ensures
            raw == self.raw(),
            raw.position == self.position,
            raw.normal == self.normal,
            raw.uv == self.uv,
            raw.color == self.color,
    {
        VertexRaw {
            position: self.position,
            normal: self.normal,
            uv: self.uv,
            color: self.color,
        }
    }

    /// The raw form of the vertex, as a specification.
    pub open spec fn raw(self) -> VertexRaw {
        VertexRaw {
            position: self.position,
            normal: self.normal,
            uv: self.uv,
            color: self.color,
        }
    }
}

/// The format of one vertex attribute.
#[derive(Clone, Copy, Debug, PartialEq, Eq)]
pub enum VertexFormat {
    /// Two single-precision numbers.
    Float32x2,
    /// Three single-precision numbers.
    Float32x3,
    /// Four single-precision numbers.
    Float32x4,
}

impl VertexFormat {
    /// The number of words in an attribute of this format.
    pub open spec fn words(self) -> nat {
        match self {
            VertexFormat::Float32x2 => 2,
            VertexFormat::Float32x3 => 3,
            VertexFormat::Float32x4 => 4,
        }
    }

    /// The number of bytes in an attribute of this format.
    pub fn size(self) -> (n: u64)
        ensures
            n == 4 * self.words(),
    {
        match self {
            VertexFormat::Float32x2 => 8,
            VertexFormat::Float32x3 => 12,
            VertexFormat::Float32x4 => 16,
        }
    }
}

/// How often the GPU steps to the next record of a vertex buffer.
#[derive(Clone, Copy, Debug, PartialEq, Eq)]
pub enum StepMode {
    /// Once per vertex.
    Vertex,
    /// Once per instance.
    Instance,
}

/// Where one attribute lies in a vertex record and which shader input reads it.
#[derive(Clone, Copy, Debug, PartialEq, Eq)]
pub struct VertexAttribute {
    pub format: VertexFormat,
    pub offset: u64,
    pub shader_location: u32,
}

/// The layout of the records of a vertex buffer.
#[derive(Clone, Debug, PartialEq, Eq)]
pub struct VertexLayout {
    pub array_stride: u64,
    pub step_mode: StepMode,
    pub attributes: Vec<VertexAttribute>,
}

/// The attributes of a vertex: position, normal, uv and color at shader
/// locations 0 to 3, packed without gaps.
pub open spec fn vertex_attributes() -> Seq<VertexAttribute> {
    seq![
        VertexAttribute { format: VertexFormat::Float32x3, offset: 0, shader_location: 0 },
        VertexAttribute { format: VertexFormat::Float32x3, offset: 12, shader_location: 1 },
        VertexAttribute { format: VertexFormat::Float32x2, offset: 24, shader_location: 2 },
        VertexAttribute { format: VertexFormat::Float32x4, offset: 32, shader_location: 3 },
    ]
}

impl VertexRaw {
    /// The words that the shader input at `location` reads.
    pub open spec fn attribute(self, location: int) -> Seq<u32> {
        if location == 0 {
            self.position@
        } else if location == 1 {
            self.normal@
        } else if location == 2 {
            self.uv@
        } else {
            self.color@
        }
    }
}

impl Vertex {
    /// The layout of `VertexRaw` records in a vertex buffer.
    pub fn desc() -> (layout: VertexLayout)
        ensures
            layout.array_stride == VERTEX_BYTES,
            layout.step_mode == StepMode::Vertex,
            layout.attributes@ == vertex_attributes(),
    {
        let position = VertexFormat::Float32x3;
        let normal = VertexFormat::Float32x3;
        let uv = VertexFormat::Float32x2;
        let color = VertexFormat::Float32x4;
        let normal_offset: u64 = position.size();
        let uv_offset: u64 = normal_offset + normal.size();
        let color_offset: u64 = uv_offset + uv.size();
        let stride: u64 = color_offset + color.size();
        let mut attributes: Vec<VertexAttribute> = Vec::new();
        attributes.push(VertexAttribute { format: position, offset: 0, shader_location: 0 });
        attributes.push(
            VertexAttribute { format: normal, offset: normal_offset, shader_location: 1 },
        );
        attributes.push(VertexAttribute { format: uv, offset: uv_offset, shader_location: 2 });
        attributes.push(
            VertexAttribute { format: color, offset: color_offset, shader_location: 3 },
        );
        assert(attributes@ =~= vertex_attributes());
        VertexLayout { array_stride: stride, step_mode: StepMode::Vertex, attributes }
    }
}

/// The layout that `Vertex::desc` describes is the layout of the bytes that
/// `VertexRaw::to_bytes` produces: the attribute at shader location `k` has
/// as many words as its format says, and occupies exactly the bytes from its
/// offset on; the records are one stride long.
pub proof fn lemma_desc_describes_bytes(v: VertexRaw, order: ByteOrder, k: int)
    requires
        0 <= k < 4,
    ensures
        vertex_attributes()[k].shader_location == k,
        v.attribute(k).len() == vertex_attributes()[k].format.words(),
        memory_image(v.words(), order).subrange(
            vertex_attributes()[k].offset as int,
            vertex_attributes()[k].offset + 4 * vertex_attributes()[k].format.words(),
        ) == memory_image(v.attribute(k), order),
        memory_image(v.words(), order).len() == VERTEX_BYTES,
{
    lemma_vertex_fields(v, order);
}

/// The words of a run of vertices in the order the GPU reads them: the
/// twelve words of the first vertex, then those of the second, and so on.
pub open spec fn vertex_words(vertices: Seq<Vertex>) -> Seq<u32> {
    Seq::new(
        12 * vertices.len(),
        |i: int| vertices[i / 12].raw().words()[i % 12],
    )
}

/// Adding a vertex adds its twelve words at the end.
pub proof fn lemma_vertex_words_push(vertices: Seq<Vertex>, v: Vertex)
    ensures
        vertex_words(vertices.push(v)) == vertex_words(vertices) + v.raw().words(),
{
    let whole = vertex_words(vertices.push(v));
    let parts = vertex_words(vertices) + v.raw().words();
    assert(whole.len() == parts.len());
    assert forall|i: int| 0 <= i < whole.len() implies whole[i] == parts[i] by {
        if i < 12 * vertices.len() {
            assert(vertices.push(v)[i / 12] == vertices[i / 12]);
        } else {
            let j = i - 12 * vertices.len();
            assert(i / 12 == vertices.len());
            assert(i % 12 == j);
            assert(vertices.push(v)[i / 12] == v);
        }
    }
    assert(whole =~= parts);
}

/// In a vertex buffer the records lie in the order of the vertices, 48 bytes
/// each: record `i` is the memory image of vertex `i`.
pub proof fn lemma_vertex_buffer_records(vertices: Seq<Vertex>, order: ByteOrder, i: int)
    requires
        0 <= i < vertices.len(),
    ensures
        memory_image(vertex_words(vertices), order).len() == VERTEX_BYTES * vertices.len(),
        memory_image(vertex_words(vertices), order).subrange(
            VERTEX_BYTES * i,
            VERTEX_BYTES * (i + 1),
        ) == memory_image(vertices[i].raw().words(), order),
{
    let words = vertex_words(vertices);
    lemma_image_subrange(words, 12 * i, 12 * (i + 1), order);
    assert(words.subrange(12 * i, 12 * (i + 1)) =~= vertices[i].raw().words()) by {
        assert forall|k: int| 0 <= k < 12 implies words[12 * i + k]
            == vertices[i].raw().words()[k] by {
            assert((12 * i + k) / 12 == i);
            assert((12 * i + k) % 12 == k);
        }
    }
}

/// Every index refers to one of `count` vertices.
pub open spec fn indices_in_range(indices: Seq<u32>, count: nat) -> bool {
    forall|k: int| 0 <= k < indices.len() ==> indices[k] < count
}

/// Why `indices` cannot index `count` vertices, if they cannot.
pub open spec fn geometry_error(count: nat, indices: Seq<u32>) -> Option<AssetError> {
    if indices.len() > u32::MAX {
        Some(AssetError::TooManyIndices)
    } else if !indices_in_range(indices, count) {
        Some(AssetError::IndexOutOfRange)
    } else {
        None
    }
}

/// The static geometry of a mesh: its vertices and indices, and the contents
/// of the vertex buffer and of the index buffer made from them.
#[derive(Clone, Debug, PartialEq, Eq)]
pub struct BufferGeometry {
    pub vertices: Vec<Vertex>,
    pub indices: Vec<u32>,
    pub vertex_buffer: BufferInit,
    pub index_buffer: BufferInit,
}

impl BufferGeometry {
    /// The indices are 32-bit, each refers to a vertex, and the two buffers
    /// hold the memory images of the vertices and of the indices.
    pub open spec fn wf(&self) -> bool {
        &&& self.indices@.len() <= u32::MAX
        &&& indices_in_range(self.indices@, self.vertices@.len())
        &&& is_memory_image(self.vertex_buffer.contents@, vertex_words(self.vertices@))
        &&& self.vertex_buffer.usage == vertex_usage()
        &&& is_memory_image(self.index_buffer.contents@, self.indices@)
        &&& self.index_buffer.usage == index_usage()
    }

    /// Builds the geometry of `vertices` indexed by `indices`.
    ///
    /// The vertex buffer holds the raw vertices in the order given, the index
    /// buffer the indices in the order given. Fails when there are more
    /// indices than a `u32` counts, or else when an index refers to no vertex.
    pub fn new(vertices: Vec<Vertex>, indices: Vec<u32>) -> (r: Result<BufferGeometry, AssetError>)
        ensures
            match r {
                Ok(g) => {
                    &&& geometry_error(vertices@.len(), indices@) is None
                    &&& g.vertices@ == vertices@
                    &&& g.indices@ == indices@
                    &&& g.wf()
                },
                Err(e) => geometry_error(vertices@.len(), indices@) == Some(e),
            },
    {
        if indices.len() > u32::MAX as usize {
            return Err(AssetError::TooManyIndices);
        }
        let mut k: usize = 0;
        while k < indices.len()
            invariant
                k <= indices.len(),
                indices.len() <= u32::MAX,
                indices_in_range(indices@.subrange(0, k as int), vertices@.len()),
            decreases indices.len() - k,
        {
            if indices[k] as usize >= vertices.len() {
                assert(indices@[k as int] >= vertices@.len());
                return Err(AssetError::IndexOutOfRange);
            }
            assert(indices@.subrange(0, k + 1) == indices@.subrange(0, k as int).push(
                indices@[k as int],
            ));
            k = k + 1;
        }
        assert(indices@.subrange(0, k as int) == indices@);
        let mut words: Vec<u32> = Vec::new();
        let mut i: usize = 0;
        assert(vertices@.subrange(0, 0) == Seq::<Vertex>::empty());
        while i < vertices.len()
            invariant
                i <= vertices.len(),
                words@ == vertex_words(vertices@.subrange(0, i as int)),
            decreases vertices.len() - i,
        {
            let raw = vertices[i].as_raw();
            let ghost before = words@;
            append_words(&mut words, &raw.position);
            append_words(&mut words, &raw.normal);
            append_words(&mut words, &raw.uv);
            append_words(&mut words, &raw.color);
            proof {
                assert(raw == vertices@[i as int].raw());
                assert(words@ == before + raw.words());
                lemma_vertex_words_push(vertices@.subrange(0, i as int), vertices@[i as int]);
                assert(vertices@.subrange(0, i + 1) == vertices@.subrange(0, i as int).push(
                    vertices@[i as int],
                ));
            }
            i = i + 1;
        }
        assert(vertices@.subrange(0, i as int) == vertices@);
        let vertex_buffer = BufferInit {
            contents: native_bytes(&words),
            usage: BufferUsages { vertex: true, index: false, uniform: false, copy_dst: false },
        };
        let index_buffer = BufferInit {
            contents: native_bytes(&indices),
            usage: BufferUsages { vertex: false, index: true, uniform: false, copy_dst: false },
        };
        Ok(BufferGeometry { vertices, indices, vertex_buffer, index_buffer })
    }

    /// The number of indices, which is the length of the one indexed draw.
    pub fn index_count(&self) -> (n: u32)
        requires
            self.indices@.len() <= u32::MAX,
        ensures
            n == self.indices@.len(),
    {
        self.indices.len() as u32
    }
}

/// A parsed mesh: flat arrays of positions and normals (three words per
/// vertex) and of texture coordinates (two words per vertex), and the indices
/// of its triangles.
#[derive(Clone, Debug, PartialEq, Eq)]
pub struct Mesh {
    pub positions: Vec<u32>,
    pub normals: Vec<u32>,
    pub texcoords: Vec<u32>,
    pub indices: Vec<u32>,
}

impl Mesh {
    /// The number of vertices: one for every three position words.
    pub open spec fn vertex_count(self) -> nat {
        self.positions@.len() / 3
    }
}

/// `v` is vertex `i` of `mesh`: its position, normal and uv are the words of
/// the three arrays at that vertex, and its color is opaque white.
pub open spec fn is_vertex_of(v: Vertex, mesh: Mesh, i: int) -> bool {
    &&& v.position@ == mesh.positions@.subrange(3 * i, 3 * i + 3)
    &&& v.normal@ == mesh.normals@.subrange(3 * i, 3 * i + 3)
    &&& v.uv@ == mesh.texcoords@.subrange(2 * i, 2 * i + 2)
    &&& v.color@ == seq![ONE_BITS, ONE_BITS, ONE_BITS, ONE_BITS]
}

/// `vertices` are the vertices of `mesh`, in the order of its arrays.
pub open spec fn are_vertices_of(vertices: Seq<Vertex>, mesh: Mesh) -> bool {
    &&& vertices.len() == mesh.vertex_count()
    &&& forall|i: int| 0 <= i < vertices.len() ==> is_vertex_of(#[trigger] vertices[i], mesh, i)
}

/// Why no geometry can be made of `models`, if none can: there is no model, or
/// the first model has too few normals or texture coordinates for its
/// positions, or its indices do not fit its vertices.
pub open spec fn load_error(models: Seq<Mesh>) -> Option<AssetError> {
    if models.len() == 0 {
        Some(AssetError::NoModel)
    } else if models[0].normals@.len() < 3 * models[0].vertex_count() {
        Some(AssetError::ShortNormals)
    } else if models[0].texcoords@.len() < 2 * models[0].vertex_count() {
        Some(AssetError::ShortTexcoords)
    } else {
        geometry_error(models[0].vertex_count(), models[0].indices@)
    }
}

/// Builds the geometry of the first of `models`.
///
/// The three attribute arrays are read in lockstep, one vertex for every
/// three position words; every vertex is opaque white.
pub fn load_model(models: &Vec<Mesh>) -> (r: Result<BufferGeometry, AssetError>)
    ensures
        match r {
            Ok(g) => {
                &&& load_error(models@) is None
                &&& are_vertices_of(g.vertices@, models@[0])
                &&& g.indices@ == models@[0].indices@
                &&& g.wf()
            },
            Err(e) => load_error(models@) == Some(e),
        },
{
    if models.len() == 0 {
        return Err(AssetError::NoModel);
    }
    let mesh = &models[0];
    let count: usize = mesh.positions.len() / 3;
    if mesh.normals.len() / 3 < count {
        return Err(AssetError::ShortNormals);
    }
    if mesh.texcoords.len() / 2 < count {
        return Err(AssetError::ShortTexcoords);
    }
    let mut vertices: Vec<Vertex> = Vec::new();
    let mut i: usize = 0;
    while i < count
        invariant
            i <= count,
            count == mesh.vertex_count(),
            mesh.positions@.len() <= usize::MAX,
            mesh.normals@.len() <= usize::MAX,
            mesh.texcoords@.len() <= usize::MAX,
            3 * count <= mesh.positions@.len(),
            3 * count <= mesh.normals@.len(),
            2 * count <= mesh.texcoords@.len(),
            vertices@.len() == i,
            forall|j: int| 0 <= j < i ==> is_vertex_of(#[trigger] vertices@[j], *mesh, j),
        decreases count - i,
    {
        let position = [
            mesh.positions[i * 3],
            mesh.positions[i * 3 + 1],
            mesh.positions[i * 3 + 2],
        ];
        let normal = [mesh.normals[i * 3], mesh.normals[i * 3 + 1], mesh.normals[i * 3 + 2]];
        let uv = [mesh.texcoords[i * 2], mesh.texcoords[i * 2 + 1]];
        let color = [ONE_BITS, ONE_BITS, ONE_BITS, ONE_BITS];
        let v = Vertex { position, normal, uv, color };
        proof {
            assert(v.position@ =~= mesh.positions@.subrange(3 * i, 3 * i + 3));
            assert(v.normal@ =~= mesh.normals@.subrange(3 * i, 3 * i + 3));
            assert(v.uv@ =~= mesh.texcoords@.subrange(2 * i, 2 * i + 2));
            assert(v.color@ =~= seq![ONE_BITS, ONE_BITS, ONE_BITS, ONE_BITS]);
        }
        vertices.push(v);
        i = i + 1;
    }
    let indices = mesh.indices.clone();
    assert(indices@ =~= mesh.indices@);
    BufferGeometry::new(vertices, indices)
}

} // verus!
