//! Draw commands and the buffer that collects them during a frame.

use vstd::prelude::*;
use crate::vertex::{Vertex, VertexGeometry};

verus! {

/// The mathematical value of a [`DrawCommand`]: a list of vertices and a
/// list of indices into it, three for each triangle.
pub struct Mesh {
    pub vertices: Seq<VertexGeometry>,
    pub indices: Seq<u16>,
}

impl Mesh {
    /// The mesh without vertices and indices.
    pub open spec fn empty() -> Mesh {
        Mesh { vertices: Seq::empty(), indices: Seq::empty() }
    }

    /// The indices form whole triangles, each index names a vertex of this
    /// mesh, and the number of indices fits the 32 bits of an indexed draw
    /// call.
    pub open spec fn well_formed(self) -> bool {
        &&& self.indices.len() % 3 == 0
        &&& self.indices.len() <= u32::MAX
        &&& forall|i: int|
            0 <= i < self.indices.len() ==> (#[trigger] self.indices[i]) < self.vertices.len()
    }

    /// The number of triangles.
    pub open spec fn triangles(self) -> int {
        self.indices.len() as int / 3
    }

    /// The vertex at corner `corner` (0, 1 or 2) of triangle `k`.
    pub open spec fn corner(self, k: int, corner: int) -> VertexGeometry {
        self.vertices[self.indices[3 * k + corner] as int]
    }
}

/// The values of a list of vertices, in order.
pub open spec fn geometry(vertices: Seq<Vertex>) -> Seq<VertexGeometry> {
    vertices.map_values(|v: Vertex| v@)
}

/// Each 16-bit word takes two bytes, the low byte first.
pub open spec fn little_endian_words(words: Seq<u16>, bytes: Seq<u8>) -> bool {
    &&& bytes.len() == 2 * words.len()
    &&& forall|i: int|
        0 <= i < words.len() ==> bytes[2 * i] == #[trigger] words[i] % 256 && bytes[2 * i + 1]
            == words[i] / 256
}

/// Each 16-bit word takes two bytes, the high byte first.
pub open spec fn big_endian_words(words: Seq<u16>, bytes: Seq<u8>) -> bool {
    &&& bytes.len() == 2 * words.len()
    &&& forall|i: int|
        0 <= i < words.len() ==> bytes[2 * i] == #[trigger] words[i] / 256 && bytes[2 * i + 1]
            == words[i] % 256
}

/// The bytes hold the words in the byte order of some machine.
pub open spec fn machine_words(words: Seq<u16>, bytes: Seq<u8>) -> bool {
    little_endian_words(words, bytes) || big_endian_words(words, bytes)
}

/// `bytemuck::cast_slice` from 16-bit words to bytes: the same memory, read
/// byte by byte. A byte is never less aligned than a word and two bytes
/// always make a word, so the cast cannot fail. The result has two bytes for
/// each word, in the byte order of the machine, which is the same for every
/// word.
#[verifier::external_body]
fn words_as_bytes(words: &Vec<u16>) -> (bytes: &[u8])
    ensures
        machine_words(words@, bytes@),
{
    bytemuck::cast_slice(words.as_slice())
}

/// One self-contained unit of geometry, drawn by one indexed draw call.
///
/// The indices count from zero within this command's own vertices. A
/// command is always well-formed in the sense of [`Mesh::well_formed`].
#[derive(Debug, PartialEq, Eq)]
pub struct DrawCommand {
    vertices: Vec<Vertex>,
    indices: Vec<u16>,
}

impl View for DrawCommand {
    type V = Mesh;

    closed spec fn view(&self) -> Mesh {
        Mesh { vertices: geometry(self.vertices@), indices: self.indices@ }
    }
}

impl DrawCommand {
    #[verifier::type_invariant]
    closed spec fn well_formed(&self) -> bool {
        self@.well_formed()
    }

    /// The command without geometry.
    pub fn empty() -> (c: DrawCommand)
        ensures
            c@ == Mesh::empty(),
    {
        let c = DrawCommand { vertices: Vec::new(), indices: Vec::new() };
        assert(c@.vertices =~= Seq::empty());
        c
    }

    /// The command with these vertices and indices, or `None` when they are
    /// not well-formed.
    pub fn new(vertices: Vec<Vertex>, indices: Vec<u16>) -> (c: Option<DrawCommand>)
        ensures
            c is Some <==> (Mesh { vertices: geometry(vertices@), indices: indices@ }).well_formed(),
            c matches Some(d) ==> d@ == (Mesh { vertices: geometry(vertices@), indices: indices@ }),
    {
        let ghost mesh = Mesh { vertices: geometry(vertices@), indices: indices@ };
        if indices.len() % 3 != 0 || indices.len() > 0xFFFF_FFFF {
            return None;
        }
        let mut i: usize = 0;
        while i < indices.len()
            invariant
                i <= indices.len(),
                mesh.vertices.len() == vertices.len(),
                mesh.indices == indices@,
                forall|j: int| 0 <= j < i ==> (#[trigger] indices@[j]) < vertices.len(),
            decreases indices.len() - i,
        {
            if indices[i] as usize >= vertices.len() {
                assert(!(mesh.indices[i as int] < mesh.vertices.len()));
                return None;
            }
            i += 1;
        }
        Some(DrawCommand { vertices, indices })
    }

    /// The command with these vertices and indices, which are known to be
    /// well-formed.
    pub(crate) fn from_parts(vertices: Vec<Vertex>, indices: Vec<u16>) -> (c: DrawCommand)
        requires
            (Mesh { vertices: geometry(vertices@), indices: indices@ }).well_formed(),
        ensures
            c@ == (Mesh { vertices: geometry(vertices@), indices: indices@ }),
    {
        DrawCommand { vertices, indices }
    }

    /// The vertices, in order.
    pub fn vertices(&self) -> (v: &Vec<Vertex>)
        ensures
            geometry(v@) == self@.vertices,
            v@.len() == self@.vertices.len(),
    {
        &self.vertices
    }

    /// The indices, in order. Each is below the number of vertices, and
    /// there are three for each triangle.
    pub fn indices(&self) -> (i: &Vec<u16>)
        ensures
            i@ == self@.indices,
            self@.well_formed(),
    {
        proof {
            use_type_invariant(self);
        }
        &self.indices
    }

    /// The number of indices, as an indexed draw call takes it.
    pub fn index_count(&self) -> (n: u32)
        ensures
            n == self@.indices.len(),
    {
        proof {
            use_type_invariant(self);
        }
        self.indices.len() as u32
    }

    /// Whether the command has no triangle, and so nothing to draw.
    pub fn is_empty(&self) -> (e: bool)
        ensures
            e == (self@.indices.len() == 0),
    {
        self.indices.len() == 0
    }

    /// The indices as the bytes of an index buffer: two bytes for each
    /// index, in the byte order of the machine.
    pub fn index_bytes(&self) -> (bytes: &[u8])
        ensures
            machine_words(self@.indices, bytes@),
    {
        words_as_bytes(&self.indices)
    }
}

/// The meshes of a list of commands, in order.
pub open spec fn meshes(commands: Seq<DrawCommand>) -> Seq<Mesh> {
    commands.map_values(|c: DrawCommand| c@)
}

/// The mesh that shows at a place after the meshes of a pass were drawn in
/// order, without a depth test: the last one that covers the place, by its
/// index, or none where no mesh covers it and the background shows.
pub open spec fn on_top(pass: Seq<Mesh>, covers: spec_fn(Mesh) -> bool) -> Option<int>
    decreases pass.len(),
{
    if pass.len() == 0 {
        None
    } else if covers(pass.last()) {
        Some(pass.len() - 1)
    } else {
        on_top(pass.drop_last(), covers)
    }
}

/// The draw commands of the frame that is being put together, in the order
/// in which they were pushed.
///
/// Commands are drawn in that order into one pass, without a depth test:
/// what is pushed later is drawn on top.
#[derive(Debug, PartialEq, Eq)]
pub struct DrawCommandBuffer {
    commands: Vec<DrawCommand>,
}

impl View for DrawCommandBuffer {
    type V = Seq<Mesh>;

    closed spec fn view(&self) -> Seq<Mesh> {
        meshes(self.commands@)
    }
}

impl DrawCommandBuffer {
    /// The buffer without commands.
    pub fn new() -> (b: DrawCommandBuffer)
        ensures
            b@ == Seq::<Mesh>::empty(),
    {
        let b = DrawCommandBuffer { commands: Vec::new() };
        assert(b@ =~= Seq::<Mesh>::empty());
        b
    }

    /// Appends `command` behind the commands that are there.
    pub fn push(&mut self, command: DrawCommand)
        ensures
            final(self)@ == old(self)@.push(command@),
    {
        self.commands.push(command);
        assert(self@ =~= old(self)@.push(command@));
    }

    /// Takes all commands out, in the order in which they were pushed, and
    /// leaves the buffer empty.
    pub fn drain(&mut self) -> (commands: Vec<DrawCommand>)
        ensures
            meshes(commands@) == old(self)@,
            final(self)@ == Seq::<Mesh>::empty(),
    {
        let mut commands: Vec<DrawCommand> = Vec::new();
        core::mem::swap(&mut commands, &mut self.commands);
        assert(self@ =~= Seq::<Mesh>::empty());
        commands
    }

    /// Drops all commands.
    pub fn clear(&mut self)
        ensures
            final(self)@ == Seq::<Mesh>::empty(),
    {
        self.commands.clear();
        assert(self@ =~= Seq::<Mesh>::empty());
    }

    /// The number of commands.
    pub fn len(&self) -> (n: usize)
        ensures
            n == self@.len(),
    {
        self.commands.len()
    }

    /// Whether there is no command.
    pub fn is_empty(&self) -> (e: bool)
        ensures
            e == (self@.len() == 0),
    {
        self.commands.len() == 0
    }
}

} // verus!
