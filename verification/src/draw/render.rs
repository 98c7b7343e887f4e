//! The instanced sprite pipeline: one static quad, drawn once per particle.

use crate::draw::shader::{meta, source, ShaderMeta, ShaderSource};
use glam::Vec3;
use vstd::prelude::*;

verus! {

/// Bytes of one particle position in the instance buffer: three 32-bit floats.
pub const INSTANCE_BYTES: usize = 12;

/// Bytes of one quad corner in the geometry buffer: two 32-bit floats.
pub const CORNER_BYTES: usize = 8;

/// Bytes of one index.
pub const INDEX_BYTES: usize = 2;

/// The vertex stream that holds the quad corners.
pub const GEOMETRY_STREAM: usize = 0;

/// The vertex stream that holds one position per particle.
pub const INSTANCE_STREAM: usize = 1;

/// Indices drawn per instance: two triangles.
pub const QUAD_ELEMENTS: i32 = 6;

/// What a buffer is bound as.
#[derive(Clone, Copy, Debug, PartialEq, Eq, Structural)]
pub enum BufferType {
    VertexBuffer,
    IndexBuffer,
}

/// How often a buffer is rewritten: never, now and then, or every frame.
#[derive(Clone, Copy, Debug, PartialEq, Eq, Structural)]
pub enum BufferUsage {
    Immutable,
    Dynamic,
    Stream,
}

/// A buffer to create: what it is bound as, how often it is rewritten, and
/// its size in bytes.
#[derive(Clone, Copy, Debug, PartialEq, Eq, Structural)]
pub struct BufferDesc {
    pub buffer_type: BufferType,
    pub usage: BufferUsage,
    pub size: usize,
    pub element_size: usize,
}

/// Whether a stream moves on with each vertex or with each instance.
#[derive(Clone, Copy, Debug, PartialEq, Eq, Structural)]
pub enum VertexStep {
    PerVertex,
    PerInstance,
}

/// How one vertex stream is stepped. A stride of 0 leaves the stride to the
/// attributes that read the stream.
#[derive(Clone, Copy, Debug, PartialEq, Eq, Structural)]
pub struct BufferLayout {
    pub stride: i32,
    pub step_func: VertexStep,
    pub step_rate: i32,
}

/// One to four 32-bit floats.
#[derive(Clone, Copy, Debug, PartialEq, Eq, Structural)]
pub enum VertexFormat {
    Float1,
    Float2,
    Float3,
    Float4,
}

/// One shader input and the stream it is read from.
#[derive(Clone, Copy, Debug)]
pub struct VertexAttribute {
    pub name: &'static str,
    pub format: VertexFormat,
    pub buffer_index: usize,
}

/// How the weighted source and destination are combined.
#[derive(Clone, Copy, Debug, PartialEq, Eq, Structural)]
pub enum Equation {
    Add,
    Subtract,
    ReverseSubtract,
}

/// A channel that a blend factor is taken from.
#[derive(Clone, Copy, Debug, PartialEq, Eq, Structural)]
pub enum BlendValue {
    SourceColor,
    SourceAlpha,
    DestinationColor,
    DestinationAlpha,
}

/// The weight of the source or of the destination in a blend.
#[derive(Clone, Copy, Debug, PartialEq, Eq, Structural)]
pub enum BlendFactor {
    Zero,
    One,
    Value(BlendValue),
    OneMinusValue(BlendValue),
    SourceAlphaSaturate,
}

/// `equation(sfactor * source, dfactor * destination)`.
#[derive(Clone, Copy, Debug, PartialEq, Eq, Structural)]
pub struct BlendState {
    pub equation: Equation,
    pub sfactor: BlendFactor,
    pub dfactor: BlendFactor,
}

impl VertexFormat {
    /// Bytes that one value of the format takes in its stream.
    pub open spec fn bytes(self) -> nat {
        match self {
            VertexFormat::Float1 => 4,
            VertexFormat::Float2 => 8,
            VertexFormat::Float3 => 12,
            VertexFormat::Float4 => 16,
        }
    }
}

impl VertexAttribute {
    /// The input `name`, read in `format` from the stream `buffer_index`.
    pub fn with_buffer(name: &'static str, format: VertexFormat, buffer_index: usize) -> (a:
        VertexAttribute)
        ensures
            a.entry() == (name@, format, buffer_index),
    {
        VertexAttribute { name, format, buffer_index }
    }

    /// The attribute as its name, format and stream.
    pub open spec fn entry(self) -> (Seq<char>, VertexFormat, usize) {
        (self.name@, self.format, self.buffer_index)
    }
}

/// Everything the renderer creates once at start-up. Nothing in it changes
/// afterwards: the instance buffer is rewritten every frame and never resized.
#[derive(Debug)]
pub struct Setup {
    /// The corners of the quad, in units of its half side.
    pub vertices: Vec<(i8, i8)>,
    pub indices: Vec<u16>,
    pub geometry_buffer: BufferDesc,
    pub index_buffer: BufferDesc,
    pub positions_buffer: BufferDesc,
    pub shader: ShaderSource,
    pub meta: ShaderMeta,
    /// One layout per vertex stream.
    pub layouts: Vec<BufferLayout>,
    pub attributes: Vec<VertexAttribute>,
    pub color_blend: Option<BlendState>,
    pub alpha_blend: Option<BlendState>,
}

/// One step of a frame, for the backend to carry out.
#[derive(Clone, Copy, Debug, PartialEq, Eq, Structural)]
pub enum Command {
    /// Overwrite the start of a vertex stream's buffer with `size` bytes.
    UpdateBuffer { stream: usize, size: usize },
    BeginDefaultPass,
    ApplyPipeline,
    ApplyBindings,
    ApplyUniforms,
    Draw { base_element: i32, num_elements: i32, num_instances: i32 },
    EndRenderPass,
    CommitFrame,
}

/// A square of side 2 about the origin.
pub open spec fn quad_corners() -> Seq<(i8, i8)> {
    seq![(-1i8, 1i8), (1i8, 1i8), (1i8, -1i8), (-1i8, -1i8)]
}

/// The two triangles that cover the quad.
pub open spec fn quad_indices() -> Seq<u16> {
    seq![0u16, 1u16, 2u16, 0u16, 2u16, 3u16]
}

/// The quad is stepped per vertex, the positions per instance.
pub open spec fn stream_layouts() -> Seq<BufferLayout> {
    seq![
        BufferLayout { stride: 0, step_func: VertexStep::PerVertex, step_rate: 1 },
        BufferLayout { stride: 0, step_func: VertexStep::PerInstance, step_rate: 1 },
    ]
}

/// The two inputs of the vertex stage.
pub open spec fn shader_inputs() -> Seq<(Seq<char>, VertexFormat, usize)> {
    seq![
        ("vertices"@, VertexFormat::Float2, GEOMETRY_STREAM),
        ("pos_particle"@, VertexFormat::Float3, INSTANCE_STREAM),
    ]
}

/// Colour is blended as `alpha * source + (1 - alpha) * destination`.
pub open spec fn color_blend() -> BlendState {
    BlendState {
        equation: Equation::Add,
        sfactor: BlendFactor::Value(BlendValue::SourceAlpha),
        dfactor: BlendFactor::OneMinusValue(BlendValue::SourceAlpha),
    }
}

/// Alpha is left as the destination has it.
pub open spec fn alpha_blend() -> BlendState {
    BlendState { equation: Equation::Add, sfactor: BlendFactor::Zero, dfactor: BlendFactor::One }
}

/// The frame that draws `instances` particles: upload their positions, then
/// one pass with one instanced draw of the quad, then present.
pub open spec fn frame(instances: nat) -> Seq<Command> {
    seq![
        Command::UpdateBuffer { stream: INSTANCE_STREAM, size: (instances * INSTANCE_BYTES) as usize },
        Command::BeginDefaultPass,
        Command::ApplyPipeline,
        Command::ApplyBindings,
        Command::ApplyUniforms,
        Command::Draw {
            base_element: 0,
            num_elements: QUAD_ELEMENTS,
            num_instances: instances as i32,
        },
        Command::EndRenderPass,
        Command::CommitFrame,
    ]
}

impl Setup {
    /// The attributes as names, formats and streams, in order.
    pub open spec fn inputs(&self) -> Seq<(Seq<char>, VertexFormat, usize)> {
        Seq::new(self.attributes@.len(), |i: int| self.attributes@[i].entry())
    }

    /// Bytes that the attributes read from one element of `stream`.
    pub open spec fn stride(&self, stream: usize) -> nat {
        Self::stride_of(self.attributes@, stream)
    }

    /// Bytes that `attributes` read from one element of `stream`.
    pub open spec fn stride_of(attributes: Seq<VertexAttribute>, stream: usize) -> nat
        decreases attributes.len(),
    {
        if attributes.len() == 0 {
            0
        } else {
            let rest = Self::stride_of(attributes.drop_last(), stream);
            if attributes.last().buffer_index == stream {
                rest + attributes.last().format.bytes()
            } else {
                rest
            }
        }
    }

    /// The sprite pipeline for at most `max_particles` particles.
    pub open spec fn describes(&self, max_particles: usize) -> bool {
        &&& self.vertices@ == quad_corners()
        &&& self.indices@ == quad_indices()
        &&& self.geometry_buffer == (BufferDesc {
            buffer_type: BufferType::VertexBuffer,
            usage: BufferUsage::Immutable,
            size: 32,
            element_size: 4,
        })
        &&& self.index_buffer == (BufferDesc {
            buffer_type: BufferType::IndexBuffer,
            usage: BufferUsage::Immutable,
            size: 12,
            element_size: INDEX_BYTES,
        })
        &&& self.positions_buffer == (BufferDesc {
            buffer_type: BufferType::VertexBuffer,
            usage: BufferUsage::Stream,
            size: (max_particles * INSTANCE_BYTES) as usize,
            element_size: INSTANCE_BYTES,
        })
        &&& self.shader.vertex@ == crate::draw::shader::VERTEX@
        &&& self.shader.fragment@ == crate::draw::shader::FRAGMENT@
        &&& self.meta.block() == crate::draw::shader::uniform_block()
        &&& self.meta.images@.len() == 0
        &&& self.layouts@ == stream_layouts()
        &&& self.inputs() == shader_inputs()
        &&& self.color_blend == Some(color_blend())
        &&& self.alpha_blend == Some(alpha_blend())
    }
}

/// The renderer's plan: what it created, and for how many particles.
pub struct Draw {
    setup: Setup,
    max_particles: usize,
}

impl Draw {
    /// The number of positions that the instance buffer holds.
    pub closed spec fn capacity(&self) -> nat {
        self.max_particles as nat
    }

    /// What was created at start-up.
    pub closed spec fn resources(&self) -> Setup {
        self.setup
    }

    /// The resources are those of the sprite pipeline, sized for the
    /// capacity, and the capacity fits the backend's counters.
    pub open spec fn wf(&self) -> bool {
        &&& self.capacity() * INSTANCE_BYTES <= isize::MAX
        &&& self.capacity() <= i32::MAX
        &&& self.resources().describes(self.capacity() as usize)
    }

    /// Plans the static quad, its indices, an empty instance buffer for
    /// `max_particles` positions, the shader and the blending pipeline.
    pub fn new(max_particles: usize) -> (d: Draw)
        requires
            max_particles * INSTANCE_BYTES <= isize::MAX,
            max_particles <= i32::MAX,
        ensures
            d.wf(),
            d.capacity() == max_particles,
    {
        let mut vertices: Vec<(i8, i8)> = Vec::new();
        vertices.push((-1, 1));
        vertices.push((1, 1));
        vertices.push((1, -1));
        vertices.push((-1, -1));
        let geometry_buffer = BufferDesc {
            buffer_type: BufferType::VertexBuffer,
            usage: BufferUsage::Immutable,
            size: 32,
            element_size: 4,
        };

        let mut indices: Vec<u16> = Vec::new();
        indices.push(0);
        indices.push(1);
        indices.push(2);
        indices.push(0);
        indices.push(2);
        indices.push(3);
        let index_buffer = BufferDesc {
            buffer_type: BufferType::IndexBuffer,
            usage: BufferUsage::Immutable,
            size: 12,
            element_size: INDEX_BYTES,
        };

        let positions_buffer = BufferDesc {
            buffer_type: BufferType::VertexBuffer,
            usage: BufferUsage::Stream,
            size: max_particles * INSTANCE_BYTES,
            element_size: INSTANCE_BYTES,
        };

        let mut layouts: Vec<BufferLayout> = Vec::new();
        layouts.push(BufferLayout { stride: 0, step_func: VertexStep::PerVertex, step_rate: 1 });
        layouts.push(BufferLayout { stride: 0, step_func: VertexStep::PerInstance, step_rate: 1 });

        let mut attributes: Vec<VertexAttribute> = Vec::new();
        attributes.push(VertexAttribute::with_buffer("vertices", VertexFormat::Float2, GEOMETRY_STREAM));
        attributes.push(
            VertexAttribute::with_buffer("pos_particle", VertexFormat::Float3, INSTANCE_STREAM),
        );

        let setup = Setup {
            vertices,
            indices,
            geometry_buffer,
            index_buffer,
            positions_buffer,
            shader: source(),
            meta: meta(),
            layouts,
            attributes,
            color_blend: Some(
                BlendState {
                    equation: Equation::Add,
                    sfactor: BlendFactor::Value(BlendValue::SourceAlpha),
                    dfactor: BlendFactor::OneMinusValue(BlendValue::SourceAlpha),
                },
            ),
            alpha_blend: Some(
                BlendState {
                    equation: Equation::Add,
                    sfactor: BlendFactor::Zero,
                    dfactor: BlendFactor::One,
                },
            ),
        };
        proof {
            assert(setup.vertices@ =~= quad_corners());
            assert(setup.indices@ =~= quad_indices());
            assert(setup.layouts@ =~= stream_layouts());
            assert(setup.inputs() =~= shader_inputs());
        }
        Draw { setup, max_particles }
    }

    /// The most particles that one frame can draw.
    pub fn max_particles(&self) -> (n: usize)
        ensures
            n == self.capacity(),
    {
        self.max_particles
    }

    /// What to create at start-up.
    pub fn setup(&self) -> (s: &Setup)
        ensures
            *s == self.resources(),
    {
        &self.setup
    }

    /// The commands of one frame that shows every particle of `pos`.
    pub fn draw(&self, pos: &Vec<Vec3>) -> (commands: Vec<Command>)
        requires
            self.wf(),
            pos@.len() <= self.capacity(),
        ensures
            commands@ == frame(pos@.len()),
    {
        let instances: usize = pos.len();
        let mut commands: Vec<Command> = Vec::new();
        commands.push(Command::UpdateBuffer { stream: INSTANCE_STREAM, size: instances * INSTANCE_BYTES });
        commands.push(Command::BeginDefaultPass);
        commands.push(Command::ApplyPipeline);
        commands.push(Command::ApplyBindings);
        commands.push(Command::ApplyUniforms);
        commands.push(
            Command::Draw {
                base_element: 0,
                num_elements: QUAD_ELEMENTS,
                num_instances: instances as i32,
            },
        );
        commands.push(Command::EndRenderPass);
        commands.push(Command::CommitFrame);
        assert(commands@ =~= frame(pos@.len()));
        commands
    }
}

/// The parts of the sprite pipeline agree with one another: every index names
/// a corner, every attribute reads a stream that has a layout, the
/// attributes take from each stream exactly one element of its buffer, and
/// each buffer is as large as what it holds.
pub proof fn lemma_setup_consistent(setup: Setup, max_particles: usize)
    requires
        setup.describes(max_particles),
        max_particles * INSTANCE_BYTES <= usize::MAX,
    ensures
        setup.indices@.len() == QUAD_ELEMENTS,
        forall|i: int|
            0 <= i < setup.indices@.len() ==> (#[trigger] setup.indices@[i]) < setup.vertices@.len(),
        forall|i: int|
            0 <= i < setup.attributes@.len() ==> (#[trigger] setup.attributes@[i]).buffer_index
                < setup.layouts@.len(),
        setup.stride(GEOMETRY_STREAM) == CORNER_BYTES,
        setup.stride(INSTANCE_STREAM) == INSTANCE_BYTES,
        setup.positions_buffer.element_size == setup.stride(INSTANCE_STREAM),
        setup.geometry_buffer.size == setup.vertices@.len() * CORNER_BYTES,
        setup.index_buffer.size == setup.indices@.len() * INDEX_BYTES,
        setup.positions_buffer.size == max_particles * setup.positions_buffer.element_size,
{
    let attributes = setup.attributes@;
    assert(setup.inputs().len() == 2);
    assert(attributes.len() == 2);
    assert(setup.inputs()[0] == attributes[0].entry());
    assert(setup.inputs()[1] == attributes[1].entry());
    let first = attributes.drop_last();
    assert(first.len() == 1);
    assert(first.last() == attributes[0]);
    assert(first.drop_last().len() == 0);
    assert(Setup::stride_of(first.drop_last(), GEOMETRY_STREAM) == 0);
    assert(Setup::stride_of(first.drop_last(), INSTANCE_STREAM) == 0);
    assert(Setup::stride_of(first, GEOMETRY_STREAM) == 8);
    assert(Setup::stride_of(first, INSTANCE_STREAM) == 0);
    assert(attributes.last() == attributes[1]);
}

/// What a frame uploads fits the instance buffer that was created, and the
/// instance count that it draws is the number of particles.
pub proof fn lemma_frame_fits(draw: Draw, instances: nat)
    requires
        draw.wf(),
        instances <= draw.capacity(),
    ensures
        frame(instances)[0] == (Command::UpdateBuffer {
            stream: INSTANCE_STREAM,
            size: (instances * INSTANCE_BYTES) as usize,
        }),
        instances * INSTANCE_BYTES <= draw.resources().positions_buffer.size,
        frame(instances)[5] == (Command::Draw {
            base_element: 0,
            num_elements: QUAD_ELEMENTS,
            num_instances: instances as i32,
        }),
        instances as i32 == instances,
{
}

} // verus!
