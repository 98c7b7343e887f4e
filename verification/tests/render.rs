use glam::Vec3;
use particles::draw::render::{
    BlendFactor, BlendState, BlendValue, BufferDesc, BufferLayout, BufferType, BufferUsage,
    Command, Draw, Equation, VertexAttribute, VertexFormat, VertexStep, CORNER_BYTES,
    GEOMETRY_STREAM, INDEX_BYTES, INSTANCE_BYTES, INSTANCE_STREAM, QUAD_ELEMENTS,
};

#[test]
fn quad_is_a_square_about_the_origin() {
    let draw = Draw::new(16);
    assert_eq!(draw.setup().vertices, vec![(-1, 1), (1, 1), (1, -1), (-1, -1)]);
}

#[test]
fn indices_form_two_triangles() {
    let draw = Draw::new(16);
    let setup = draw.setup();
    assert_eq!(setup.indices, vec![0, 1, 2, 0, 2, 3]);
    assert_eq!(setup.indices.len(), QUAD_ELEMENTS as usize);
    for i in &setup.indices {
        assert!((*i as usize) < setup.vertices.len());
    }
}

#[test]
fn static_buffers_are_immutable() {
    let draw = Draw::new(16);
    let setup = draw.setup();
    assert_eq!(
        setup.geometry_buffer,
        BufferDesc {
            buffer_type: BufferType::VertexBuffer,
            usage: BufferUsage::Immutable,
            size: 32,
            element_size: 4,
        }
    );
    assert_eq!(
        setup.index_buffer,
        BufferDesc {
            buffer_type: BufferType::IndexBuffer,
            usage: BufferUsage::Immutable,
            size: 12,
            element_size: 2,
        }
    );
    assert_eq!(setup.geometry_buffer.size, setup.vertices.len() * CORNER_BYTES);
    assert_eq!(setup.index_buffer.size, setup.indices.len() * INDEX_BYTES);
}

#[test]
fn instance_buffer_is_a_stream_of_capacity_positions() {
    let draw = Draw::new(32768);
    assert_eq!(draw.max_particles(), 32768);
    assert_eq!(
        draw.setup().positions_buffer,
        BufferDesc {
            buffer_type: BufferType::VertexBuffer,
            usage: BufferUsage::Stream,
            size: 393216,
            element_size: 12,
        }
    );
    assert_eq!(INSTANCE_BYTES, std::mem::size_of::<Vec3>());
}

#[test]
fn instance_buffer_of_no_particles_is_empty() {
    let draw = Draw::new(0);
    assert_eq!(draw.max_particles(), 0);
    assert_eq!(draw.setup().positions_buffer.size, 0);
}

#[test]
fn streams_step_per_vertex_then_per_instance() {
    let draw = Draw::new(16);
    assert_eq!(
        draw.setup().layouts,
        vec![
            BufferLayout { stride: 0, step_func: VertexStep::PerVertex, step_rate: 1 },
            BufferLayout { stride: 0, step_func: VertexStep::PerInstance, step_rate: 1 },
        ]
    );
    assert_eq!(GEOMETRY_STREAM, 0);
    assert_eq!(INSTANCE_STREAM, 1);
}

#[test]
fn attributes_read_corner_and_position() {
    let draw = Draw::new(16);
    let attributes = &draw.setup().attributes;
    assert_eq!(attributes.len(), 2);
    assert_eq!(attributes[0].name, "vertices");
    assert_eq!(attributes[0].format, VertexFormat::Float2);
    assert_eq!(attributes[0].buffer_index, 0);
    assert_eq!(attributes[1].name, "pos_particle");
    assert_eq!(attributes[1].format, VertexFormat::Float3);
    assert_eq!(attributes[1].buffer_index, 1);
    for a in attributes {
        assert!(a.buffer_index < draw.setup().layouts.len());
    }
}

#[test]
fn with_buffer_keeps_its_arguments() {
    let a = VertexAttribute::with_buffer("pos_particle", VertexFormat::Float3, 1);
    assert_eq!(a.name, "pos_particle");
    assert_eq!(a.format, VertexFormat::Float3);
    assert_eq!(a.buffer_index, 1);
}

#[test]
fn colour_blends_by_source_alpha() {
    let draw = Draw::new(16);
    assert_eq!(
        draw.setup().color_blend,
        Some(BlendState {
            equation: Equation::Add,
            sfactor: BlendFactor::Value(BlendValue::SourceAlpha),
            dfactor: BlendFactor::OneMinusValue(BlendValue::SourceAlpha),
        })
    );
}

#[test]
fn alpha_keeps_the_destination() {
    let draw = Draw::new(16);
    assert_eq!(
        draw.setup().alpha_blend,
        Some(BlendState {
            equation: Equation::Add,
            sfactor: BlendFactor::Zero,
            dfactor: BlendFactor::One,
        })
    );
}

#[test]
fn setup_carries_the_shader() {
    let draw = Draw::new(16);
    let setup = draw.setup();
    assert_eq!(setup.shader.vertex, particles::draw::shader::VERTEX);
    assert_eq!(setup.shader.fragment, particles::draw::shader::FRAGMENT);
    assert_eq!(setup.meta.uniforms.len(), 3);
    assert!(setup.meta.images.is_empty());
}

#[test]
fn frame_of_an_empty_pool() {
    let draw = Draw::new(4);
    let commands = draw.draw(&Vec::new());
    assert_eq!(
        commands,
        vec![
            Command::UpdateBuffer { stream: 1, size: 0 },
            Command::BeginDefaultPass,
            Command::ApplyPipeline,
            Command::ApplyBindings,
            Command::ApplyUniforms,
            Command::Draw { base_element: 0, num_elements: 6, num_instances: 0 },
            Command::EndRenderPass,
            Command::CommitFrame,
        ]
    );
}

#[test]
fn frame_draws_one_instance_per_particle() {
    let draw = Draw::new(4);
    let pos = vec![Vec3::ZERO, Vec3::ONE, Vec3::X];
    let commands = draw.draw(&pos);
    assert_eq!(commands.len(), 8);
    assert_eq!(commands[0], Command::UpdateBuffer { stream: 1, size: 36 });
    assert_eq!(
        commands[5],
        Command::Draw { base_element: 0, num_elements: 6, num_instances: 3 }
    );
    assert_eq!(commands[7], Command::CommitFrame);
}

#[test]
fn frame_of_a_full_pool_fits_the_instance_buffer() {
    let draw = Draw::new(3);
    let pos = vec![Vec3::ZERO, Vec3::ONE, Vec3::X];
    let commands = draw.draw(&pos);
    match commands[0] {
        Command::UpdateBuffer { stream, size } => {
            assert_eq!(stream, INSTANCE_STREAM);
            assert_eq!(size, draw.setup().positions_buffer.size);
        }
        _ => panic!("a frame starts with the upload"),
    }
}
