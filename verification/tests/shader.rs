use particles::draw::shader::{meta, source, UniformDesc, UniformType, FRAGMENT, VERTEX};

#[test]
fn source_is_the_two_stages() {
    let s = source();
    assert_eq!(s.vertex, VERTEX);
    assert_eq!(s.fragment, FRAGMENT);
    assert_ne!(s.vertex, s.fragment);
}

#[test]
fn both_stages_are_glsl_100() {
    assert!(VERTEX.starts_with("#version 100\n"));
    assert!(FRAGMENT.starts_with("#version 100\n"));
}

#[test]
fn vertex_stage_offsets_after_projection() {
    assert!(VERTEX.contains(
        "gl_Position = mvp * pos + vec4(size*vertices*vec2(1.0,aspect_ratio)/2.0,1.0, 1.0);"
    ));
    assert!(VERTEX.contains("vec4 pos = vec4(pos_particle, 1.0);"));
    assert!(VERTEX.contains("offset = vertices;"));
}

#[test]
fn vertex_stage_declares_its_inputs() {
    assert!(VERTEX.contains("attribute vec2 vertices;"));
    assert!(VERTEX.contains("attribute vec3 pos_particle;"));
    assert!(VERTEX.contains("varying lowp vec2 offset;"));
    assert!(FRAGMENT.contains("varying lowp vec2 offset;"));
}

#[test]
fn fragment_stage_is_a_soft_disc() {
    assert!(FRAGMENT.contains("float dist=sqrt(offset.x*offset.x+offset.y*offset.y);"));
    assert!(FRAGMENT.contains("if(dist<1.0)"));
    assert!(FRAGMENT.contains("gl_FragColor = vec4(0.869,0.158,0.859,0.2*(1.0-dist));"));
    assert!(FRAGMENT.contains("discard;"));
}

#[test]
fn meta_lists_the_uniform_block_in_order() {
    let m = meta();
    assert_eq!(m.uniforms.len(), 3);
    assert_eq!(m.uniforms[0].name, "mvp");
    assert_eq!(m.uniforms[0].uniform_type, UniformType::Mat4);
    assert_eq!(m.uniforms[1].name, "aspect_ratio");
    assert_eq!(m.uniforms[1].uniform_type, UniformType::Float1);
    assert_eq!(m.uniforms[2].name, "size");
    assert_eq!(m.uniforms[2].uniform_type, UniformType::Float1);
    for u in &m.uniforms {
        assert_eq!(u.array_count, 1);
    }
}

#[test]
fn meta_has_no_images() {
    assert!(meta().images.is_empty());
}

#[test]
fn every_uniform_is_declared_in_the_vertex_stage() {
    for u in &meta().uniforms {
        let glsl = match u.uniform_type {
            UniformType::Mat4 => "mat4",
            UniformType::Float1 => "float",
            _ => unreachable!(),
        };
        assert!(VERTEX.contains(&format!("uniform {} {};", glsl, u.name)));
    }
}

#[test]
fn uniform_desc_new_is_a_single_value() {
    let d = UniformDesc::new("size", UniformType::Float1);
    assert_eq!(d.name, "size");
    assert_eq!(d.uniform_type, UniformType::Float1);
    assert_eq!(d.array_count, 1);
}
