//! The sprite shader: its two GLSL stages and the uniform block they read.

use vstd::prelude::*;

verus! {

/// Vertex stage. The quad corner is added after projection, scaled by `size`
/// and stretched by `aspect_ratio`, so every sprite faces the screen; the
/// corner itself is handed on to the fragment stage.
pub const VERTEX: &'static str = "#version 100
attribute vec2 vertices;
attribute vec3 pos_particle;

varying lowp vec2 offset;

uniform mat4 mvp;
uniform float aspect_ratio;
uniform float size;

void main() {
    vec4 pos = vec4(pos_particle, 1.0);
    gl_Position = mvp * pos + vec4(size*vertices*vec2(1.0,aspect_ratio)/2.0,1.0, 1.0);
    offset = vertices;
}
";

/// Fragment stage. Inside the unit disc the alpha falls off linearly with the
/// distance from the centre; outside it the fragment is discarded.
pub const FRAGMENT: &'static str = "#version 100
precision mediump float;
varying lowp vec2 offset;

void main() {
    float dist=sqrt(offset.x*offset.x+offset.y*offset.y);
    if(dist<1.0)
        gl_FragColor = vec4(0.869,0.158,0.859,0.2*(1.0-dist));
    else
        discard;
}
";

/// The GLSL text of a shader program, one string per stage.
#[derive(Clone, Copy, Debug)]
pub struct ShaderSource {
    pub vertex: &'static str,
    pub fragment: &'static str,
}

/// The type of one uniform, as the backend names them.
#[derive(Clone, Copy, Debug, PartialEq, Eq, Structural)]
pub enum UniformType {
    Float1,
    Float2,
    Float3,
    Float4,
    Int1,
    Int2,
    Int3,
    Int4,
    Mat4,
}

/// One entry of the uniform block.
#[derive(Clone, Copy, Debug)]
pub struct UniformDesc {
    pub name: &'static str,
    pub uniform_type: UniformType,
    pub array_count: usize,
}

/// What the program declares to the backend: its uniform block, in order, and
/// the names of its images.
#[derive(Debug)]
pub struct ShaderMeta {
    pub uniforms: Vec<UniformDesc>,
    pub images: Vec<&'static str>,
}

impl UniformDesc {
    /// A uniform that is not an array.
    pub fn new(name: &'static str, uniform_type: UniformType) -> (d: UniformDesc)
        ensures
            d.name@ == name@,
            d.uniform_type == uniform_type,
            d.array_count == 1,
    {
        UniformDesc { name, uniform_type, array_count: 1 }
    }

    /// The entry as a name and a type.
    pub open spec fn entry(self) -> (Seq<char>, UniformType) {
        (self.name@, self.uniform_type)
    }
}

/// The uniform block that both stages are written against: the combined
/// matrix, then the aspect ratio, then the sprite size.
pub open spec fn uniform_block() -> Seq<(Seq<char>, UniformType)> {
    seq![
        ("mvp"@, UniformType::Mat4),
        ("aspect_ratio"@, UniformType::Float1),
        ("size"@, UniformType::Float1),
    ]
}

impl ShaderMeta {
    /// The uniform block as names and types, in declaration order.
    pub open spec fn block(&self) -> Seq<(Seq<char>, UniformType)> {
        Seq::new(self.uniforms@.len(), |i: int| self.uniforms@[i].entry())
    }
}

/// The program's source.
pub fn source() -> (s: ShaderSource)
    ensures
        s.vertex@ == VERTEX@,
        s.fragment@ == FRAGMENT@,
{
    ShaderSource { vertex: VERTEX, fragment: FRAGMENT }
}

/// The program's declaration: the uniform block of [`uniform_block`], each
/// entry a single value, and no images.
pub fn meta() -> (m: ShaderMeta)
    ensures
        m.block() == uniform_block(),
        forall|i: int| 0 <= i < m.uniforms@.len() ==> (#[trigger] m.uniforms@[i]).array_count == 1,
        m.images@.len() == 0,
{
    let mut uniforms: Vec<UniformDesc> = Vec::new();
    uniforms.push(UniformDesc::new("mvp", UniformType::Mat4));
    uniforms.push(UniformDesc::new("aspect_ratio", UniformType::Float1));
    uniforms.push(UniformDesc::new("size", UniformType::Float1));
    let m = ShaderMeta { uniforms, images: Vec::new() };
    assert(m.block() =~= uniform_block());
    m
}

} // verus!
