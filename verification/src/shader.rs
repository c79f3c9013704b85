//! Shader objects and linked programs, as the numbers and names by which the
//! graphics library knows them. Compiling, linking and drawing are done by
//! whoever owns the graphics context; here is what is decided from their
//! results.

use vstd::hash_map::StringHashMap;
use vstd::prelude::*;
use vstd::string::StringExecFns;

verus! {

/// The stage of the pipeline that a shader is written for.
#[derive(Debug, Clone, Copy, PartialEq, Eq, Hash, Structural)]
pub enum ShaderType {
    Vertex,
    Fragment,
    Geometry,
    TessControl,
    TessEvaluation,
    Compute,
}

/// `gl::VERTEX_SHADER`: the number that the OpenGL registry gives to vertex
/// shaders, `0x8B31`.
#[verifier::external_body]
fn gl_vertex_shader() -> (e: u32)
    ensures
        e == 0x8B31,
{
    gl::VERTEX_SHADER
}

/// `gl::FRAGMENT_SHADER`: the number that the OpenGL registry gives to
/// fragment shaders, `0x8B30`.
#[verifier::external_body]
fn gl_fragment_shader() -> (e: u32)
    ensures
        e == 0x8B30,
{
    gl::FRAGMENT_SHADER
}

/// `gl::GEOMETRY_SHADER`: the number that the OpenGL registry gives to
/// geometry shaders, `0x8DD9`.
#[verifier::external_body]
fn gl_geometry_shader() -> (e: u32)
    ensures
        e == 0x8DD9,
{
    gl::GEOMETRY_SHADER
}

/// `gl::TESS_CONTROL_SHADER`: the number that the OpenGL registry gives to
/// tessellation control shaders, `0x8E88`.
#[verifier::external_body]
fn gl_tess_control_shader() -> (e: u32)
    ensures
        e == 0x8E88,
{
    gl::TESS_CONTROL_SHADER
}

/// `gl::TESS_EVALUATION_SHADER`: the number that the OpenGL registry gives
/// to tessellation evaluation shaders, `0x8E87`.
#[verifier::external_body]
fn gl_tess_evaluation_shader() -> (e: u32)
    ensures
        e == 0x8E87,
{
    gl::TESS_EVALUATION_SHADER
}

/// `gl::COMPUTE_SHADER`: the number that the OpenGL registry gives to
/// compute shaders, `0x91B9`.
#[verifier::external_body]
fn gl_compute_shader() -> (e: u32)
    ensures
        e == 0x91B9,
{
    gl::COMPUTE_SHADER
}

impl ShaderType {
    /// The number by which OpenGL knows this stage.
    pub open spec fn gl_enum(self) -> u32 {
        match self {
            ShaderType::Vertex => 0x8B31,
            ShaderType::Fragment => 0x8B30,
            ShaderType::Geometry => 0x8DD9,
            ShaderType::TessControl => 0x8E88,
            ShaderType::TessEvaluation => 0x8E87,
            ShaderType::Compute => 0x91B9,
        }
    }

    /// `gl_enum` is the number of one of the six stages.
    pub open spec fn is_gl_enum(gl_enum: u32) -> bool {
        gl_enum == 0x8B31 || gl_enum == 0x8B30 || gl_enum == 0x8DD9 || gl_enum == 0x8E88
            || gl_enum == 0x8E87 || gl_enum == 0x91B9
    }

    /// The stage's name in messages.
    pub open spec fn name(self) -> Seq<char> {
        match self {
            ShaderType::Vertex => "vertex"@,
            ShaderType::Fragment => "fragment"@,
            ShaderType::Geometry => "geometry"@,
            ShaderType::TessControl => "tess control"@,
            ShaderType::TessEvaluation => "tess evaluation"@,
            ShaderType::Compute => "compute"@,
        }
    }

    /// The stage that OpenGL knows by `gl_enum`, which has to be the number
    /// of a stage.
    pub fn from_gl_enum(gl_enum: u32) -> (t: ShaderType)
        requires
            ShaderType::is_gl_enum(gl_enum),
        ensures
            t.gl_enum() == gl_enum,
    {
        if gl_enum == gl_vertex_shader() {
            ShaderType::Vertex
        } else if gl_enum == gl_fragment_shader() {
            ShaderType::Fragment
        } else if gl_enum == gl_geometry_shader() {
            ShaderType::Geometry
        } else if gl_enum == gl_tess_control_shader() {
            ShaderType::TessControl
        } else if gl_enum == gl_tess_evaluation_shader() {
            ShaderType::TessEvaluation
        } else {
            ShaderType::Compute
        }
    }

    /// The number by which OpenGL knows this stage.
    pub fn to_gl_enum(&self) -> (e: u32)
        ensures
            e == self.gl_enum(),
            ShaderType::is_gl_enum(e),
    {
        match self {
            ShaderType::Vertex => gl_vertex_shader(),
            ShaderType::Fragment => gl_fragment_shader(),
            ShaderType::Geometry => gl_geometry_shader(),
            ShaderType::TessControl => gl_tess_control_shader(),
            ShaderType::TessEvaluation => gl_tess_evaluation_shader(),
            ShaderType::Compute => gl_compute_shader(),
        }
    }

    /// The stage's name in messages.
    pub fn to_str(&self) -> (s: &'static str)
        ensures
            s@ == self.name(),
    {
        match self {
            ShaderType::Vertex => "vertex",
            ShaderType::Fragment => "fragment",
            ShaderType::Geometry => "geometry",
            ShaderType::TessControl => "tess control",
            ShaderType::TessEvaluation => "tess evaluation",
            ShaderType::Compute => "compute",
        }
    }
}

/// No two stages share a number: a stage is found again from its number.
pub proof fn lemma_gl_enum_names_one_stage(a: ShaderType, b: ShaderType)
    ensures
        a.gl_enum() == b.gl_enum() <==> a == b,
        ShaderType::is_gl_enum(a.gl_enum()),
{
}

/// A shader object that compiled.
#[derive(Debug)]
pub struct Shader {
    id: u32,
    _type: ShaderType,
}

impl Shader {
    /// The object's handle.
    pub closed spec fn spec_id(&self) -> u32 {
        self.id
    }

    /// The stage it was compiled for.
    pub closed spec fn spec_shader_type(&self) -> ShaderType {
        self._type
    }

    /// The shader object `id` of stage `_type`, once its source has been
    /// compiled: `compile_status` is what the compiler reported (zero for
    /// failure), `info_log` what it wrote. A failed compilation gives the log
    /// as the error.
    pub fn from_source(
        id: u32,
        _type: ShaderType,
        compile_status: i32,
        info_log: String,
    ) -> (r: Result<Shader, String>)
        ensures
            compile_status != 0 ==> r is Ok,
            r is Ok ==> r->Ok_0.spec_id() == id && r->Ok_0.spec_shader_type() == _type,
            compile_status == 0 ==> r == Err::<Shader, String>(info_log),
    {
        if compile_status == 0 {
            Err(info_log)
        } else {
            Ok(Shader { id, _type })
        }
    }

    /// The object's handle.
    #[verifier::when_used_as_spec(spec_id)]
    pub fn id(&self) -> (id: u32)
        ensures
            id == self.spec_id(),
    {
        self.id
    }

    /// The stage it was compiled for.
    #[verifier::when_used_as_spec(spec_shader_type)]
    pub fn shader_type(&self) -> (t: ShaderType)
        ensures
            t == self.spec_shader_type(),
    {
        self._type
    }
}

/// A linked program and the uniforms that have been looked up in it.
pub struct Program {
    id: u32,
    uniforms: StringHashMap<i32>,
}

impl Program {
    /// The program's handle.
    pub closed spec fn spec_id(&self) -> u32 {
        self.id
    }

    /// The location of each uniform that has been looked up, by name.
    pub closed spec fn uniforms(&self) -> Map<Seq<char>, i32> {
        self.uniforms@
    }

    /// The error for a uniform that has not been looked up.
    pub open spec fn not_found(name: Seq<char>) -> Seq<char> {
        "Uniform "@ + name + " not found"@
    }

    /// The program `id`, once the shaders attached to it have been linked:
    /// `link_status` is what the linker reported (zero for failure),
    /// `info_log` what it wrote. A failed link gives the log as the error; a
    /// program that linked knows no uniform yet.
    pub fn from_shaders(id: u32, link_status: i32, info_log: String) -> (r: Result<Program, String>)
        ensures
            link_status != 0 ==> r is Ok,
            r is Ok ==> r->Ok_0.spec_id() == id,
            r is Ok ==> r->Ok_0.uniforms() == Map::<Seq<char>, i32>::empty(),
            link_status == 0 ==> r == Err::<Program, String>(info_log),
    {
        if link_status == 0 {
            Err(info_log)
        } else {
            Ok(Program { id, uniforms: StringHashMap::new() })
        }
    }

    /// The program's handle.
    #[verifier::when_used_as_spec(spec_id)]
    pub fn id(&self) -> (id: u32)
        ensures
            id == self.spec_id(),
    {
        self.id
    }

    /// Records that the uniform `name` was found at `location`. A location
    /// recorded earlier under that name is replaced.
    pub fn activate_uniform(&mut self, name: &str, location: i32)
        ensures
            final(self).spec_id() == old(self).spec_id(),
            final(self).uniforms() == old(self).uniforms().insert(name@, location),
    {
        self.uniforms.insert(name.to_owned(), location);
    }

    /// The location recorded for the uniform `name`, or the error that names
    /// it where none was.
    pub fn get_uniform_location(&self, name: &str) -> (r: Result<i32, String>)
        ensures
            self.uniforms().contains_key(name@) ==> r == Ok::<i32, String>(self.uniforms()[name@]),
            !self.uniforms().contains_key(name@) ==> r is Err,
            r is Err ==> r->Err_0@ == Program::not_found(name@),
    {
        match self.uniforms.get(name) {
            Some(location) => Ok(*location),
            None => {
                let mut message = String::from_str("Uniform ");
                message.append(name);
                message.append(" not found");
                Err(message)
            },
        }
    }
}

} // verus!
