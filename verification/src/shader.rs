//! Shader modules and their builder.
//!
//! A shader is made from SPIR-V bytecode, from a SPIR-V file, or from GLSL source code
//! compiled to SPIR-V; its entry point name is kept null-terminated.

use vstd::prelude::*;
use crate::flags::Handle;
use vstd::string::StringSliceAdditionalSpecFns;

verus! {

/// Errors while making a shader
#[derive(Debug, Clone, Copy, PartialEq, Eq, Structural)]
pub enum ShaderError {
    InvalidFile,
    BytecodeRead,
    ShaderCreation,
    Shaderc,
    Compiling,
    NullTerminate,
}

/// Text that describes `e`.
pub open spec fn shader_error_text(e: ShaderError) -> Seq<char> {
    match e {
        ShaderError::InvalidFile => "Failed to open file"@,
        ShaderError::BytecodeRead => "Failed to read from file"@,
        ShaderError::ShaderCreation => "Failed to create shader (vkCreateShaderModule call failed)"@,
        ShaderError::Shaderc => "Failed to create compiler (internal shaderc library error)"@,
        ShaderError::Compiling => "Failed to compile shader source code"@,
        ShaderError::NullTerminate => "Failed to null terminate shader entry name"@,
    }
}

impl ShaderError {
    /// Human readable description of the error
    pub fn message(&self) -> (r: &'static str)
        ensures
            r@ == shader_error_text(*self),
    {
        match self {
            ShaderError::InvalidFile => "Failed to open file",
            ShaderError::BytecodeRead => "Failed to read from file",
            ShaderError::ShaderCreation => "Failed to create shader (vkCreateShaderModule call failed)",
            ShaderError::Shaderc => "Failed to create compiler (internal shaderc library error)",
            ShaderError::Compiling => "Failed to compile shader source code",
            ShaderError::NullTerminate => "Failed to null terminate shader entry name",
        }
    }
}

/// Kind of shader that GLSL source code is compiled as
#[derive(Debug, Clone, Copy, PartialEq, Eq, Structural)]
pub enum Kind {
    Vertex,
    Fragment,
    Compute,
    Geometry,
    TessControl,
    TessEvaluation,
    InferFromSource,
    DefaultVertex,
    DefaultFragment,
    DefaultCompute,
    DefaultGeometry,
    DefaultTessControl,
    DefaultTessEvaluation,
    SpirvAssembly,
    RayGeneration,
    AnyHit,
    ClosestHit,
    Miss,
    Intersection,
    Callable,
    DefaultRayGeneration,
    DefaultAnyHit,
    DefaultClosestHit,
    DefaultMiss,
    DefaultIntersection,
    DefaultCallable,
    Task,
    Mesh,
    DefaultTask,
    DefaultMesh,
}

/// Where a shader of the old resource interface is read from
#[derive(Debug, Clone, Copy)]
pub struct ShaderType<'a> {
    pub path: &'a str,
    pub entry: &'a str,
}

/// Entry name made null-terminated: its bytes and a zero byte.
pub open spec fn spec_null_terminated(entry: Seq<u8>) -> Seq<u8> {
    entry.push(0u8)
}

/// Null-terminated copy of `entry`; an entry that holds a zero byte cannot be terminated.
pub fn null_terminated(entry: &str) -> (r: Result<Vec<u8>, ShaderError>)
    ensures
        match r {
            Ok(bytes) => !entry.spec_bytes().contains(0u8) && bytes@ == spec_null_terminated(entry.spec_bytes()),
            Err(e) => entry.spec_bytes().contains(0u8) && e == ShaderError::NullTerminate,
        },
{
    let bytes = entry.as_bytes();
    let mut r: Vec<u8> = Vec::new();
    let n = bytes.len();
    let mut i: usize = 0;
    while i < n
        invariant
            n == bytes@.len(),
            bytes@ == entry.spec_bytes(),
            0 <= i <= n,
            r@ == bytes@.subrange(0, i as int),
            forall|k: int| 0 <= k < i ==> bytes@[k] != 0u8,
        decreases n - i,
    {
        if bytes[i] == 0 {
            assert(bytes@[i as int] == 0u8);
            return Err(ShaderError::NullTerminate);
        }
        r.push(bytes[i]);
        i = i + 1;
        assert(r@ =~= bytes@.subrange(0, i as int));
    }
    assert(bytes@.subrange(0, n as int) =~= bytes@);
    assert(!bytes@.contains(0u8)) by {
        if bytes@.contains(0u8) {
            let k = choose|k: int| 0 <= k < bytes@.len() && bytes@[k] == 0u8;
            assert(bytes@[k] != 0u8);
        }
    }
    r.push(0);
    Ok(r)
}

/// Shader builder: where the shader comes from, its kind and its entry point
#[derive(Debug, Clone, Copy)]
pub struct ShaderBuilder<'a> {
    path: &'a str,
    entry: &'a str,
    bytecode: &'a [u32],
    glsl_src: &'a str,
    kind: Kind,
}

impl<'a> ShaderBuilder<'a> {
    pub closed spec fn spec_path(&self) -> &'a str { self.path }
    pub closed spec fn spec_entry(&self) -> &'a str { self.entry }
    pub closed spec fn spec_bytecode(&self) -> &'a [u32] { self.bytecode }
    pub closed spec fn spec_glsl_src(&self) -> &'a str { self.glsl_src }
    pub closed spec fn spec_kind(&self) -> Kind { self.kind }

    /// Builder with path `"default_path"`, entry `"main"`, no bytecode, no source and the
    /// vertex kind
    pub fn new() -> (r: ShaderBuilder<'a>)
        ensures
            r.spec_path() == "default_path",
            r.spec_entry() == "main",
            r.spec_bytecode()@.len() == 0,
            r.spec_glsl_src() == "",
            r.spec_kind() == Kind::Vertex,
    {
        ShaderBuilder { path: "default_path", entry: "main", bytecode: &[], glsl_src: "", kind: Kind::Vertex }
    }

    /// Path of a SPIR-V or GLSL file
    pub fn path(self, new_path: &'a str) -> (r: ShaderBuilder<'a>)
        ensures
            r.spec_path() == new_path,
            r.spec_entry() == self.spec_entry(),
            r.spec_bytecode() == self.spec_bytecode(),
            r.spec_glsl_src() == self.spec_glsl_src(),
            r.spec_kind() == self.spec_kind(),
    {
        ShaderBuilder { path: new_path, ..self }
    }

    /// SPIR-V bytecode
    pub fn bytecode(self, new_bytecode: &'a [u32]) -> (r: ShaderBuilder<'a>)
        ensures
            r.spec_path() == self.spec_path(),
            r.spec_entry() == self.spec_entry(),
            r.spec_bytecode() == new_bytecode,
            r.spec_glsl_src() == self.spec_glsl_src(),
            r.spec_kind() == self.spec_kind(),
    {
        ShaderBuilder { bytecode: new_bytecode, ..self }
    }

    /// Kind GLSL source is compiled as
    pub fn shader_type(self, shader_type: Kind) -> (r: ShaderBuilder<'a>)
        ensures
            r.spec_path() == self.spec_path(),
            r.spec_entry() == self.spec_entry(),
            r.spec_bytecode() == self.spec_bytecode(),
            r.spec_glsl_src() == self.spec_glsl_src(),
            r.spec_kind() == shader_type,
    {
        ShaderBuilder { kind: shader_type, ..self }
    }

    /// GLSL source code
    pub fn glsl_src(self, src: &'a str) -> (r: ShaderBuilder<'a>)
        ensures
            r.spec_path() == self.spec_path(),
            r.spec_entry() == self.spec_entry(),
            r.spec_bytecode() == self.spec_bytecode(),
            r.spec_glsl_src() == src,
            r.spec_kind() == self.spec_kind(),
    {
        ShaderBuilder { glsl_src: src, ..self }
    }

    /// Name of the entry point
    pub fn entry(self, new_entry: &'a str) -> (r: ShaderBuilder<'a>)
        ensures
            r.spec_path() == self.spec_path(),
            r.spec_entry() == new_entry,
            r.spec_bytecode() == self.spec_bytecode(),
            r.spec_glsl_src() == self.spec_glsl_src(),
            r.spec_kind() == self.spec_kind(),
    {
        ShaderBuilder { entry: new_entry, ..self }
    }

    /// Path of the builder
    pub fn get_path(&self) -> (r: &'a str)
        ensures
            r == self.spec_path(),
    {
        self.path
    }

    /// Entry point name of the builder
    pub fn get_entry(&self) -> (r: &'a str)
        ensures
            r == self.spec_entry(),
    {
        self.entry
    }

    /// Bytecode of the builder
    pub fn get_bytecode(&self) -> (r: &'a [u32])
        ensures
            r == self.spec_bytecode(),
    {
        self.bytecode
    }

    /// GLSL source of the builder
    pub fn get_glsl_src(&self) -> (r: &'a str)
        ensures
            r == self.spec_glsl_src(),
    {
        self.glsl_src
    }

    /// Kind of the builder
    pub fn get_kind(&self) -> (r: Kind)
        ensures
            r == self.spec_kind(),
    {
        self.kind
    }

    /// Size of the bytecode in bytes
    pub fn code_size(&self) -> (r: usize)
        requires
            self.spec_bytecode()@.len() * 4 <= usize::MAX,
        ensures
            r == self.spec_bytecode()@.len() * 4,
    {
        self.bytecode.len() * 4
    }

    /// Shader made of module `module`, created from the bytecode, and the entry point of the
    /// builder
    pub fn from_bytecode(&self, module: Handle) -> (r: Result<Shader, ShaderError>)
        ensures
            match r {
                Ok(shader) => !self.spec_entry().spec_bytes().contains(0u8)
                    && shader.spec_module() == module
                    && shader.spec_entry() == spec_null_terminated(self.spec_entry().spec_bytes()),
                Err(e) => self.spec_entry().spec_bytes().contains(0u8) && e == ShaderError::NullTerminate,
            },
    {
        match null_terminated(self.entry) {
            Ok(entry) => Ok(Shader { i_module: module, i_entry: entry }),
            Err(e) => Err(e),
        }
    }
}

/// Bytecode that GLSL compilation produced; empty bytecode is a failed compilation
pub fn compiled(binary: &[u32]) -> (r: Result<&[u32], ShaderError>)
    ensures
        match r {
            Ok(b) => binary@.len() > 0 && b@ == binary@,
            Err(e) => binary@.len() == 0 && e == ShaderError::Compiling,
        },
{
    if binary.len() == 0 { Err(ShaderError::Compiling) } else { Ok(binary) }
}

/// A shader module and the null-terminated name of its entry point
#[derive(Debug)]
pub struct Shader {
    i_module: Handle,
    i_entry: Vec<u8>,
}

impl Shader {
    pub closed spec fn spec_module(&self) -> Handle { self.i_module }
    pub closed spec fn spec_entry(&self) -> Seq<u8> { self.i_entry@ }

    /// Null-terminated name of the entry point
    pub fn entry(&self) -> (r: &[u8])
        ensures
            r@ == self.spec_entry(),
    {
        self.i_entry.as_slice()
    }

    /// Shader module handle
    pub fn module(&self) -> (r: Handle)
        ensures
            r == self.spec_module(),
    {
        self.i_module
    }
}

} // verus!
