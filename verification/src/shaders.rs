//! Shaders: precompiled SPIR-V binaries tagged with the stage that they serve.

use vstd::prelude::*;

verus! {

/// The pipeline stage that a shader serves.
#[derive(Clone, Copy, PartialEq, Eq, Structural, Debug)]
pub enum ShaderType {
    Vertex,
    Fragment,
}

/// A shader ready to be handed to the driver: SPIR-V words and the stage.
#[derive(Clone, PartialEq, Eq, Debug)]
pub struct Shader {
    pub data: Vec<u32>,
    pub shader_type: ShaderType,
}

/// Why no shader could be had.
#[derive(Clone, Copy, PartialEq, Eq, Structural, Debug)]
pub enum ShaderError {
    /// The binary is missing or is no SPIR-V.
    CouldNotLoad,
    /// The source file could not be opened.
    CouldNotOpenSource,
    /// The source file is no text.
    CouldNotReadSource,
}

impl ShaderError {
    pub fn message(&self) -> (r: String)
        ensures
            r@ == match *self {
                ShaderError::CouldNotLoad => "Could not load shader!"@,
                ShaderError::CouldNotOpenSource => "Could not open shader source file!"@,
                ShaderError::CouldNotReadSource => "Could not read shader source!"@,
            },
    {
        match self {
            ShaderError::CouldNotLoad => "Could not load shader!".to_owned(),
            ShaderError::CouldNotOpenSource => "Could not open shader source file!".to_owned(),
            ShaderError::CouldNotReadSource => "Could not read shader source!".to_owned(),
        }
    }
}

/// The bytes begin with the SPIR-V magic number, least significant byte first.
pub open spec fn has_little_endian_magic(bytes: Seq<u8>) -> bool {
    &&& bytes.len() >= 4
    &&& bytes[0] == 0x03
    &&& bytes[1] == 0x02
    &&& bytes[2] == 0x23
    &&& bytes[3] == 0x07
}

/// The bytes begin with the SPIR-V magic number, most significant byte first.
pub open spec fn has_big_endian_magic(bytes: Seq<u8>) -> bool {
    &&& bytes.len() >= 4
    &&& bytes[0] == 0x07
    &&& bytes[1] == 0x23
    &&& bytes[2] == 0x02
    &&& bytes[3] == 0x03
}

/// The bytes are a SPIR-V binary: whole words, of which the first is the magic
/// number in one of the two byte orders.
pub open spec fn is_spirv(bytes: Seq<u8>) -> bool {
    &&& bytes.len() % 4 == 0
    &&& has_little_endian_magic(bytes) || has_big_endian_magic(bytes)
}

/// Word `i` of the bytes, least significant byte first.
pub open spec fn little_endian_word(bytes: Seq<u8>, i: int) -> u32 {
    (bytes[4 * i] as u32) | ((bytes[4 * i + 1] as u32) << 8) | ((bytes[4 * i + 2] as u32) << 16)
        | ((bytes[4 * i + 3] as u32) << 24)
}

/// Word `i` of the bytes, most significant byte first.
pub open spec fn big_endian_word(bytes: Seq<u8>, i: int) -> u32 {
    (bytes[4 * i + 3] as u32) | ((bytes[4 * i + 2] as u32) << 8) | ((bytes[4 * i + 1] as u32)
        << 16) | ((bytes[4 * i] as u32) << 24)
}

/// The words of a SPIR-V binary, read in the byte order that its magic number shows.
pub open spec fn spirv_words(bytes: Seq<u8>) -> Seq<u32> {
    Seq::new(
        (bytes.len() / 4) as nat,
        |i: int|
            if has_little_endian_magic(bytes) {
                little_endian_word(bytes, i)
            } else {
                big_endian_word(bytes, i)
            },
    )
}

/// `ash::util::read_spv` on the bytes of a file held in memory. As its source
/// shows, it accepts input of a positive multiple of four bytes whose first word is
/// the SPIR-V magic number in either byte order, and returns the words in the
/// order in which the magic number reads right; every other input is an error.
#[verifier::external_body]
fn read_spv(bytes: &Vec<u8>) -> (r: Option<Vec<u32>>)
    ensures
        r is Some <==> is_spirv(bytes@),
        r matches Some(words) ==> words@ == spirv_words(bytes@),
{
    ash::util::read_spv(&mut std::io::Cursor::new(bytes.as_slice())).ok()
}

/// Makes a shader of the contents of a compiled shader file; `None` stands for a
/// file that could not be read.
pub fn load_shader(contents: Option<&Vec<u8>>, shader_type: ShaderType) -> (r: Result<
    Shader,
    ShaderError,
>)
    ensures
        r is Ok <==> contents is Some && is_spirv(contents->0@),
        r matches Ok(shader) ==> shader.data@ == spirv_words(contents->0@) && shader.shader_type
            == shader_type,
        r matches Err(e) ==> e == ShaderError::CouldNotLoad,
{
    match contents {
        Some(bytes) => match read_spv(bytes) {
            Some(data) => Ok(Shader { data, shader_type }),
            None => Err(ShaderError::CouldNotLoad),
        },
        None => Err(ShaderError::CouldNotLoad),
    }
}

/// What to do to get a shader: it has been loaded, or its source must be compiled.
#[derive(Clone, PartialEq, Eq, Debug)]
pub enum ShaderStep {
    Loaded(Shader),
    Compile,
}

/// Decides between the compiled file and the source: a compiled file that holds
/// SPIR-V is taken as it is; otherwise the source has to be compiled (and the
/// result written where the compiled file was looked for).
pub fn load_or_compile_shader(compiled: Option<&Vec<u8>>, shader_type: ShaderType) -> (r:
    ShaderStep)
    ensures
        r is Loaded <==> compiled is Some && is_spirv(compiled->0@),
        r matches ShaderStep::Loaded(shader) ==> shader.data@ == spirv_words(compiled->0@)
            && shader.shader_type == shader_type,
{
    match load_shader(compiled, shader_type) {
        Ok(shader) => ShaderStep::Loaded(shader),
        Err(_) => ShaderStep::Compile,
    }
}

/// What came of reading a shader's source file.
#[derive(Clone, PartialEq, Eq, Debug)]
pub enum SourceFile {
    /// The file could not be opened.
    Missing,
    /// The file was opened, but its contents are no text.
    Unreadable,
    Text(String),
}

/// One run of the shader compiler.
#[derive(Clone, PartialEq, Eq, Debug)]
pub struct CompileJob {
    pub source: String,
    pub shader_type: ShaderType,
    pub entry_point: String,
}

/// Prepares the compilation of a shader's source, with `main` as its entry point.
pub fn compile_shader(source: SourceFile, shader_type: ShaderType) -> (r: Result<
    CompileJob,
    ShaderError,
>)
    ensures
        match source {
            SourceFile::Missing => r == Err::<CompileJob, ShaderError>(
                ShaderError::CouldNotOpenSource,
            ),
            SourceFile::Unreadable => r == Err::<CompileJob, ShaderError>(
                ShaderError::CouldNotReadSource,
            ),
            SourceFile::Text(text) => r matches Ok(job) && job.source == text && job.shader_type
                == shader_type && job.entry_point@ == "main"@,
        },
{
    match source {
        SourceFile::Missing => Err(ShaderError::CouldNotOpenSource),
        SourceFile::Unreadable => Err(ShaderError::CouldNotReadSource),
        SourceFile::Text(text) => Ok(
            CompileJob { source: text, shader_type, entry_point: "main".to_owned() },
        ),
    }
}

} // verus!
