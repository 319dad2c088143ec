//! One shader stage: its GPU type, and what to make of a compile status and
//! the compiler's log.

use vstd::prelude::*;

verus! {

/// Bytes of compiler or linker log that are read back from the GPU.
pub const INFO_LOG_CAPACITY: usize = 512;

/// A compiled shader stage, by the handle that the GPU gave it.
#[derive(Clone, Copy, Debug, PartialEq, Eq, Structural)]
pub struct Shader {
    pub shader_id: u32,
}

/// The two programmable stages of the pipeline.
#[derive(Clone, Copy, Debug, PartialEq, Eq, Structural)]
pub enum ShaderType {
    VERTEX,
    FRAGMENT,
}

/// The OpenGL enumerant of a shader stage.
pub open spec fn gl_shader_type(shader_type: ShaderType) -> u32 {
    match shader_type {
        ShaderType::VERTEX => 0x8B31,
        ShaderType::FRAGMENT => 0x8B30,
    }
}

/// Whether a status that the GPU reported for a compile or a link means
/// failure: it is the OpenGL value for "false".
pub open spec fn is_failure(status: i32) -> bool {
    status == 0
}

/// Whether `text` is the message held in `buffer`: the bytes before the
/// first zero byte, or the whole buffer where it holds none.
pub open spec fn is_log_text(text: Seq<u8>, buffer: Seq<u8>) -> bool {
    &&& text.len() <= buffer.len()
    &&& text == buffer.take(text.len() as int)
    &&& forall|i: int| 0 <= i < text.len() ==> #[trigger] text[i] != 0
    &&& text.len() < buffer.len() ==> buffer[text.len() as int] == 0
}

/// `gl::VERTEX_SHADER`, the constant that the `gl` crate generates from the
/// OpenGL registry: 0x8B31.
#[verifier::external_body]
fn gl_vertex_shader() -> (value: u32)
    ensures
        value == 0x8B31,
{
    gl::VERTEX_SHADER
}

/// `gl::FRAGMENT_SHADER`, the constant that the `gl` crate generates from
/// the OpenGL registry: 0x8B30.
#[verifier::external_body]
fn gl_fragment_shader() -> (value: u32)
    ensures
        value == 0x8B30,
{
    gl::FRAGMENT_SHADER
}

/// `gl::FALSE`, the constant that the `gl` crate generates from the OpenGL
/// registry: 0.
#[verifier::external_body]
fn gl_false() -> (value: u8)
    ensures
        value == 0,
{
    gl::FALSE
}

/// Tells whether a compile or link status means failure.
pub fn status_is_failure(status: i32) -> (failed: bool)
    ensures
        failed == is_failure(status),
{
    status == gl_false() as i32
}

/// Extracts the message from a log buffer that the GPU filled: the bytes
/// before the first zero byte.
pub fn info_log_text(buffer: &[u8]) -> (text: Vec<u8>)
    ensures
        is_log_text(text@, buffer@),
{
    let mut text: Vec<u8> = Vec::new();
    let mut i: usize = 0;
    while i < buffer.len() && buffer[i] != 0
        invariant
            i <= buffer.len(),
            text@ == buffer@.take(i as int),
            forall|j: int| 0 <= j < i ==> #[trigger] text@[j] != 0,
        decreases buffer.len() - i,
    {
        text.push(buffer[i]);
        i += 1;
        assert(text@ =~= buffer@.take(i as int));
    }
    text
}

impl Shader {
    pub fn new(shader_id: u32) -> (shader: Shader)
        ensures
            shader.shader_id == shader_id,
    {
        Shader { shader_id }
    }

    pub fn get_gl_shader_type(shader_type: ShaderType) -> (gl_type: u32)
        ensures
            gl_type == gl_shader_type(shader_type),
    {
        match shader_type {
            ShaderType::VERTEX => gl_vertex_shader(),
            ShaderType::FRAGMENT => gl_fragment_shader(),
        }
    }

    /// Judges a finished compile: `None` where it succeeded, and where it
    /// failed the compiler's message, which the caller reports. A failed
    /// compile does not stop the build; the link that follows fails in turn.
    pub fn validate_shader(status: i32, info_log: &[u8]) -> (diagnostic: Option<Vec<u8>>)
        ensures
            !is_failure(status) ==> diagnostic is None,
            is_failure(status) ==> diagnostic is Some && is_log_text(
                diagnostic->Some_0@,
                info_log@,
            ),
    {
        if status_is_failure(status) {
            Some(info_log_text(info_log))
        } else {
            None
        }
    }
}

/// A buffer holds one message only.
pub proof fn lemma_log_text_is_unique(first: Seq<u8>, second: Seq<u8>, buffer: Seq<u8>)
    requires
        is_log_text(first, buffer),
        is_log_text(second, buffer),
    ensures
        first == second,
{
    if first.len() < second.len() {
        assert(second[first.len() as int] == buffer[first.len() as int]);
    } else if second.len() < first.len() {
        assert(first[second.len() as int] == buffer[second.len() as int]);
    }
    assert(first =~= second);
}

} // verus!
