//! Shader stages, the embedded shader sources, and the classification of a
//! driver's compile report into success or a diagnostic error.

use vstd::prelude::*;

use crate::error::RenderError;

verus! {

/// The two programmable pipeline stages.
#[derive(Clone, Copy, PartialEq, Eq, Structural, Debug)]
pub enum ShaderStage {
    Vertex,
    Fragment,
}

/// The vertex stage source. It declares the `a_position` input and the
/// `u_resolution` and `u_translation` uniforms, and maps pixel coordinates to
/// clip space via `clip = ((position + translation) / resolution * 2 - 1) * (1, -1)`.
pub open spec fn spec_vertex_shader_source() -> Seq<char> {
    "#version 300 es
in vec2 a_position;
uniform vec2 u_resolution;
uniform vec2 u_translation;
void main() {
  vec2 position = a_position + u_translation;
  vec2 zeroToOne = position / u_resolution;
  vec2 zeroToTwo = zeroToOne * 2.0;
  vec2 clipSpace = zeroToTwo - 1.0;
  gl_Position = vec4(clipSpace * vec2(1, -1), 0, 1);
}
"@
}

/// The fragment stage source. It declares the `u_color` uniform and a single
/// color output that every fragment is filled with.
pub open spec fn spec_fragment_shader_source() -> Seq<char> {
    "#version 300 es
precision highp float;
uniform vec4 u_color;
out vec4 outColor;
void main() {
  outColor = u_color;
}
"@
}

/// Hands out the embedded vertex stage source, non-empty and character for
/// character the text that `spec_vertex_shader_source` states.
pub fn vertex_shader_source() -> (r: &'static str)
    ensures
        r@ == spec_vertex_shader_source(),
        r@.len() > 0,
{
    proof {
        reveal_strlit("#version 300 es
in vec2 a_position;
uniform vec2 u_resolution;
uniform vec2 u_translation;
void main() {
  vec2 position = a_position + u_translation;
  vec2 zeroToOne = position / u_resolution;
  vec2 zeroToTwo = zeroToOne * 2.0;
  vec2 clipSpace = zeroToTwo - 1.0;
  gl_Position = vec4(clipSpace * vec2(1, -1), 0, 1);
}
");
    }
    "#version 300 es
in vec2 a_position;
uniform vec2 u_resolution;
uniform vec2 u_translation;
void main() {
  vec2 position = a_position + u_translation;
  vec2 zeroToOne = position / u_resolution;
  vec2 zeroToTwo = zeroToOne * 2.0;
  vec2 clipSpace = zeroToTwo - 1.0;
  gl_Position = vec4(clipSpace * vec2(1, -1), 0, 1);
}
"
}

/// Hands out the embedded fragment stage source, non-empty and character for
/// character the text that `spec_fragment_shader_source` states.
pub fn fragment_shader_source() -> (r: &'static str)
    ensures
        r@ == spec_fragment_shader_source(),
        r@.len() > 0,
{
    proof {
        reveal_strlit("#version 300 es
precision highp float;
uniform vec4 u_color;
out vec4 outColor;
void main() {
  outColor = u_color;
}
");
    }
    "#version 300 es
precision highp float;
uniform vec4 u_color;
out vec4 outColor;
void main() {
  outColor = u_color;
}
"
}

/// Whether a stage's driver report amounts to a usable shader object:
/// the object was created and the compile status query came back true.
pub open spec fn compile_accepted(created: bool, status: bool) -> bool {
    created && status
}

/// The diagnostic that accompanies a rejection: the driver's log where it
/// provided a non-empty one, the given fallback otherwise.
pub open spec fn spec_diagnostic(log: Option<String>, fallback: Seq<char>) -> Seq<char> {
    match log {
        Some(l) => if l@.len() > 0 {
            l@
        } else {
            fallback
        },
        None => fallback,
    }
}

/// The diagnostic carried by a `Compile` error for a given driver log.
pub open spec fn spec_compile_diagnostic(log: Option<String>) -> Seq<char> {
    spec_diagnostic(log, "Unknown error creating shader"@)
}

/// Picks the driver's log where it is non-empty, the fallback otherwise.
pub(crate) fn diagnostic_or(log: Option<String>, fallback: &str) -> (r: String)
    requires
        fallback@.len() > 0,
    ensures
        r@ == spec_diagnostic(log, fallback@),
        r@.len() > 0,
{
    match log {
        Some(l) => {
            if l.as_str().is_empty() {
                fallback.to_owned()
            } else {
                l
            }
        },
        None => fallback.to_owned(),
    }
}

/// Classifies one stage's compile attempt from the driver's reports:
/// `created` says whether the shader object could be allocated, `status` is
/// the compile status query, and `log` is the driver's info log (queried on
/// failure). Success is owed exactly when the object exists and compiled.
pub fn compile_outcome(created: bool, status: bool, log: Option<String>) -> (r: Result<
    (),
    RenderError,
>)
    ensures
        r is Ok <==> compile_accepted(created, status),
        !created ==> r == Err::<(), RenderError>(RenderError::ResourceCreation),
        created && !status ==> (r matches Err(RenderError::Compile { log: d })
            && d@ == spec_compile_diagnostic(log) && d@.len() > 0),
{
    if !created {
        Err(RenderError::ResourceCreation)
    } else if status {
        Ok(())
    } else {
        proof {
            reveal_strlit("Unknown error creating shader");
        }
        let d = diagnostic_or(log, "Unknown error creating shader");
        Err(RenderError::Compile { log: d })
    }
}

} // verus!
