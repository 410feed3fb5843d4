//! Classification of the driver's link report, resolution of the required
//! vertex attribute, and the law that a clean set of reports yields a usable
//! program.

use vstd::prelude::*;

use crate::error::RenderError;
use crate::shader::compile_accepted;
use crate::shader::spec_diagnostic;

verus! {

/// Whether the driver's link report amounts to an executable program: the
/// program object was created and the link status query came back true.
pub open spec fn link_accepted(created: bool, status: bool) -> bool {
    created && status
}

/// The diagnostic carried by a `Link` error for a given driver log.
pub open spec fn spec_link_diagnostic(log: Option<String>) -> Seq<char> {
    spec_diagnostic(log, "Unknown error creating program object"@)
}

/// Classifies a link attempt from the driver's reports: `created` says
/// whether the program object could be allocated, `status` is the link status
/// query, and `log` is the driver's info log (queried on failure). Success is
/// owed exactly when the object exists and linked.
pub fn link_outcome(created: bool, status: bool, log: Option<String>) -> (r: Result<
    (),
    RenderError,
>)
    ensures
        r is Ok <==> link_accepted(created, status),
        !created ==> r == Err::<(), RenderError>(RenderError::ResourceCreation),
        created && !status ==> (r matches Err(RenderError::Link { log: d }) && d@
            == spec_link_diagnostic(log) && d@.len() > 0),
{
    if !created {
        Err(RenderError::ResourceCreation)
    } else if status {
        Ok(())
    } else {
        proof {
            reveal_strlit("Unknown error creating program object");
        }
        let d = crate::shader::diagnostic_or(log, "Unknown error creating program object");
        Err(RenderError::Link { log: d })
    }
}

/// Whether a by-name attribute lookup found the attribute: the driver answers
/// with a non-negative location index.
pub open spec fn attribute_found(location: i32) -> bool {
    location >= 0
}

/// Validates the driver's answer to the `a_position` lookup. A non-negative
/// answer is the attribute's location; a negative one means the linked
/// program exposes no such attribute, which is fatal. Absent *uniform*
/// locations, by contrast, are tolerated and merely skipped when the frame
/// plan is built.
pub fn resolve_attribute(location: i32) -> (r: Result<u32, RenderError>)
    ensures
        attribute_found(location) ==> r == Ok::<u32, RenderError>(location as u32),
        !attribute_found(location) ==> r == Err::<u32, RenderError>(RenderError::MissingAttribute),
{
    if location >= 0 {
        Ok(location as u32)
    } else {
        Err(RenderError::MissingAttribute)
    }
}

/// Law: when the driver accepts both stages, accepts the link, and answers
/// the `a_position` lookup with a non-negative location, every step of the
/// setup pipeline succeeds: both compiles are accepted, the link is accepted,
/// and the attribute resolves.
pub proof fn lemma_clean_reports_yield_program(
    vertex_created: bool,
    vertex_status: bool,
    fragment_created: bool,
    fragment_status: bool,
    program_created: bool,
    program_status: bool,
    attribute_location: i32,
)
    requires
        vertex_created && vertex_status,
        fragment_created && fragment_status,
        program_created && program_status,
        attribute_location >= 0,
    ensures
        compile_accepted(vertex_created, vertex_status),
        compile_accepted(fragment_created, fragment_status),
        link_accepted(program_created, program_status),
        attribute_found(attribute_location),
{
}

} // verus!
