//! The failures the setup pipeline can report, and their diagnostic text.

use vstd::prelude::*;

verus! {

/// A fatal setup failure. Every variant carries (or maps to) a human-readable
/// diagnostic string, the only externally visible error-reporting surface.
#[derive(Debug)]
pub enum RenderError {
    /// The GPU context could not allocate a shader or program object.
    ResourceCreation,
    /// The driver rejected a shader source; carries the compiler diagnostic.
    Compile { log: String },
    /// The driver rejected the program link; carries the linker diagnostic.
    Link { log: String },
    /// The required `a_position` attribute was not found on a linked program.
    MissingAttribute,
}

impl RenderError {
    /// The diagnostic text of this failure.
    pub open spec fn spec_message(self) -> Seq<char> {
        match self {
            RenderError::ResourceCreation => "resource creation failed"@,
            RenderError::Compile { log } => log@,
            RenderError::Link { log } => log@,
            RenderError::MissingAttribute => "required attribute a_position not found"@,
        }
    }

    /// Surfaces the diagnostic string for this failure.
    pub fn message(self) -> (r: String)
        ensures
            r@ == self.spec_message(),
    {
        match self {
            RenderError::ResourceCreation => "resource creation failed".to_owned(),
            RenderError::Compile { log } => log,
            RenderError::Link { log } => log,
            RenderError::MissingAttribute => "required attribute a_position not found".to_owned(),
        }
    }
}

} // verus!
