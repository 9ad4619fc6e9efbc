use vstd::prelude::*;

verus! {

/// Why a metadata request failed. None of these is retried.
#[derive(Clone, Debug, PartialEq, Eq)]
pub enum Error {
    /// The tool could not be started or waited for
    Process(String),
    /// The tool's output was not UTF-8 text
    Encoding,
    /// The tool exited with failure; its diagnostic text, trimmed
    ToolReported(String),
    /// The output was text but not a metadata document of the expected shape
    StructuralDecode(String),
}

impl Error {
    /// A description of the failure.
    pub fn message(&self) -> (r: String)
        ensures
            self is ToolReported ==> r@ == self->ToolReported_0@,
    {
        match self {
            Error::Process(m) => m.clone(),
            Error::Encoding => "the tool's output is not UTF-8 text".to_owned(),
            Error::ToolReported(m) => m.clone(),
            Error::StructuralDecode(m) => m.clone(),
        }
    }
}

} // verus!
