use vstd::prelude::*;
use vstd::string::*;

verus! {

/// The kind of failure a library call can report.
#[derive(Debug, Clone, Copy, PartialEq, Eq, Structural)]
pub enum ErrorKind {
    /// A malformed operator symbol was handed to the parser.
    InvalidInput,
    /// Problem generation failed, e.g. because the operation set was empty.
    ProblemGeneration,
    /// The candidate set for a division problem could not be built.
    ProblemGenerationDivision,
}

/// The name of an error kind, as it reads in an error's display form.
pub open spec fn kind_name(k: ErrorKind) -> Seq<char> {
    match k {
        ErrorKind::InvalidInput => "InvalidInput"@,
        ErrorKind::ProblemGeneration => "ProblemGeneration"@,
        ErrorKind::ProblemGenerationDivision => "ProblemGenerationDivision"@,
    }
}

impl ErrorKind {
    /// The kind's name, as a string slice.
    pub fn name(&self) -> (s: &'static str)
        ensures
            s@ == kind_name(*self),
    {
        match self {
            ErrorKind::InvalidInput => "InvalidInput",
            ErrorKind::ProblemGeneration => "ProblemGeneration",
            ErrorKind::ProblemGenerationDivision => "ProblemGenerationDivision",
        }
    }
}

/// An error raised by the library: a kind plus a human-readable message.
#[derive(Debug)]
pub struct LibError {
    pub kind: ErrorKind,
    pub message: String,
}

/// The display form of an error: its kind's name and its message.
pub open spec fn error_display(e: LibError) -> Seq<char> {
    "Encountered an error: { kind: "@ + kind_name(e.kind) + ", message: "@ + e.message@ + " }"@
}

impl LibError {
    /// Render the error in its display form, e.g.
    /// `"Encountered an error: { kind: InvalidInput, message: ... }"`.
    pub fn to_display_string(&self) -> (s: String)
        ensures
            s@ == error_display(*self),
    {
        let mut s = String::from_str("Encountered an error: { kind: ");
        s.append(self.kind.name());
        s.append(", message: ");
        s.append(self.message.as_str());
        s.append(" }");
        proof {
            assert(s@ =~= error_display(*self));
        }
        s
    }
}

} // verus!
