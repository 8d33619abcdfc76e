use vstd::prelude::*;

verus! {

/// Why resolving, classifying or probing a tool failed.
///
/// Each variant carries what a caller needs for an actionable diagnostic.
#[derive(Clone, Debug)]
pub enum Error {
    /// The requested executable could not be located or started.
    ToolNotFound { requested: String, search_path: Option<String>, reason: String },
    /// The family-detection probe produced no recognizable answer.
    ClassificationFailed { tool: String, output: String },
    /// A compiler-selection override names no compiler that can be found.
    OverrideParseFailed { value: String },
    /// A flag-support trial could not be run at all.
    ProbeInfrastructureFailed { tool: String, flag: String, reason: String },
}

impl Error {
    /// The kind of failure, without its context.
    pub fn kind(&self) -> (r: ErrorKind)
        ensures
            r == self.spec_kind(),
    {
        match self {
            Error::ToolNotFound { .. } => ErrorKind::ToolNotFound,
            Error::ClassificationFailed { .. } => ErrorKind::ClassificationFailed,
            Error::OverrideParseFailed { .. } => ErrorKind::OverrideParseFailed,
            Error::ProbeInfrastructureFailed { .. } => ErrorKind::ProbeInfrastructureFailed,
        }
    }

    pub open spec fn spec_kind(&self) -> ErrorKind {
        match self {
            Error::ToolNotFound { .. } => ErrorKind::ToolNotFound,
            Error::ClassificationFailed { .. } => ErrorKind::ClassificationFailed,
            Error::OverrideParseFailed { .. } => ErrorKind::OverrideParseFailed,
            Error::ProbeInfrastructureFailed { .. } => ErrorKind::ProbeInfrastructureFailed,
        }
    }
}

/// The kinds of [`Error`].
#[derive(Clone, Copy, Debug, PartialEq, Eq, Structural)]
pub enum ErrorKind {
    ToolNotFound,
    ClassificationFailed,
    OverrideParseFailed,
    ProbeInfrastructureFailed,
}

} // verus!
