use vstd::prelude::*;

verus! {

/// The fatal errors of a command, and the rejection of a path that would
/// leave the output root. Causes reported by the archive library or the
/// host system are carried as their rendered messages.
#[derive(Debug)]
pub enum ToolError {
    FileOpenError { path: String, cause: String },
    MpqOpenError { cause: String },
    MpqReadFileError { cause: String },
    ListfileNotFound,
    OutDirCreationError { path: String, cause: String },
    InvalidPattern { cause: String },
    PathEscape { path: String },
}

impl ToolError {
    /// The path that a `PathEscape` error rejected.
    pub open spec fn escaped_path(self) -> Option<Seq<char>> {
        match self {
            ToolError::PathEscape { path } => Some(path@),
            _ => None,
        }
    }
}

} // verus!
