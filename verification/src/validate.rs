//! Path validation: every operation checks its paths before any output
//! is produced, so that a bad request never creates a partial artifact.

use vstd::prelude::*;

verus! {

/// What the filesystem reports about a path: whether it exists, and
/// whether it is a directory or a regular file. The caller queries the
/// filesystem and hands the answers in as plain values.
#[derive(Clone, Copy, PartialEq, Eq, Structural, Debug)]
pub struct PathStatus {
    pub exists: bool,
    pub is_dir: bool,
    pub is_file: bool,
}

/// The role a path is expected to play in an operation.
#[derive(Clone, Copy, PartialEq, Eq, Structural, Debug)]
pub enum PathRole {
    /// The directory to be compressed.
    SourceDirectory,
    /// The archive file to be decompressed.
    SourceFile,
    /// The directory that receives the archive or the extracted tree.
    DestinationDirectory,
}

/// Why a path was rejected before the operation began.
#[derive(Clone, Copy, PartialEq, Eq, Structural, Debug)]
pub enum ValidationError {
    /// The path does not exist.
    DoesNotExist,
    /// The path exists but is not a directory.
    NotADirectory,
    /// The path exists but is not a regular file.
    NotAFile,
}

impl ValidationError {
    /// The human-readable reason for the rejection.
    pub fn reason(&self) -> (r: &'static str)
        ensures
            *self is DoesNotExist ==> r@ == "does not exist"@,
            *self is NotADirectory ==> r@ == "is not a directory"@,
            *self is NotAFile ==> r@ == "is not a file"@,
    {
        match self {
            ValidationError::DoesNotExist => "does not exist",
            ValidationError::NotADirectory => "is not a directory",
            ValidationError::NotAFile => "is not a file",
        }
    }
}

/// Whether a path's status fits a role: the path must exist, and a
/// source file must be a regular file while either directory role must
/// be a directory.
pub open spec fn fits_role(status: PathStatus, role: PathRole) -> bool {
    status.exists && match role {
        PathRole::SourceFile => status.is_file,
        PathRole::SourceDirectory => status.is_dir,
        PathRole::DestinationDirectory => status.is_dir,
    }
}

/// Accepts a path only if it exists and has the type its role expects.
/// The existence check comes first, so a missing path is reported as
/// missing rather than as the wrong type.
pub fn validate_path(status: PathStatus, role: PathRole) -> (r: Result<(), ValidationError>)
    ensures
        r is Ok <==> fits_role(status, role),
        !status.exists ==> r == Result::<(), ValidationError>::Err(ValidationError::DoesNotExist),
        status.exists && role is SourceFile && !status.is_file ==> r == Result::<
            (),
            ValidationError,
        >::Err(ValidationError::NotAFile),
        status.exists && !(role is SourceFile) && !status.is_dir ==> r == Result::<
            (),
            ValidationError,
        >::Err(ValidationError::NotADirectory),
{
    if !status.exists {
        Err(ValidationError::DoesNotExist)
    } else {
        match role {
            PathRole::SourceFile => {
                if !status.is_file {
                    Err(ValidationError::NotAFile)
                } else {
                    Ok(())
                }
            },
            _ => {
                if !status.is_dir {
                    Err(ValidationError::NotADirectory)
                } else {
                    Ok(())
                }
            },
        }
    }
}

} // verus!
