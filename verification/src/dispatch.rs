//! The command dispatcher's decisions: each operation validates its
//! paths, in a fixed order, before anything is written, and the compress
//! operation derives the output filename. The caller queries the
//! filesystem, hands the answers in, and performs the planned work.

use vstd::prelude::*;
use crate::naming::{archive_file_name, archive_name_spec};
use crate::validate::{PathRole, PathStatus, ValidationError, fits_role, validate_path};

verus! {

/// Plans a compress operation: the source must be an existing directory
/// and the destination an existing directory, checked in that order; on
/// success the result is the output filename `<label>-<seconds>.zstd`.
/// No plan is produced for a bad request, so nothing is ever written
/// for one.
pub fn plan_compress(
    label: &str,
    directory: PathStatus,
    destination: PathStatus,
    seconds: u64,
) -> (r: Result<String, ValidationError>)
    ensures
        r is Ok <==> fits_role(directory, PathRole::SourceDirectory) && fits_role(
            destination,
            PathRole::DestinationDirectory,
        ),
        r is Ok ==> r->Ok_0@ == archive_name_spec(label@, seconds as nat),
        !directory.exists ==> r->Err_0 == ValidationError::DoesNotExist,
        directory.exists && !directory.is_dir ==> r->Err_0 == ValidationError::NotADirectory,
        fits_role(directory, PathRole::SourceDirectory) && !destination.exists ==> r->Err_0
            == ValidationError::DoesNotExist,
        fits_role(directory, PathRole::SourceDirectory) && destination.exists
            && !destination.is_dir ==> r->Err_0 == ValidationError::NotADirectory,
{
    match validate_path(directory, PathRole::SourceDirectory) {
        Ok(()) => {},
        Err(e) => {
            return Err(e);
        },
    }
    match validate_path(destination, PathRole::DestinationDirectory) {
        Ok(()) => {},
        Err(e) => {
            return Err(e);
        },
    }
    Ok(archive_file_name(label, seconds))
}

/// Plans a decompress operation: the source must be an existing regular
/// file and the destination an existing directory, checked in that
/// order. No plan is produced for a bad request, so nothing is ever
/// extracted for one.
pub fn plan_decompress(file: PathStatus, destination: PathStatus) -> (r: Result<
    (),
    ValidationError,
>)
    ensures
        r is Ok <==> fits_role(file, PathRole::SourceFile) && fits_role(
            destination,
            PathRole::DestinationDirectory,
        ),
        !file.exists ==> r->Err_0 == ValidationError::DoesNotExist,
        file.exists && !file.is_file ==> r->Err_0 == ValidationError::NotAFile,
        fits_role(file, PathRole::SourceFile) && !destination.exists ==> r->Err_0
            == ValidationError::DoesNotExist,
        fits_role(file, PathRole::SourceFile) && destination.exists && !destination.is_dir
            ==> r->Err_0 == ValidationError::NotADirectory,
{
    match validate_path(file, PathRole::SourceFile) {
        Ok(()) => {},
        Err(e) => {
            return Err(e);
        },
    }
    validate_path(destination, PathRole::DestinationDirectory)
}

} // verus!
