use packdir::{PathRole, PathStatus, ValidationError, plan_compress, plan_decompress, validate_path};

fn missing() -> PathStatus {
    PathStatus { exists: false, is_dir: false, is_file: false }
}

fn dir() -> PathStatus {
    PathStatus { exists: true, is_dir: true, is_file: false }
}

fn file() -> PathStatus {
    PathStatus { exists: true, is_dir: false, is_file: true }
}

#[test]
fn missing_path_is_rejected() {
    let r = validate_path(missing(), PathRole::SourceDirectory);
    assert_eq!(r, Err(ValidationError::DoesNotExist));
}

#[test]
fn file_is_not_a_source_directory() {
    let r = validate_path(file(), PathRole::SourceDirectory);
    assert_eq!(r, Err(ValidationError::NotADirectory));
}

#[test]
fn directory_is_not_a_source_file() {
    let r = validate_path(dir(), PathRole::SourceFile);
    assert_eq!(r, Err(ValidationError::NotAFile));
}

#[test]
fn matching_roles_are_accepted() {
    assert_eq!(validate_path(dir(), PathRole::SourceDirectory), Ok(()));
    assert_eq!(validate_path(file(), PathRole::SourceFile), Ok(()));
    assert_eq!(validate_path(dir(), PathRole::DestinationDirectory), Ok(()));
}

#[test]
fn compress_with_missing_source_plans_nothing() {
    let r = plan_compress("backup", missing(), dir(), 1);
    assert_eq!(r, Err(ValidationError::DoesNotExist));
}

#[test]
fn compress_source_errors_come_before_destination_errors() {
    let r = plan_compress("backup", file(), missing(), 1);
    assert_eq!(r, Err(ValidationError::NotADirectory));
}

#[test]
fn compress_with_file_destination_plans_nothing() {
    let r = plan_compress("backup", dir(), file(), 1);
    assert_eq!(r, Err(ValidationError::NotADirectory));
}

#[test]
fn compress_plan_yields_the_filename() {
    let r = plan_compress("backup", dir(), dir(), 1700000000);
    assert_eq!(r, Ok(String::from("backup-1700000000.zstd")));
}

#[test]
fn decompress_with_file_destination_plans_nothing() {
    let r = plan_decompress(file(), file());
    assert_eq!(r, Err(ValidationError::NotADirectory));
}

#[test]
fn decompress_with_missing_archive_plans_nothing() {
    let r = plan_decompress(missing(), dir());
    assert_eq!(r, Err(ValidationError::DoesNotExist));
}

#[test]
fn decompress_with_directory_archive_plans_nothing() {
    let r = plan_decompress(dir(), dir());
    assert_eq!(r, Err(ValidationError::NotAFile));
}

#[test]
fn decompress_plan_accepts_good_paths() {
    assert_eq!(plan_decompress(file(), dir()), Ok(()));
}

#[test]
fn rejection_reasons_are_worded() {
    assert_eq!(ValidationError::DoesNotExist.reason(), "does not exist");
    assert_eq!(ValidationError::NotADirectory.reason(), "is not a directory");
    assert_eq!(ValidationError::NotAFile.reason(), "is not a file");
}
