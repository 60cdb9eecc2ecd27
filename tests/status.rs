use api::status::{status_from_exit_code, Status};

#[test]
fn exit_codes_map_to_statuses() {
    let f = Status::CompilationFailed;
    assert_eq!(status_from_exit_code(Some(0), f), Status::Success);
    assert_eq!(status_from_exit_code(Some(1), f), Status::CompilationFailed);
    assert_eq!(status_from_exit_code(Some(127), f), Status::CompilationFailed);
    assert_eq!(status_from_exit_code(None, f), Status::UnknownError);
    assert_eq!(status_from_exit_code(Some(-1), Status::ScarbBuildFailed), Status::ScarbBuildFailed);
}

#[test]
fn status_names() {
    assert_eq!(Status::Success.name(), "Success");
    assert_eq!(Status::FileExtensionNotSupported.name(), "FileExtensionNotSupported");
    assert_eq!(Status::SierraCompilationFailed.name(), "SierraCompilationFailed");
    assert_eq!(Status::UnknownError.name(), "UnknownError");
}
