use vstd::prelude::*;

verus! {

/// Outcome of one compile job, as reported to the caller.
#[derive(Clone, Copy, Debug, PartialEq, Eq, Structural)]
pub enum Status {
    Success,
    CompilationFailed,
    SierraCompilationFailed,
    ScarbBuildFailed,
    FileNotFound,
    FileExtensionNotSupported,
    InvalidPath,
    SpawnFailed,
    UnknownError,
}

/// The text under which a status is reported.
pub open spec fn status_text(s: Status) -> Seq<char> {
    match s {
        Status::Success => "Success"@,
        Status::CompilationFailed => "CompilationFailed"@,
        Status::SierraCompilationFailed => "SierraCompilationFailed"@,
        Status::ScarbBuildFailed => "ScarbBuildFailed"@,
        Status::FileNotFound => "FileNotFound"@,
        Status::FileExtensionNotSupported => "FileExtensionNotSupported"@,
        Status::InvalidPath => "InvalidPath"@,
        Status::SpawnFailed => "SpawnFailed"@,
        Status::UnknownError => "UnknownError"@,
    }
}

/// The status of a finished tool run: `Success` on exit code zero, `failure`
/// on any other code, `UnknownError` when the process left no exit code.
pub open spec fn status_for_exit(code: Option<i32>, failure: Status) -> Status {
    match code {
        Some(c) => if c == 0 {
            Status::Success
        } else {
            failure
        },
        None => Status::UnknownError,
    }
}

impl Status {
    /// The text under which this status is reported.
    pub fn name(&self) -> (r: String)
        ensures
            r@ == status_text(*self),
    {
        match self {
            Status::Success => String::from_str("Success"),
            Status::CompilationFailed => String::from_str("CompilationFailed"),
            Status::SierraCompilationFailed => String::from_str("SierraCompilationFailed"),
            Status::ScarbBuildFailed => String::from_str("ScarbBuildFailed"),
            Status::FileNotFound => String::from_str("FileNotFound"),
            Status::FileExtensionNotSupported => String::from_str("FileExtensionNotSupported"),
            Status::InvalidPath => String::from_str("InvalidPath"),
            Status::SpawnFailed => String::from_str("SpawnFailed"),
            Status::UnknownError => String::from_str("UnknownError"),
        }
    }
}

/// Maps the exit code of a tool run to a status; `failure` is the status of
/// the job kind for a non-zero exit.
pub fn status_from_exit_code(code: Option<i32>, failure: Status) -> (r: Status)
    ensures
        r == status_for_exit(code, failure),
{
    match code {
        Some(0) => Status::Success,
        Some(_) => failure,
        None => Status::UnknownError,
    }
}

/// Every exit code, and its absence, maps to exactly one status: success
/// for zero, the failure status for any other code, and `UnknownError` for
/// a process that left none.
pub proof fn exit_code_mapping_is_total(code: Option<i32>, failure: Status)
    requires
        failure != Status::Success,
        failure != Status::UnknownError,
    ensures
        status_for_exit(code, failure) == Status::Success <==> code == Some(0i32),
        status_for_exit(code, failure) == failure <==> (code is Some && code != Some(0i32)),
        status_for_exit(code, failure) == Status::UnknownError <==> code is None,
{
}

} // verus!
