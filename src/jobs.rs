use vstd::prelude::*;
use vstd::utf8::{decode_utf8, valid_utf8};

use crate::paths::{
    extension_of, extension_spec, file_name_of, file_name_spec, joined, resolve, valid_relative,
    with_extension, with_extension_spec,
};
use crate::sanitize::{replaced, sanitize};
use crate::status::{status_for_exit, status_from_exit_code, status_text, Status};
use crate::text::{decode_lossy, decode_strict, lossy_text, same_text};

verus! {

/// Answer to a single-artifact compile request.
#[derive(Debug)]
pub struct CompileResponse {
    pub status: String,
    pub message: String,
    pub file_content: String,
}

/// One file read back from a build's output directory.
#[derive(Debug)]
pub struct FileContentMap {
    pub file_name: String,
    pub file_content: String,
}

/// Answer to a Scarb build request.
#[derive(Debug)]
pub struct ScarbCompileResponse {
    pub status: String,
    pub message: String,
    pub file_content_map_array: Vec<FileContentMap>,
}

/// A request to the gateway; paths are relative to the project root.
#[derive(Debug)]
pub enum ApiCommand {
    CairoVersion,
    SierraCompile(String),
    CasmCompile(String),
    ScarbCompile(String),
    Shutdown,
}

/// The answer to an `ApiCommand`.
#[derive(Debug)]
pub enum ApiCommandResult {
    CairoVersion(String),
    CasmCompile(CompileResponse),
    SierraCompile(CompileResponse),
    ScarbCompile(ScarbCompileResponse),
    Shutdown,
}

/// Where projects, artifacts and the compiler toolchain live.
#[derive(Debug)]
pub struct Config {
    pub project_root: String,
    pub sierra_root: String,
    pub casm_root: String,
    pub cairo_dir: String,
}

/// The two single-file compile jobs.
#[derive(Clone, Copy, Debug, PartialEq, Eq, Structural)]
pub enum ArtifactKind {
    /// Cairo source to Sierra.
    Sierra,
    /// Sierra to CASM.
    Casm,
}

/// One run of an external tool.
#[derive(Debug)]
pub struct ToolInvocation {
    pub program: String,
    pub args: Vec<String>,
    pub working_dir: String,
}

/// What a finished tool run left: its exit code (none when a signal ended
/// it) and its captured output streams.
#[derive(Debug)]
pub struct ProcessOutcome {
    pub exit_code: Option<i32>,
    pub stdout: Vec<u8>,
    pub stderr: Vec<u8>,
}

/// Everything a single-file compile job needs once its input is accepted.
#[derive(Debug)]
pub struct CompilePlan {
    pub kind: ArtifactKind,
    pub source_rel: String,
    pub source_path: String,
    pub output_rel: String,
    pub output_path: String,
    pub invocation: ToolInvocation,
}

pub open spec fn source_ext(kind: ArtifactKind) -> Seq<char> {
    match kind {
        ArtifactKind::Sierra => "cairo"@,
        ArtifactKind::Casm => "sierra"@,
    }
}

pub open spec fn output_ext(kind: ArtifactKind) -> Seq<char> {
    match kind {
        ArtifactKind::Sierra => "sierra"@,
        ArtifactKind::Casm => "casm"@,
    }
}

/// The status of a compile run that exited with a non-zero code.
pub open spec fn failure_status(kind: ArtifactKind) -> Status {
    match kind {
        ArtifactKind::Sierra => Status::CompilationFailed,
        ArtifactKind::Casm => Status::SierraCompilationFailed,
    }
}

pub open spec fn output_root(config: Config, kind: ArtifactKind) -> Seq<char> {
    match kind {
        ArtifactKind::Sierra => config.sierra_root@,
        ArtifactKind::Casm => config.casm_root@,
    }
}

pub open spec fn strings_view(v: Seq<String>) -> Seq<Seq<char>> {
    v.map_values(|s: String| s@)
}

/// The arguments given to `cargo` for a compile from `src` to `out`.
pub open spec fn compile_args(kind: ArtifactKind, src: Seq<char>, out: Seq<char>) -> Seq<Seq<char>> {
    match kind {
        ArtifactKind::Sierra => seq![
            "run"@,
            "--release"@,
            "--bin"@,
            "starknet-compile"@,
            "--"@,
            src,
            out,
            "--single-file"@,
        ],
        ArtifactKind::Casm => seq![
            "run"@,
            "--release"@,
            "--bin"@,
            "starknet-sierra-compile"@,
            "--"@,
            src,
            out,
        ],
    }
}

/// The message that goes with a request refused before any tool runs.
pub open spec fn refusal_message(s: Status) -> Seq<char> {
    match s {
        Status::FileNotFound => "File path not found"@,
        Status::FileExtensionNotSupported => "File extension not supported"@,
        Status::InvalidPath => "Invalid path"@,
        Status::SpawnFailed => "Failed to start the compiler"@,
        _ => "Unknown error"@,
    }
}

/// `resp` refuses a request with status `s` and no artifact.
pub open spec fn is_refusal(resp: CompileResponse, s: Status) -> bool {
    &&& resp.status@ == status_text(s)
    &&& resp.message@ == refusal_message(s)
    &&& resp.file_content@ == Seq::<char>::empty()
}

/// `plan` is the compile job of `kind` for the relative path `p`.
pub open spec fn is_compile_plan(config: Config, kind: ArtifactKind, p: Seq<char>, plan: CompilePlan) -> bool {
    &&& plan.kind == kind
    &&& plan.source_rel@ == p
    &&& plan.source_path@ == joined(config.project_root@, p)
    &&& plan.output_rel@ == with_extension_spec(p, output_ext(kind))
    &&& plan.output_path@ == joined(output_root(config, kind), plan.output_rel@)
    &&& plan.invocation.program@ == "cargo"@
    &&& plan.invocation.working_dir@ == config.cairo_dir@
    &&& strings_view(plan.invocation.args@) == compile_args(kind, plan.source_path@, plan.output_path@)
}

fn refusal_text(s: Status) -> (r: String)
    ensures
        r@ == refusal_message(s),
{
    match s {
        Status::FileNotFound => String::from_str("File path not found"),
        Status::FileExtensionNotSupported => String::from_str("File extension not supported"),
        Status::InvalidPath => String::from_str("Invalid path"),
        Status::SpawnFailed => String::from_str("Failed to start the compiler"),
        _ => String::from_str("Unknown error"),
    }
}

/// The answer to a compile request refused with status `s`.
pub fn rejected_response(s: Status) -> (r: CompileResponse)
    ensures
        is_refusal(r, s),
{
    CompileResponse { status: s.name(), message: refusal_text(s), file_content: String::new() }
}

fn compile_invocation(config: &Config, kind: ArtifactKind, src: &String, out: &String) -> (r: ToolInvocation)
    ensures
        r.program@ == "cargo"@,
        r.working_dir@ == config.cairo_dir@,
        strings_view(r.args@) == compile_args(kind, src@, out@),
{
    let args = match kind {
        ArtifactKind::Sierra => vec![
            String::from_str("run"),
            String::from_str("--release"),
            String::from_str("--bin"),
            String::from_str("starknet-compile"),
            String::from_str("--"),
            src.clone(),
            out.clone(),
            String::from_str("--single-file"),
        ],
        ArtifactKind::Casm => vec![
            String::from_str("run"),
            String::from_str("--release"),
            String::from_str("--bin"),
            String::from_str("starknet-sierra-compile"),
            String::from_str("--"),
            src.clone(),
            out.clone(),
        ],
    };
    assert(strings_view(args@) =~= compile_args(kind, src@, out@));
    ToolInvocation {
        program: String::from_str("cargo"),
        args,
        working_dir: config.cairo_dir.clone(),
    }
}

/// Accepts or refuses a single-file compile of the file at the relative
/// `path`. The extension must be exactly that of the job's input, compared
/// character by character; the path must stay below the project root.
pub fn plan_compile(config: &Config, kind: ArtifactKind, path: &str) -> (r: Result<CompilePlan, CompileResponse>)
    ensures
        extension_spec(path@) != source_ext(kind) ==> r is Err && is_refusal(
            r->Err_0,
            Status::FileExtensionNotSupported,
        ),
        extension_spec(path@) == source_ext(kind) && !valid_relative(path@) ==> r is Err
            && is_refusal(r->Err_0, Status::InvalidPath),
        extension_spec(path@) == source_ext(kind) && valid_relative(path@) ==> r is Ok
            && is_compile_plan(*config, kind, path@, r->Ok_0),
{
    let ext = extension_of(path);
    let (wanted, out_ext) = match kind {
        ArtifactKind::Sierra => ("cairo", "sierra"),
        ArtifactKind::Casm => ("sierra", "casm"),
    };
    if !same_text(ext.as_str(), wanted) {
        return Err(rejected_response(Status::FileExtensionNotSupported));
    }
    let source_path = match resolve(path, config.project_root.as_str()) {
        Ok(p) => p,
        Err(s) => {
            return Err(rejected_response(s));
        },
    };
    let output_rel = with_extension(path, out_ext);
    let root = match kind {
        ArtifactKind::Sierra => config.sierra_root.as_str(),
        ArtifactKind::Casm => config.casm_root.as_str(),
    };
    let mut output_path = String::from_str(root);
    output_path.append("/");
    output_path.append(output_rel.as_str());
    proof {
        reveal_strlit("/");
        assert(output_path@ =~= joined(output_root(*config, kind), output_rel@));
    }
    let invocation = compile_invocation(config, kind, &source_path, &output_path);
    Ok(
        CompilePlan {
            kind,
            source_rel: String::from_str(path),
            source_path,
            output_rel,
            output_path,
            invocation,
        },
    )
}

/// The caller-facing message of a compile run: its error stream with the
/// absolute input and output paths written as the caller named them.
pub open spec fn compile_message(plan: CompilePlan, stderr: Seq<u8>) -> Seq<char> {
    replaced(
        replaced(lossy_text(stderr), plan.source_path@, plan.source_rel@),
        plan.output_path@,
        plan.output_rel@,
    )
}

pub open spec fn text_or_empty(t: Option<String>) -> Seq<char> {
    match t {
        Some(s) => s@,
        None => Seq::empty(),
    }
}

/// Builds the answer to a compile job from what its tool run left: `run` is
/// `None` when the tool could not be started, and `artifact` the output file
/// as read back, `None` when it is absent or unreadable.
pub fn finish_compile(plan: &CompilePlan, run: Option<ProcessOutcome>, artifact: Option<String>) -> (r: CompileResponse)
    ensures
        run is None ==> is_refusal(r, Status::SpawnFailed),
        run is Some ==> r.status@ == status_text(
            status_for_exit(run->Some_0.exit_code, failure_status(plan.kind)),
        ),
        run is Some ==> r.message@ == compile_message(*plan, run->Some_0.stderr@),
        run is Some ==> r.file_content@ == text_or_empty(artifact),
{
    let outcome = match run {
        Some(o) => o,
        None => {
            return rejected_response(Status::SpawnFailed);
        },
    };
    let failure = match plan.kind {
        ArtifactKind::Sierra => Status::CompilationFailed,
        ArtifactKind::Casm => Status::SierraCompilationFailed,
    };
    let status = status_from_exit_code(outcome.exit_code, failure);
    let raw = decode_lossy(&outcome.stderr);
    let step = sanitize(raw.as_str(), plan.source_path.as_str(), plan.source_rel.as_str());
    let message = sanitize(step.as_str(), plan.output_path.as_str(), plan.output_rel.as_str());
    let file_content = match artifact {
        Some(c) => c,
        None => String::new(),
    };
    CompileResponse { status: status.name(), message, file_content }
}

/// The arguments given to `cargo` to ask the compiler for its version.
pub open spec fn version_args() -> Seq<Seq<char>> {
    seq!["run"@, "-q"@, "--release"@, "--bin"@, "cairo-compile"@, "--"@, "--version"@]
}

/// The tool run that asks the compiler for its version.
pub fn version_invocation(config: &Config) -> (r: ToolInvocation)
    ensures
        r.program@ == "cargo"@,
        r.working_dir@ == config.cairo_dir@,
        strings_view(r.args@) == version_args(),
{
    let args = vec![
        String::from_str("run"),
        String::from_str("-q"),
        String::from_str("--release"),
        String::from_str("--bin"),
        String::from_str("cairo-compile"),
        String::from_str("--"),
        String::from_str("--version"),
    ];
    assert(strings_view(args@) =~= version_args());
    ToolInvocation {
        program: String::from_str("cargo"),
        args,
        working_dir: config.cairo_dir.clone(),
    }
}

/// The version text that the compiler printed, or the name of the status
/// that explains why there is none.
pub fn finish_version(run: Option<ProcessOutcome>) -> (r: Result<String, String>)
    ensures
        run is None ==> r is Err && r->Err_0@ == status_text(Status::SpawnFailed),
        run is Some && valid_utf8(run->Some_0.stdout@) ==> r is Ok && r->Ok_0@ == decode_utf8(
            run->Some_0.stdout@,
        ),
        run is Some && !valid_utf8(run->Some_0.stdout@) ==> r is Err && r->Err_0@ == status_text(
            Status::UnknownError,
        ),
{
    match run {
        None => Err(Status::SpawnFailed.name()),
        Some(o) => match decode_strict(o.stdout) {
            Some(v) => Ok(v),
            None => Err(Status::UnknownError.name()),
        },
    }
}

/// What a Scarb build job needs once its project path is accepted.
#[derive(Debug)]
pub struct ScarbPlan {
    pub project_rel: String,
    pub project_path: String,
    pub artifact_dir: String,
    pub invocation: ToolInvocation,
}

/// One regular file found below a build's output directory: its path and its
/// text, `None` when it could not be read as UTF-8.
#[derive(Debug)]
pub struct FileEntry {
    pub path: String,
    pub content: Option<String>,
}

/// `plan` is the Scarb build of the project at the relative path `p`.
pub open spec fn is_scarb_plan(config: Config, p: Seq<char>, plan: ScarbPlan) -> bool {
    &&& plan.project_rel@ == p
    &&& plan.project_path@ == joined(config.project_root@, p)
    &&& plan.artifact_dir@ == plan.project_path@ + "/target/dev"@
    &&& plan.invocation.program@ == "scarb"@
    &&& plan.invocation.working_dir@ == plan.project_path@
    &&& strings_view(plan.invocation.args@) == seq!["build"@]
}

/// `resp` refuses a build request with status `s` and no files.
pub open spec fn is_scarb_refusal(resp: ScarbCompileResponse, s: Status) -> bool {
    &&& resp.status@ == status_text(s)
    &&& resp.message@ == refusal_message(s)
    &&& resp.file_content_map_array@.len() == 0
}

/// Accepts or refuses a Scarb build of the project directory at the
/// relative `path`, which must stay below the project root.
pub fn plan_scarb(config: &Config, path: &str) -> (r: Result<ScarbPlan, ScarbCompileResponse>)
    ensures
        valid_relative(path@) ==> r is Ok && is_scarb_plan(*config, path@, r->Ok_0),
        !valid_relative(path@) ==> r is Err && is_scarb_refusal(r->Err_0, Status::InvalidPath),
{
    let project_path = match resolve(path, config.project_root.as_str()) {
        Ok(p) => p,
        Err(s) => {
            return Err(
                ScarbCompileResponse {
                    status: s.name(),
                    message: refusal_text(s),
                    file_content_map_array: Vec::new(),
                },
            );
        },
    };
    let mut artifact_dir = project_path.clone();
    artifact_dir.append("/target/dev");
    let args = vec![String::from_str("build")];
    assert(strings_view(args@) =~= seq!["build"@]);
    let invocation = ToolInvocation {
        program: String::from_str("scarb"),
        args,
        working_dir: project_path.clone(),
    };
    Ok(ScarbPlan { project_rel: String::from_str(path), project_path, artifact_dir, invocation })
}

/// The (name, text) pairs of the entries that could be read as text, in
/// the order of the entries.
pub open spec fn text_files(es: Seq<FileEntry>) -> Seq<(Seq<char>, Seq<char>)>
    decreases es.len(),
{
    if es.len() == 0 {
        Seq::empty()
    } else {
        let prev = text_files(es.drop_last());
        match es.last().content {
            Some(c) => prev.push((file_name_spec(es.last().path@), c@)),
            None => prev,
        }
    }
}

pub open spec fn listing_view(fs: Seq<FileContentMap>) -> Seq<(Seq<char>, Seq<char>)> {
    fs.map_values(|f: FileContentMap| (f.file_name@, f.file_content@))
}

/// Turns the files found below a build's output directory into the listing
/// sent back: each readable file under its own name, unreadable ones left out.
pub fn collect_text_files(entries: &Vec<FileEntry>) -> (r: Vec<FileContentMap>)
    ensures
        listing_view(r@) == text_files(entries@),
{
    let mut r: Vec<FileContentMap> = Vec::new();
    let mut i: usize = 0;
    while i < entries.len()
        invariant
            i <= entries@.len(),
            listing_view(r@) == text_files(entries@.subrange(0, i as int)),
        decreases entries@.len() - i,
    {
        let ghost prev = r@;
        assert(entries@.subrange(0, i + 1).drop_last() =~= entries@.subrange(0, i as int));
        let e = &entries[i];
        match &e.content {
            Some(c) => {
                let f = FileContentMap { file_name: file_name_of(e.path.as_str()), file_content: c.clone() };
                r.push(f);
                assert(listing_view(r@) =~= listing_view(prev).push((file_name_spec(e.path@), c@)));
            },
            None => {},
        }
        i = i + 1;
    }
    assert(entries@.subrange(0, entries@.len() as int) =~= entries@);
    r
}

/// The caller-facing message of a build: its output stream, then its error
/// stream, each with the project's absolute path written as the caller named it.
pub open spec fn build_message(plan: ScarbPlan, run: ProcessOutcome) -> Seq<char> {
    replaced(lossy_text(run.stdout@), plan.project_path@, plan.project_rel@) + replaced(
        lossy_text(run.stderr@),
        plan.project_path@,
        plan.project_rel@,
    )
}

/// Builds the answer to a Scarb build from what its run left and from the
/// files found below the output directory, whatever the build's outcome.
pub fn finish_scarb(plan: &ScarbPlan, run: Option<ProcessOutcome>, files: &Vec<FileEntry>) -> (r: ScarbCompileResponse)
    ensures
        listing_view(r.file_content_map_array@) == text_files(files@),
        run is None ==> r.status@ == status_text(Status::SpawnFailed) && r.message@
            == refusal_message(Status::SpawnFailed),
        run is Some ==> r.status@ == status_text(
            status_for_exit(run->Some_0.exit_code, Status::ScarbBuildFailed),
        ),
        run is Some ==> r.message@ == build_message(*plan, run->Some_0),
{
    let listing = collect_text_files(files);
    match run {
        None => ScarbCompileResponse {
            status: Status::SpawnFailed.name(),
            message: refusal_text(Status::SpawnFailed),
            file_content_map_array: listing,
        },
        Some(o) => {
            let status = status_from_exit_code(o.exit_code, Status::ScarbBuildFailed);
            let out = decode_lossy(&o.stdout);
            let err = decode_lossy(&o.stderr);
            let mut message = sanitize(out.as_str(), plan.project_path.as_str(), plan.project_rel.as_str());
            let tail = sanitize(err.as_str(), plan.project_path.as_str(), plan.project_rel.as_str());
            message.append(tail.as_str());
            ScarbCompileResponse { status: status.name(), message, file_content_map_array: listing }
        },
    }
}

/// Where an upload to the relative `path` is stored: below the project root,
/// or refused with `InvalidPath`.
pub fn save_path(config: &Config, path: &str) -> (r: Result<String, Status>)
    ensures
        valid_relative(path@) <==> r is Ok,
        r is Ok ==> r->Ok_0@ == joined(config.project_root@, path@),
        r is Err ==> r->Err_0 == Status::InvalidPath,
{
    resolve(path, config.project_root.as_str())
}

/// The next step of a request: answer at once, or run a tool first.
#[derive(Debug)]
pub enum JobPlan {
    Respond(ApiCommandResult),
    Version(ToolInvocation),
    Compile(CompilePlan),
    Scarb(ScarbPlan),
}

/// `r` answers a compile job of `kind` at once, refusing it with status `s`.
pub open spec fn is_compile_refusal(r: JobPlan, kind: ArtifactKind, s: Status) -> bool {
    match r {
        JobPlan::Respond(ApiCommandResult::SierraCompile(resp)) => kind == ArtifactKind::Sierra
            && is_refusal(resp, s),
        JobPlan::Respond(ApiCommandResult::CasmCompile(resp)) => kind == ArtifactKind::Casm
            && is_refusal(resp, s),
        _ => false,
    }
}

/// `r` is the step that a compile request of `kind` for `p` leads to.
pub open spec fn compile_step(config: Config, kind: ArtifactKind, p: Seq<char>, r: JobPlan) -> bool {
    if extension_spec(p) != source_ext(kind) {
        is_compile_refusal(r, kind, Status::FileExtensionNotSupported)
    } else if !valid_relative(p) {
        is_compile_refusal(r, kind, Status::InvalidPath)
    } else {
        r matches JobPlan::Compile(plan) && is_compile_plan(config, kind, p, plan)
    }
}

/// `r` is the step that a request for `command` leads to.
pub open spec fn command_step(config: Config, command: ApiCommand, r: JobPlan) -> bool {
    match command {
        ApiCommand::CairoVersion => r matches JobPlan::Version(inv) && inv.program@ == "cargo"@
            && inv.working_dir@ == config.cairo_dir@ && strings_view(inv.args@) == version_args(),
        ApiCommand::SierraCompile(p) => compile_step(config, ArtifactKind::Sierra, p@, r),
        ApiCommand::CasmCompile(p) => compile_step(config, ArtifactKind::Casm, p@, r),
        ApiCommand::ScarbCompile(p) => if valid_relative(p@) {
            r matches JobPlan::Scarb(plan) && is_scarb_plan(config, p@, plan)
        } else {
            r matches JobPlan::Respond(ApiCommandResult::ScarbCompile(resp)) && is_scarb_refusal(
                resp,
                Status::InvalidPath,
            )
        },
        ApiCommand::Shutdown => r matches JobPlan::Respond(ApiCommandResult::Shutdown),
    }
}

fn compile_step_of(config: &Config, kind: ArtifactKind, path: &str) -> (r: JobPlan)
    ensures
        compile_step(*config, kind, path@, r),
{
    match plan_compile(config, kind, path) {
        Ok(plan) => JobPlan::Compile(plan),
        Err(resp) => match kind {
            ArtifactKind::Sierra => JobPlan::Respond(ApiCommandResult::SierraCompile(resp)),
            ArtifactKind::Casm => JobPlan::Respond(ApiCommandResult::CasmCompile(resp)),
        },
    }
}

/// Decides what a request leads to: which tool to run, with which
/// arguments and where, or the answer when the request is refused before
/// any tool runs.
pub fn plan_command(config: &Config, command: ApiCommand) -> (r: JobPlan)
    ensures
        command_step(*config, command, r),
{
    match command {
        ApiCommand::CairoVersion => JobPlan::Version(version_invocation(config)),
        ApiCommand::SierraCompile(p) => compile_step_of(config, ArtifactKind::Sierra, p.as_str()),
        ApiCommand::CasmCompile(p) => compile_step_of(config, ArtifactKind::Casm, p.as_str()),
        ApiCommand::ScarbCompile(p) => match plan_scarb(config, p.as_str()) {
            Ok(plan) => JobPlan::Scarb(plan),
            Err(resp) => JobPlan::Respond(ApiCommandResult::ScarbCompile(resp)),
        },
        ApiCommand::Shutdown => JobPlan::Respond(ApiCommandResult::Shutdown),
    }
}

} // verus!
