use api::jobs::{
    collect_text_files, finish_compile, finish_scarb, finish_version, plan_command, plan_compile,
    plan_scarb, rejected_response, save_path, version_invocation, ApiCommand, ApiCommandResult,
    ArtifactKind, Config, FileEntry, JobPlan, ProcessOutcome,
};
use api::status::Status;

fn config() -> Config {
    Config {
        project_root: "/srv/projects".to_string(),
        sierra_root: "/srv/sierra".to_string(),
        casm_root: "/srv/casm".to_string(),
        cairo_dir: "/opt/cairo".to_string(),
    }
}

fn outcome(code: Option<i32>, stdout: &str, stderr: &str) -> ProcessOutcome {
    ProcessOutcome {
        exit_code: code,
        stdout: stdout.as_bytes().to_vec(),
        stderr: stderr.as_bytes().to_vec(),
    }
}

fn entry(path: &str, content: Option<&str>) -> FileEntry {
    FileEntry { path: path.to_string(), content: content.map(|c| c.to_string()) }
}

#[test]
fn extension_check_is_case_sensitive() {
    let cfg = config();
    let refused = plan_compile(&cfg, ArtifactKind::Sierra, "foo.CAIRO").unwrap_err();
    assert_eq!(refused.status, "FileExtensionNotSupported");
    assert_eq!(refused.file_content, "");
    assert!(plan_compile(&cfg, ArtifactKind::Sierra, "foo.cairo").is_ok());
}

#[test]
fn casm_job_wants_sierra_input() {
    let cfg = config();
    let refused = plan_compile(&cfg, ArtifactKind::Casm, "proj/a.cairo").unwrap_err();
    assert_eq!(refused.status, "FileExtensionNotSupported");
    assert_eq!(refused.message, "File extension not supported");
    let plan = plan_compile(&cfg, ArtifactKind::Casm, "proj/a.sierra").unwrap();
    assert_eq!(plan.output_rel, "proj/a.casm");
    assert_eq!(plan.output_path, "/srv/casm/proj/a.casm");
    assert_eq!(
        plan.invocation.args,
        vec!["run", "--release", "--bin", "starknet-sierra-compile", "--", "/srv/projects/proj/a.sierra", "/srv/casm/proj/a.casm"]
    );
}

#[test]
fn sierra_plan_names_paths_and_arguments() {
    let plan = plan_compile(&config(), ArtifactKind::Sierra, "proj/test.cairo").unwrap();
    assert_eq!(plan.source_path, "/srv/projects/proj/test.cairo");
    assert_eq!(plan.output_rel, "proj/test.sierra");
    assert_eq!(plan.output_path, "/srv/sierra/proj/test.sierra");
    assert_eq!(plan.invocation.program, "cargo");
    assert_eq!(plan.invocation.working_dir, "/opt/cairo");
    assert_eq!(
        plan.invocation.args,
        vec![
            "run",
            "--release",
            "--bin",
            "starknet-compile",
            "--",
            "/srv/projects/proj/test.cairo",
            "/srv/sierra/proj/test.sierra",
            "--single-file",
        ]
    );
}

#[test]
fn traversal_is_refused_before_compiling() {
    let refused = plan_compile(&config(), ArtifactKind::Sierra, "../secret.cairo").unwrap_err();
    assert_eq!(refused.status, "InvalidPath");
    assert_eq!(refused.file_content, "");
}

#[test]
fn sierra_compile_success_end_to_end() {
    let cfg = config();
    let plan = match plan_command(&cfg, ApiCommand::SierraCompile("proj/test.cairo".to_string())) {
        JobPlan::Compile(plan) => plan,
        other => panic!("unexpected step {:?}", other),
    };
    let stderr = "warning: unused in /srv/projects/proj/test.cairo, wrote /srv/sierra/proj/test.sierra\n";
    let resp = finish_compile(&plan, Some(outcome(Some(0), "", stderr)), Some("{\"sierra_program\": []}".to_string()));
    assert_eq!(resp.status, "Success");
    assert!(!resp.file_content.is_empty());
    assert_eq!(resp.message, "warning: unused in proj/test.cairo, wrote proj/test.sierra\n");
    assert!(!resp.message.contains("/srv"));
}

#[test]
fn sierra_compile_wrong_extension_runs_no_tool() {
    match plan_command(&config(), ApiCommand::SierraCompile("proj/test.txt".to_string())) {
        JobPlan::Respond(ApiCommandResult::SierraCompile(resp)) => {
            assert_eq!(resp.status, "FileExtensionNotSupported");
            assert_eq!(resp.file_content, "");
        }
        other => panic!("unexpected step {:?}", other),
    }
}

#[test]
fn compile_failure_statuses_follow_exit_code() {
    let cfg = config();
    let sierra = plan_compile(&cfg, ArtifactKind::Sierra, "p/a.cairo").unwrap();
    let casm = plan_compile(&cfg, ArtifactKind::Casm, "p/a.sierra").unwrap();
    assert_eq!(finish_compile(&sierra, Some(outcome(Some(1), "", "")), None).status, "CompilationFailed");
    assert_eq!(finish_compile(&sierra, Some(outcome(Some(127), "", "")), None).status, "CompilationFailed");
    assert_eq!(finish_compile(&sierra, Some(outcome(None, "", "")), None).status, "UnknownError");
    assert_eq!(finish_compile(&casm, Some(outcome(Some(1), "", "")), None).status, "SierraCompilationFailed");
    assert_eq!(finish_compile(&casm, Some(outcome(Some(0), "", "")), None).status, "Success");
}

#[test]
fn missing_artifact_reads_as_empty() {
    let plan = plan_compile(&config(), ArtifactKind::Sierra, "p/a.cairo").unwrap();
    let resp = finish_compile(&plan, Some(outcome(Some(1), "", "error")), None);
    assert_eq!(resp.file_content, "");
    assert_eq!(resp.message, "error");
}

#[test]
fn spawn_failure_is_reported() {
    let plan = plan_compile(&config(), ArtifactKind::Sierra, "p/a.cairo").unwrap();
    let resp = finish_compile(&plan, None, None);
    assert_eq!(resp.status, "SpawnFailed");
    assert_eq!(resp.file_content, "");
}

#[test]
fn invalid_utf8_in_errors_is_replaced() {
    let plan = plan_compile(&config(), ArtifactKind::Sierra, "p/a.cairo").unwrap();
    let run = ProcessOutcome { exit_code: Some(1), stdout: vec![], stderr: vec![b'e', 0xff, b'!'] };
    let resp = finish_compile(&plan, Some(run), None);
    assert_eq!(resp.message, "e\u{FFFD}!");
}

#[test]
fn rejected_response_messages() {
    let r = rejected_response(Status::FileNotFound);
    assert_eq!(r.status, "FileNotFound");
    assert_eq!(r.message, "File path not found");
    assert_eq!(r.file_content, "");
}

#[test]
fn listing_keeps_text_files_only() {
    let entries = vec![
        entry("/p/target/dev/a.txt", Some("x")),
        entry("/p/target/dev/sub/b.txt", Some("y")),
        entry("/p/target/dev/blob.bin", None),
    ];
    let listing = collect_text_files(&entries);
    assert_eq!(listing.len(), 2);
    let mut pairs: Vec<(String, String)> =
        listing.into_iter().map(|f| (f.file_name, f.file_content)).collect();
    pairs.sort();
    assert_eq!(
        pairs,
        vec![("a.txt".to_string(), "x".to_string()), ("b.txt".to_string(), "y".to_string())]
    );
}

#[test]
fn scarb_build_of_empty_project() {
    let cfg = config();
    let plan = plan_scarb(&cfg, "proj").unwrap();
    assert_eq!(plan.project_path, "/srv/projects/proj");
    assert_eq!(plan.artifact_dir, "/srv/projects/proj/target/dev");
    assert_eq!(plan.invocation.program, "scarb");
    assert_eq!(plan.invocation.args, vec!["build"]);
    assert_eq!(plan.invocation.working_dir, "/srv/projects/proj");
    let failed = finish_scarb(&plan, Some(outcome(Some(1), "", "error: no Scarb.toml")), &vec![]);
    assert!(failed.file_content_map_array.is_empty());
    assert_eq!(failed.status, "ScarbBuildFailed");
    let built = finish_scarb(&plan, Some(outcome(Some(0), "", "")), &vec![]);
    assert!(built.file_content_map_array.is_empty());
    assert_eq!(built.status, "Success");
}

#[test]
fn scarb_message_is_stdout_then_stderr() {
    let plan = plan_scarb(&config(), "proj").unwrap();
    let run = outcome(Some(0), "Compiling /srv/projects/proj\n", "warn in /srv/projects/proj/src\n");
    let files = vec![entry("/srv/projects/proj/target/dev/p.sierra.json", Some("{}"))];
    let resp = finish_scarb(&plan, Some(run), &files);
    assert_eq!(resp.message, "Compiling proj\nwarn in proj/src\n");
    assert_eq!(resp.file_content_map_array.len(), 1);
    assert_eq!(resp.file_content_map_array[0].file_name, "p.sierra.json");
}

#[test]
fn scarb_refuses_traversal() {
    let resp = plan_scarb(&config(), "../other").unwrap_err();
    assert_eq!(resp.status, "InvalidPath");
    assert!(resp.file_content_map_array.is_empty());
}

#[test]
fn version_query() {
    let inv = version_invocation(&config());
    assert_eq!(inv.program, "cargo");
    assert_eq!(inv.args, vec!["run", "-q", "--release", "--bin", "cairo-compile", "--", "--version"]);
    assert_eq!(finish_version(Some(outcome(Some(0), "cairo-compile 2.6.3\n", ""))), Ok("cairo-compile 2.6.3\n".to_string()));
    let bad = ProcessOutcome { exit_code: Some(0), stdout: vec![0xc3, 0x28], stderr: vec![] };
    assert_eq!(finish_version(Some(bad)), Err("UnknownError".to_string()));
    assert_eq!(finish_version(None), Err("SpawnFailed".to_string()));
}

#[test]
fn commands_lead_to_their_steps() {
    let cfg = config();
    assert!(matches!(plan_command(&cfg, ApiCommand::CairoVersion), JobPlan::Version(_)));
    assert!(matches!(plan_command(&cfg, ApiCommand::Shutdown), JobPlan::Respond(ApiCommandResult::Shutdown)));
    assert!(matches!(plan_command(&cfg, ApiCommand::ScarbCompile("proj".to_string())), JobPlan::Scarb(_)));
    assert!(matches!(
        plan_command(&cfg, ApiCommand::CasmCompile("p/a.txt".to_string())),
        JobPlan::Respond(ApiCommandResult::CasmCompile(_))
    ));
}

#[test]
fn uploads_are_stored_below_the_project_root() {
    let cfg = config();
    assert_eq!(save_path(&cfg, "proj/test.cairo"), Ok("/srv/projects/proj/test.cairo".to_string()));
    assert_eq!(save_path(&cfg, "proj/../../x"), Err(Status::InvalidPath));
}
