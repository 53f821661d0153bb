use stdin_bootstrap::bootstrap::{PrepareError, prepare_stdin_run, unstable_exit_message};
use stdin_bootstrap::features::FeatureFlag;
use stdin_bootstrap::options::{
    AssembleError, ExecutionMode, HostInfo, RunConfiguration, SharedSettings, assemble_bootstrap,
};
use stdin_bootstrap::storage::{StorageKeyResolver, checksum};
use stdin_bootstrap::vfs::{IdentityError, VirtualFileRegistry};

fn shared(origin: Option<&str>) -> SharedSettings {
    SharedSettings {
        argv: vec!["a".to_string(), "b".to_string()],
        argv0: Some("deno".to_string()),
        log_level: 3,
        location: None,
        enable_op_summary_metrics: false,
        enable_testing_features: true,
        has_node_modules_dir: false,
        node_debug: None,
        node_ipc_fd: Some(4),
        serve_port: Some(8000),
        serve_host: Some("0.0.0.0".to_string()),
        origin_data_folder: origin.map(|s| s.to_string()),
        unsafely_ignore_certificate_errors: None,
        is_inspecting: false,
        inspect_brk: true,
        inspect_wait: false,
        strace_ops: Some(vec!["op_read".to_string()]),
        skip_op_registration: false,
        version: "2.1.0".to_string(),
        user_agent: "Deno/2.1.0".to_string(),
    }
}

fn host(parallelism: Option<usize>) -> HostInfo {
    HostInfo {
        use_color: false,
        color_level: 0,
        is_stdout_tty: true,
        is_stderr_tty: false,
        available_parallelism: parallelism,
        locale: "en-US".to_string(),
    }
}

fn config() -> RunConfiguration {
    RunConfiguration { allow_all: true, code_cache_enabled: true, seed: Some(7) }
}

fn registry() -> Vec<FeatureFlag> {
    vec![FeatureFlag { name: "kv".to_string(), id: 10 }, FeatureFlag { name: "net".to_string(), id: 11 }]
}

#[test]
fn assembled_plan_carries_every_input() {
    let p = assemble_bootstrap(
        "file:///m.ts".to_string(),
        ExecutionMode::Run,
        &config(),
        shared(Some("/origin")),
        host(Some(8)),
        &registry(),
        &vec![false, true],
        &StorageKeyResolver::UseMainModule,
        "/cache",
    )
    .unwrap();
    let sum = checksum("file:///m.ts");
    assert_eq!(p.main_module, "file:///m.ts");
    assert_eq!(p.mode, ExecutionMode::Run);
    assert_eq!(p.cpu_count, 8);
    assert_eq!(p.seed, Some(7));
    assert!(p.code_cache_enabled);
    assert!(p.allow_all);
    assert!(p.no_color);
    assert!(p.is_stdout_tty);
    assert!(!p.is_stderr_tty);
    assert_eq!(p.unstable_features, vec![11]);
    assert_eq!(p.args, vec!["a".to_string(), "b".to_string()]);
    assert_eq!(p.deno_version, "2.1.0");
    assert_eq!(p.user_agent, "Deno/2.1.0");
    assert_eq!(p.locale, "en-US");
    assert!(p.should_break_on_first_statement);
    assert!(!p.should_wait_for_inspector_session);
    assert_eq!(p.serve_port, Some(8000));
    assert_eq!(p.node_ipc_fd, Some(4));
    assert_eq!(p.strace_ops, Some(vec!["op_read".to_string()]));
    assert_eq!(p.origin_storage_dir, Some(format!("/origin/{sum}")));
    assert_eq!(p.cache_storage_dir, Some(format!("/cache/{sum}")));
}

#[test]
fn cpu_count_defaults_to_one() {
    let p = assemble_bootstrap(
        "file:///m.ts".to_string(),
        ExecutionMode::Serve,
        &config(),
        shared(None),
        host(None),
        &registry(),
        &vec![false, false],
        &StorageKeyResolver::Fixed(None),
        "/cache",
    )
    .unwrap();
    assert_eq!(p.cpu_count, 1);
    assert_eq!(p.mode, ExecutionMode::Serve);
    assert!(p.origin_storage_dir.is_none());
    assert!(p.cache_storage_dir.is_none());
    assert!(p.unstable_features.is_empty());
}

#[test]
fn key_without_origin_folder_fails_assembly() {
    let r = assemble_bootstrap(
        "file:///m.ts".to_string(),
        ExecutionMode::Run,
        &config(),
        shared(None),
        host(Some(2)),
        &registry(),
        &vec![true, true],
        &StorageKeyResolver::UseMainModule,
        "/cache",
    );
    assert!(matches!(r, Err(AssembleError::MissingOriginDataFolder)));
}

#[test]
fn stdin_run_is_prepared() {
    let mut reg = VirtualFileRegistry::new();
    let p = prepare_stdin_run(
        &mut reg,
        "/tmp/work",
        b"console.log(1+1)".to_vec(),
        &config(),
        shared(Some("/origin")),
        host(Some(4)),
        &registry(),
        &vec![true, false],
        &StorageKeyResolver::UseMainModule,
        "/cache",
    )
    .unwrap();
    assert_eq!(p.main_module, "file:///tmp/work/$deno$stdin.mts");
    assert_eq!(p.mode, ExecutionMode::Run);
    assert_eq!(p.unstable_features, vec![10]);
    assert_eq!(reg.get(&p.main_module).unwrap().source, b"console.log(1+1)".to_vec());
}

#[test]
fn stdin_run_fails_on_bad_directory() {
    let mut reg = VirtualFileRegistry::new();
    let r = prepare_stdin_run(
        &mut reg,
        "not/absolute",
        b"1".to_vec(),
        &config(),
        shared(Some("/origin")),
        host(Some(4)),
        &registry(),
        &vec![true, false],
        &StorageKeyResolver::UseMainModule,
        "/cache",
    );
    assert!(matches!(r, Err(PrepareError::Identity(IdentityError::InvalidPath))));
    assert!(reg.files.is_empty());
}

#[test]
fn stdin_run_fails_without_origin_folder() {
    let mut reg = VirtualFileRegistry::new();
    let r = prepare_stdin_run(
        &mut reg,
        "/tmp/work",
        b"1".to_vec(),
        &config(),
        shared(None),
        host(Some(4)),
        &registry(),
        &vec![true, false],
        &StorageKeyResolver::UseMainModule,
        "/cache",
    );
    assert!(matches!(r, Err(PrepareError::Config(AssembleError::MissingOriginDataFolder))));
}

#[test]
fn unstable_message_text() {
    assert_eq!(
        unstable_exit_message("kv", "Deno.openKv"),
        "Unstable API 'Deno.openKv'. The `--unstable-kv` flag must be provided."
    );
}
