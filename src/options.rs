use vstd::prelude::*;
use crate::features::{FeatureFlag, collect_unstable_features, enabled_ids};
use crate::storage::{StorageError, StorageKeyResolver, derive_storage_dirs, derived_dirs, opt_view};

verus! {

/// The settings fixed for one invocation.
pub struct RunConfiguration {
    /// Every permission is granted up front.
    pub allow_all: bool,
    /// A store of compiled code is wired into the isolate.
    pub code_cache_enabled: bool,
    /// The seed of the isolate's random number generator, if fixed.
    pub seed: Option<u64>,
}

/// The kind of program the isolate runs.
#[derive(Clone, Copy, Debug, PartialEq, Eq, Structural)]
pub enum ExecutionMode {
    Run,
    Serve,
    Eval,
    Test,
    Bench,
}

/// The process-wide settings shared by every stage, as plain values.
pub struct SharedSettings {
    pub argv: Vec<String>,
    pub argv0: Option<String>,
    pub log_level: u8,
    pub location: Option<String>,
    pub enable_op_summary_metrics: bool,
    pub enable_testing_features: bool,
    pub has_node_modules_dir: bool,
    pub node_debug: Option<String>,
    pub node_ipc_fd: Option<i64>,
    pub serve_port: Option<u16>,
    pub serve_host: Option<String>,
    pub origin_data_folder: Option<String>,
    pub unsafely_ignore_certificate_errors: Option<Vec<String>>,
    pub is_inspecting: bool,
    pub inspect_brk: bool,
    pub inspect_wait: bool,
    pub strace_ops: Option<Vec<String>>,
    pub skip_op_registration: bool,
    pub version: String,
    pub user_agent: String,
}

/// What the host reports: terminal attachment and colour, parallelism and locale.
pub struct HostInfo {
    pub use_color: bool,
    pub color_level: u8,
    pub is_stdout_tty: bool,
    pub is_stderr_tty: bool,
    /// The parallelism the host reports, if it reports any.
    pub available_parallelism: Option<usize>,
    pub locale: String,
}

/// The immutable configuration from which the isolate is built.
pub struct BootstrapPlan {
    pub main_module: String,
    pub mode: ExecutionMode,
    pub deno_version: String,
    pub args: Vec<String>,
    pub argv0: Option<String>,
    pub cpu_count: usize,
    pub log_level: u8,
    pub enable_op_summary_metrics: bool,
    pub enable_testing_features: bool,
    pub locale: String,
    pub location: Option<String>,
    pub no_color: bool,
    pub is_stdout_tty: bool,
    pub is_stderr_tty: bool,
    pub color_level: u8,
    pub unstable_features: Vec<i32>,
    pub user_agent: String,
    pub inspect: bool,
    pub has_node_modules_dir: bool,
    pub node_debug: Option<String>,
    pub node_ipc_fd: Option<i64>,
    pub serve_port: Option<u16>,
    pub serve_host: Option<String>,
    pub seed: Option<u64>,
    pub allow_all: bool,
    pub code_cache_enabled: bool,
    pub unsafely_ignore_certificate_errors: Option<Vec<String>>,
    pub should_break_on_first_statement: bool,
    pub should_wait_for_inspector_session: bool,
    pub strace_ops: Option<Vec<String>>,
    pub skip_op_registration: bool,
    pub origin_storage_dir: Option<String>,
    pub cache_storage_dir: Option<String>,
}

/// Why no configuration could be assembled.
#[derive(Debug, PartialEq, Eq, Structural)]
pub enum AssembleError {
    /// A storage key was found while no base directory for per-origin data
    /// was configured.
    MissingOriginDataFolder,
}

/// The processor count handed to the isolate: what the host reports, else one.
pub open spec fn cpu_count_of(available: Option<usize>) -> usize {
    match available {
        Some(n) => n,
        None => 1,
    }
}

/// Assembles the configuration of the isolate that runs `main_module`.
/// `approved[i]` is the feature checker's answer for `registry[i]`; the
/// storage key comes from `resolver`, the per-origin directories from it,
/// the configured base directory and `cache_storage_root`. Fails exactly
/// where a key is found and no base directory for per-origin data is
/// configured.
pub fn assemble_bootstrap(
    main_module: String,
    mode: ExecutionMode,
    config: &RunConfiguration,
    shared: SharedSettings,
    host: HostInfo,
    registry: &Vec<FeatureFlag>,
    approved: &Vec<bool>,
    resolver: &StorageKeyResolver,
    cache_storage_root: &str,
) -> (r: Result<BootstrapPlan, AssembleError>)
    requires
        approved.len() == registry.len(),
    ensures
        r is Err <==> derived_dirs(
            resolver.key_for(main_module@),
            opt_view(shared.origin_data_folder),
            cache_storage_root@,
        ) is None,
        r is Err ==> r == Err::<BootstrapPlan, AssembleError>(AssembleError::MissingOriginDataFolder),
        r matches Ok(p) ==> {
            &&& derived_dirs(
                resolver.key_for(main_module@),
                opt_view(shared.origin_data_folder),
                cache_storage_root@,
            ) == Some((opt_view(p.origin_storage_dir), opt_view(p.cache_storage_dir)))
            &&& p.unstable_features@ == enabled_ids(registry@, approved@)
            &&& p.main_module == main_module
            &&& p.mode == mode
            &&& p.deno_version == shared.version
            &&& p.args == shared.argv
            &&& p.argv0 == shared.argv0
            &&& p.cpu_count == cpu_count_of(host.available_parallelism)
            &&& p.log_level == shared.log_level
            &&& p.enable_op_summary_metrics == shared.enable_op_summary_metrics
            &&& p.enable_testing_features == shared.enable_testing_features
            &&& p.locale == host.locale
            &&& p.location == shared.location
            &&& p.no_color == !host.use_color
            &&& p.is_stdout_tty == host.is_stdout_tty
            &&& p.is_stderr_tty == host.is_stderr_tty
            &&& p.color_level == host.color_level
            &&& p.user_agent == shared.user_agent
            &&& p.inspect == shared.is_inspecting
            &&& p.has_node_modules_dir == shared.has_node_modules_dir
            &&& p.node_debug == shared.node_debug
            &&& p.node_ipc_fd == shared.node_ipc_fd
            &&& p.serve_port == shared.serve_port
            &&& p.serve_host == shared.serve_host
            &&& p.seed == config.seed
            &&& p.allow_all == config.allow_all
            &&& p.code_cache_enabled == config.code_cache_enabled
            &&& p.unsafely_ignore_certificate_errors == shared.unsafely_ignore_certificate_errors
            &&& p.should_break_on_first_statement == shared.inspect_brk
            &&& p.should_wait_for_inspector_session == shared.inspect_wait
            &&& p.strace_ops == shared.strace_ops
            &&& p.skip_op_registration == shared.skip_op_registration
        },
{
    let maybe_key = resolver.resolve_storage_key(main_module.as_str());
    let dirs = match derive_storage_dirs(&maybe_key, &shared.origin_data_folder, cache_storage_root) {
        Ok(d) => d,
        Err(StorageError::MissingOriginDataFolder) => {
            return Err(AssembleError::MissingOriginDataFolder);
        },
    };
    let unstable_features = collect_unstable_features(registry, approved);
    let cpu_count = match host.available_parallelism {
        Some(n) => n,
        None => 1,
    };
    Ok(BootstrapPlan {
        main_module,
        mode,
        deno_version: shared.version,
        args: shared.argv,
        argv0: shared.argv0,
        cpu_count,
        log_level: shared.log_level,
        enable_op_summary_metrics: shared.enable_op_summary_metrics,
        enable_testing_features: shared.enable_testing_features,
        locale: host.locale,
        location: shared.location,
        no_color: !host.use_color,
        is_stdout_tty: host.is_stdout_tty,
        is_stderr_tty: host.is_stderr_tty,
        color_level: host.color_level,
        unstable_features,
        user_agent: shared.user_agent,
        inspect: shared.is_inspecting,
        has_node_modules_dir: shared.has_node_modules_dir,
        node_debug: shared.node_debug,
        node_ipc_fd: shared.node_ipc_fd,
        serve_port: shared.serve_port,
        serve_host: shared.serve_host,
        seed: config.seed,
        allow_all: config.allow_all,
        code_cache_enabled: config.code_cache_enabled,
        unsafely_ignore_certificate_errors: shared.unsafely_ignore_certificate_errors,
        should_break_on_first_statement: shared.inspect_brk,
        should_wait_for_inspector_session: shared.inspect_wait,
        strace_ops: shared.strace_ops,
        skip_op_registration: shared.skip_op_registration,
        origin_storage_dir: dirs.origin_storage_dir,
        cache_storage_dir: dirs.cache_storage_dir,
    })
}

} // verus!
