use vstd::prelude::*;
use crate::features::{FeatureFlag, enabled_ids};
use crate::options::{
    AssembleError, BootstrapPlan, ExecutionMode, HostInfo, RunConfiguration, SharedSettings,
    assemble_bootstrap,
};
use crate::storage::{StorageKeyResolver, derived_dirs, opt_view};
use crate::vfs::{IdentityError, STDIN_SPECIFIER, VirtualFileRegistry, register_stdin_source, resolved_identity};

verus! {

/// Why a run from standard input could not be prepared.
#[derive(Debug, PartialEq, Eq, Structural)]
pub enum PrepareError {
    /// The stdin specifier gives no module identity.
    Identity(IdentityError),
    /// The configuration of the isolate is inconsistent.
    Config(AssembleError),
}

/// Prepares a run of the script read from standard input: registers its
/// bytes under the identity that the stdin specifier resolves to against
/// `current_dir`, then assembles the configuration of an isolate that runs
/// that identity as its main module.
pub fn prepare_stdin_run(
    registry: &mut VirtualFileRegistry,
    current_dir: &str,
    source: Vec<u8>,
    config: &RunConfiguration,
    shared: SharedSettings,
    host: HostInfo,
    features: &Vec<FeatureFlag>,
    approved: &Vec<bool>,
    resolver: &StorageKeyResolver,
    cache_storage_root: &str,
) -> (r: Result<BootstrapPlan, PrepareError>)
    requires
        approved.len() == features.len(),
    ensures
        resolved_identity(STDIN_SPECIFIER@, current_dir@) is None ==> r == Err::<BootstrapPlan, PrepareError>(
            PrepareError::Identity(IdentityError::InvalidPath),
        ) && final(registry).files@ == old(registry).files@,
        resolved_identity(STDIN_SPECIFIER@, current_dir@) matches Some(id) ==> {
            &&& final(registry).lookup(id) matches Some(f) && f.source@ == source@
                && f.maybe_headers is None
            &&& r is Err <==> derived_dirs(
                resolver.key_for(id),
                opt_view(shared.origin_data_folder),
                cache_storage_root@,
            ) is None
            &&& r is Err ==> r == Err::<BootstrapPlan, PrepareError>(
                PrepareError::Config(AssembleError::MissingOriginDataFolder),
            )
            &&& r matches Ok(p) ==> p.main_module@ == id && p.mode == ExecutionMode::Run
                && p.unstable_features@ == enabled_ids(features@, approved@)
                && p.seed == config.seed && p.code_cache_enabled == config.code_cache_enabled
        },
{
    let main_module = match register_stdin_source(registry, current_dir, source) {
        Ok(id) => id,
        Err(e) => {
            return Err(PrepareError::Identity(e));
        },
    };
    match assemble_bootstrap(
        main_module,
        ExecutionMode::Run,
        config,
        shared,
        host,
        features,
        approved,
        resolver,
        cache_storage_root,
    ) {
        Ok(p) => Ok(p),
        Err(e) => Err(PrepareError::Config(e)),
    }
}

/// The text reported when a script uses a capability that was not enabled:
/// `Unstable API '<api>'. The ` + "`--unstable-<feature>`" + ` flag must be provided.`
pub open spec fn unstable_message(feature: Seq<char>, api_name: Seq<char>) -> Seq<char> {
    "Unstable API '"@ + api_name + "'. The `--unstable-"@ + feature + "` flag must be provided."@
}

/// Builds the diagnostic for a use of a capability that was not enabled.
pub fn unstable_exit_message(feature: &str, api_name: &str) -> (r: String)
    ensures
        r@ == unstable_message(feature@, api_name@),
{
    let mut msg = "Unstable API '".to_owned();
    msg.append(api_name);
    msg.append("'. The `--unstable-");
    msg.append(feature);
    msg.append("` flag must be provided.");
    msg
}

} // verus!
