//! The start of the service: its command line and what is made of it.

use crate::text::joined;
use std::path::PathBuf;
use vstd::prelude::*;
use vstd::string::*;

verus! {

/// Runs Codex command execution behind stdio and an optional same-UID UDS.
#[derive(Debug)]
pub struct Args {
    /// Fully materialized permission profile JSON.
    pub permission_profile_json: String,
    /// Optional absolute UDS path. The socket uses WebSocket framing.
    pub uds: Option<PathBuf>,
    /// Default cwd used for relative command/exec cwd values.
    pub cwd: Option<PathBuf>,
    /// Path to the codex-linux-sandbox helper.
    pub codex_linux_sandbox_exe: Option<PathBuf>,
    /// Optional network proxy configuration JSON.
    pub network_proxy_config_json: Option<String>,
}

/// A parsed network proxy configuration.
pub struct ProxyConfig<Config> {
    pub config: Config,
    /// Whether the proxy is switched on.
    pub enabled: bool,
}

/// A file beside the service's own executable.
pub struct Sibling<Path> {
    pub path: Path,
    pub is_file: bool,
}

/// What the command line was found to say; each error comes with its reason.
pub struct StartupInputs<Profile, Path, Helper, Config> {
    pub permission_profile: Result<Profile, String>,
    pub cwd: Result<Path, String>,
    pub codex_linux_sandbox_exe: Result<Option<Helper>, String>,
    pub network_proxy_config: Option<Result<ProxyConfig<Config>, String>>,
}

/// What the service runs with.
#[derive(Debug, Clone, PartialEq, Eq)]
pub struct Startup<Profile, Path, Helper, Config> {
    pub permission_profile: Profile,
    pub cwd: Path,
    pub codex_linux_sandbox_exe: Option<Helper>,
    pub network_proxy_config: Option<Config>,
}

/// Why the service does not start: the first of these that holds.
pub open spec fn startup_error<Profile, Path, Helper, Config>(
    inputs: StartupInputs<Profile, Path, Helper, Config>,
) -> Option<Seq<char>> {
    match (inputs.permission_profile, inputs.cwd, inputs.codex_linux_sandbox_exe) {
        (Err(reason), _, _) => Some("invalid --permission-profile-json: "@ + reason@),
        (_, Err(reason), _) => Some(reason@),
        (_, _, Err(reason)) => Some(reason@),
        _ => match inputs.network_proxy_config {
            Some(Err(reason)) => Some("invalid --network-proxy-config-json: "@ + reason@),
            _ => None,
        },
    }
}

/// The proxy configuration, if it is switched on.
pub open spec fn enabled_config<Config>(
    config: Option<Result<ProxyConfig<Config>, String>>,
) -> Option<Config> {
    match config {
        Some(Ok(parsed)) if parsed.enabled => Some(parsed.config),
        _ => None,
    }
}

/// Whether this is what the service makes of its command line.
pub open spec fn starts_up<Profile, Path, Helper, Config>(
    inputs: StartupInputs<Profile, Path, Helper, Config>,
    result: Result<Startup<Profile, Path, Helper, Config>, String>,
) -> bool {
    match result {
        Err(reason) => startup_error(inputs) == Some(reason@),
        Ok(startup) => {
            &&& startup_error(inputs) is None
            &&& inputs.permission_profile == Ok::<Profile, String>(startup.permission_profile)
            &&& inputs.cwd == Ok::<Path, String>(startup.cwd)
            &&& inputs.codex_linux_sandbox_exe == Ok::<Option<Helper>, String>(
                startup.codex_linux_sandbox_exe,
            )
            &&& startup.network_proxy_config == enabled_config(inputs.network_proxy_config)
        },
    }
}

/// Whether this is the sandbox helper that the service finds.
pub open spec fn finds_helper<Path>(
    explicit: Option<Result<Path, String>>,
    sibling: Result<Option<Sibling<Path>>, String>,
    result: Result<Option<Path>, String>,
) -> bool {
    match (explicit, sibling) {
        (Some(Ok(path)), _) => result == Ok::<Option<Path>, String>(Some(path)),
        (Some(Err(reason)), _) => result == Err::<Option<Path>, String>(reason),
        (None, Err(reason)) => result == Err::<Option<Path>, String>(reason),
        (None, Ok(Some(found))) if found.is_file => result == Ok::<Option<Path>, String>(
            Some(found.path),
        ),
        (None, Ok(_)) => result == Ok::<Option<Path>, String>(None),
    }
}

/// Decides whether the service starts, and with what.
pub fn resolve_startup<Profile, Path, Helper, Config>(
    inputs: StartupInputs<Profile, Path, Helper, Config>,
) -> (result: Result<Startup<Profile, Path, Helper, Config>, String>)
    ensures
        match startup_error(inputs) {
            Some(message) => result matches Err(reason) && reason@ == message,
            None => result == Ok::<Startup<Profile, Path, Helper, Config>, String>(
                (Startup {
                    permission_profile: inputs.permission_profile->Ok_0,
                    cwd: inputs.cwd->Ok_0,
                    codex_linux_sandbox_exe: inputs.codex_linux_sandbox_exe->Ok_0,
                    network_proxy_config: enabled_config(inputs.network_proxy_config),
                }),
            ),
        },
        starts_up(inputs, result),
{
    let permission_profile = match inputs.permission_profile {
        Ok(profile) => profile,
        Err(reason) => {
            return Err(joined("invalid --permission-profile-json: ", reason.as_str()));
        },
    };
    let cwd = match inputs.cwd {
        Ok(cwd) => cwd,
        Err(reason) => {
            return Err(reason);
        },
    };
    let codex_linux_sandbox_exe = match inputs.codex_linux_sandbox_exe {
        Ok(path) => path,
        Err(reason) => {
            return Err(reason);
        },
    };
    let network_proxy_config = match inputs.network_proxy_config {
        None => None,
        Some(Err(reason)) => {
            return Err(joined("invalid --network-proxy-config-json: ", reason.as_str()));
        },
        Some(Ok(parsed)) => {
            if parsed.enabled {
                Some(parsed.config)
            } else {
                None
            }
        },
    };
    Ok(Startup { permission_profile, cwd, codex_linux_sandbox_exe, network_proxy_config })
}

/// Finds the sandbox helper: the given path, or else the file of its name beside
/// the service's own executable, if there is one.
pub fn resolve_linux_sandbox_exe<Path>(
    explicit: Option<Result<Path, String>>,
    sibling: Result<Option<Sibling<Path>>, String>,
) -> (result: Result<Option<Path>, String>)
    ensures
        match explicit {
            Some(Ok(path)) => result == Ok::<Option<Path>, String>(Some(path)),
            Some(Err(reason)) => result == Err::<Option<Path>, String>(reason),
            None => match sibling {
                Err(reason) => result == Err::<Option<Path>, String>(reason),
                Ok(Some(found)) if found.is_file => result == Ok::<Option<Path>, String>(
                    Some(found.path),
                ),
                Ok(_) => result == Ok::<Option<Path>, String>(None),
            },
        },
        finds_helper(explicit, sibling, result),
{
    match explicit {
        Some(Ok(path)) => Ok(Some(path)),
        Some(Err(reason)) => Err(reason),
        None => match sibling {
            Err(reason) => Err(reason),
            Ok(Some(found)) => {
                if found.is_file {
                    Ok(Some(found.path))
                } else {
                    Ok(None)
                }
            },
            Ok(None) => Ok(None),
        },
    }
}

/// The service starts exactly if all parts of its command line are usable, with
/// those very parts and with a network proxy exactly if one is given and switched
/// on; otherwise it names the first part that is not usable.
pub proof fn law_the_service_starts_with_what_it_is_given<Profile, Path, Helper, Config>(
    inputs: StartupInputs<Profile, Path, Helper, Config>,
    result: Result<Startup<Profile, Path, Helper, Config>, String>,
)
    requires
        starts_up(inputs, result),
    ensures
        ({
            let profile = inputs.permission_profile;
            let cwd = inputs.cwd;
            let helper = inputs.codex_linux_sandbox_exe;
            let proxy = inputs.network_proxy_config;
            &&& result is Ok <==> profile is Ok && cwd is Ok && helper is Ok && !(
            proxy matches Some(config) && config is Err)
            &&& profile matches Err(reason) ==> (result matches Err(message) && message@
                == "invalid --permission-profile-json: "@ + reason@)
            &&& profile is Ok ==> (cwd matches Err(reason) ==> (result matches Err(message)
                && message@ == reason@))
            &&& profile is Ok && cwd is Ok ==> (helper matches Err(reason) ==> (
            result matches Err(message) && message@ == reason@))
            &&& profile is Ok && cwd is Ok && helper is Ok ==> (proxy matches Some(Err(reason))
                ==> (result matches Err(message) && message@
                == "invalid --network-proxy-config-json: "@ + reason@))
            &&& result matches Ok(startup) ==> {
                &&& startup.permission_profile == profile->Ok_0
                &&& startup.cwd == cwd->Ok_0
                &&& startup.codex_linux_sandbox_exe == helper->Ok_0
                &&& proxy is None ==> startup.network_proxy_config is None
                &&& proxy matches Some(Ok(config)) ==> {
                    &&& config.enabled ==> startup.network_proxy_config == Some(config.config)
                    &&& !config.enabled ==> startup.network_proxy_config is None
                }
            }
        }),
{
}

/// A helper that is named is the one that is used; without a name it is the file
/// beside the service's own executable, if there is one.
pub proof fn law_a_named_helper_comes_first<Path>(
    explicit: Option<Result<Path, String>>,
    sibling: Result<Option<Sibling<Path>>, String>,
    result: Result<Option<Path>, String>,
)
    requires
        finds_helper(explicit, sibling, result),
    ensures
        explicit matches Some(Ok(path)) ==> (result matches Ok(Some(found)) && found == path),
        explicit matches Some(Err(reason)) ==> (result matches Err(told) && told == reason),
        explicit is None ==> {
            &&& sibling matches Err(reason) ==> (result matches Err(told) && told == reason)
            &&& sibling matches Ok(None) ==> (result matches Ok(None))
            &&& sibling matches Ok(Some(file)) ==> {
                &&& file.is_file ==> (result matches Ok(Some(found)) && found == file.path)
                &&& !file.is_file ==> (result matches Ok(None))
            }
        },
{
}

} // verus!
