use codex_sandbox_server::startup::{
    resolve_linux_sandbox_exe, resolve_startup, ProxyConfig, Sibling, Startup, StartupInputs,
};
use codex_sandbox_server::Args;
use std::path::PathBuf;

type Inputs = StartupInputs<u8, &'static str, &'static str, u16>;

fn inputs() -> Inputs {
    StartupInputs {
        permission_profile: Ok(1),
        cwd: Ok("/workspace"),
        codex_linux_sandbox_exe: Ok(Some("/opt/codex-linux-sandbox")),
        network_proxy_config: None,
    }
}

fn why() -> String {
    "why".to_string()
}

#[test]
fn the_service_starts_with_what_it_was_given() {
    assert_eq!(
        resolve_startup(inputs()),
        Ok(Startup {
            permission_profile: 1,
            cwd: "/workspace",
            codex_linux_sandbox_exe: Some("/opt/codex-linux-sandbox"),
            network_proxy_config: None,
        })
    );
}

#[test]
fn a_proxy_that_is_switched_off_is_not_used() {
    let config = |enabled| Some(Ok(ProxyConfig { config: 9, enabled }));
    let on = StartupInputs { network_proxy_config: config(true), ..inputs() };
    assert_eq!(resolve_startup(on).expect("started").network_proxy_config, Some(9));
    let off = StartupInputs { network_proxy_config: config(false), ..inputs() };
    assert_eq!(resolve_startup(off).expect("started").network_proxy_config, None);
}

#[test]
fn the_first_error_is_reported() {
    let all = || StartupInputs {
        permission_profile: Err(why()),
        cwd: Err("cwd".to_string()),
        codex_linux_sandbox_exe: Err("helper".to_string()),
        network_proxy_config: Some(Err(why())),
    };
    let message = |inputs: Inputs| resolve_startup(inputs).err().expect("refused");
    assert_eq!(message(all()), "invalid --permission-profile-json: why");
    assert_eq!(message(StartupInputs { permission_profile: Ok(1), ..all() }), "cwd");
    assert_eq!(
        message(StartupInputs { permission_profile: Ok(1), cwd: Ok("/"), ..all() }),
        "helper"
    );
    assert_eq!(
        message(StartupInputs { network_proxy_config: Some(Err(why())), ..inputs() }),
        "invalid --network-proxy-config-json: why"
    );
}

#[test]
fn the_helper_is_given_or_found_beside_the_service() {
    let sibling = |is_file| Ok(Some(Sibling { path: "/opt/sibling", is_file }));
    assert_eq!(
        resolve_linux_sandbox_exe(Some(Ok("/opt/given")), sibling(true)),
        Ok(Some("/opt/given"))
    );
    assert_eq!(resolve_linux_sandbox_exe(Some(Err(why())), sibling(true)), Err(why()));
    assert_eq!(resolve_linux_sandbox_exe(None, sibling(true)), Ok(Some("/opt/sibling")));
    assert_eq!(resolve_linux_sandbox_exe(None, sibling(false)), Ok(None));
    assert_eq!(resolve_linux_sandbox_exe::<&str>(None, Ok(None)), Ok(None));
    assert_eq!(resolve_linux_sandbox_exe::<&str>(None, Err(why())), Err(why()));
}

#[test]
fn arguments_hold_the_command_line() {
    let args = Args {
        permission_profile_json: "{\"type\":\"disabled\"}".to_string(),
        uds: Some(PathBuf::from("/tmp/sandbox.sock")),
        cwd: None,
        codex_linux_sandbox_exe: None,
        network_proxy_config_json: None,
    };
    assert_eq!(args.uds, Some(PathBuf::from("/tmp/sandbox.sock")));
    assert_eq!(args.cwd, None);
}
