use yaab::commands::{bootstrap_required, plan_bootstrap, YCommand};
use yaab::config::WsConfigData;
use yaab::envmap::EnvMap;
use yaab::error::BError;
use yaab::executers::ExecPlan;
use yaab::shell::{ShellAction, ShellArgs, ShellCommand};
use yaab::variant::Variant;
use yaab::workspace::{Workspace, WsSettings};

fn settings(docker_disabled: bool) -> WsSettings {
    WsSettings::new(
        "/work".to_string(),
        "registry/yaab:1.0".to_string(),
        docker_disabled,
        vec!["--rm".to_string()],
        "/top".to_string(),
    )
}

fn workspace(docker_disabled: bool) -> Workspace {
    let config = WsConfigData::new(
        "5".to_string(),
        "cfg".to_string(),
        "$#[WORK_DIR]/build/envsetup.sh".to_string(),
    );
    Workspace::new(
        settings(docker_disabled),
        config,
        "product".to_string(),
        vec!["cfg".to_string()],
    )
}

fn shell_args(config: &str, cmd: &str) -> ShellArgs {
    ShellArgs {
        config: config.to_string(),
        docker: String::new(),
        volumes: Vec::new(),
        env: Vec::new(),
        cmd: cmd.to_string(),
        docker_pull: false,
        variant: Variant::USERDEBUG,
    }
}

fn orig_line() -> Vec<String> {
    vec!["yaab".to_string(), "shell".to_string(), "-c".to_string(), "cfg".to_string()]
}

#[test]
fn test_bootstrap_required_gate() {
    assert!(bootstrap_required(false, true, false));
    assert!(!bootstrap_required(true, true, false));
    assert!(!bootstrap_required(false, false, false));
    assert!(!bootstrap_required(false, true, true));
}

#[test]
fn test_execute_bootstraps_when_gate_open() {
    let cmd = ShellCommand::new();
    let mut ws = workspace(false);
    let r = cmd
        .execute(&shell_args("cfg", ""), &orig_line(), &EnvMap::new(), false, &mut ws)
        .unwrap();
    match r {
        ShellAction::Bootstrap { cmd_line, interactive, pull_first, .. } => {
            assert_eq!(cmd_line, orig_line());
            assert!(interactive);
            assert!(!pull_first);
        },
        _ => panic!("the open gate must bootstrap"),
    }
}

#[test]
fn test_execute_runs_natively_inside_container() {
    let cmd = ShellCommand::new();
    let mut ws = workspace(false);
    let r = cmd
        .execute(&shell_args("NA", ""), &orig_line(), &EnvMap::new(), true, &mut ws)
        .unwrap();
    assert!(matches!(r, ShellAction::Run(_)));
}

#[test]
fn test_execute_rebuilds_command_line_for_run_cmd() {
    let cmd = ShellCommand::new();
    let mut ws = workspace(false);
    let args = ShellArgs {
        config: "cfg".to_string(),
        docker: "img:1".to_string(),
        volumes: vec!["a:b".to_string()],
        env: vec!["K=V".to_string()],
        cmd: "ls -la".to_string(),
        docker_pull: true,
        variant: Variant::ENG,
    };
    let r = cmd
        .execute(&args, &orig_line(), &EnvMap::new(), false, &mut ws)
        .unwrap();
    match r {
        ShellAction::Bootstrap { cmd_line, volumes, pull_first, .. } => {
            let expected: Vec<String> = vec![
                "yaab", "shell", "-c", "cfg", "-d", "img:1", "-a", "eng", "-v", "a:b", "-e",
                "K=V", "-r", "\"ls -la\"",
            ]
            .iter()
            .map(|s| s.to_string())
            .collect();
            assert_eq!(cmd_line, expected);
            assert_eq!(volumes, vec!["a:b".to_string()]);
            assert!(pull_first);
        },
        _ => panic!("the open gate must bootstrap"),
    }
}

#[test]
fn test_execute_sentinel_config_opens_bare_shell() {
    let cmd = ShellCommand::new();
    let mut ws = workspace(true);
    let r = cmd
        .execute(&shell_args("NA", ""), &orig_line(), &EnvMap::new(), false, &mut ws)
        .unwrap();
    match r {
        ShellAction::Run(ExecPlan::Native { cmd_line, env }) => {
            assert_eq!(cmd_line, vec!["/bin/bash".to_string(), "-i".to_string()]);
            assert!(env.entries().is_empty());
        },
        _ => panic!("the sentinel configuration opens a bare native shell"),
    }
}

#[test]
fn test_execute_rejects_unknown_config() {
    let cmd = ShellCommand::new();
    let mut ws = workspace(true);
    let err = cmd
        .execute(&shell_args("nope", ""), &orig_line(), &EnvMap::new(), false, &mut ws)
        .unwrap_err();
    assert!(matches!(err, BError::UnsupportedConfig(_)));
}

#[test]
fn test_execute_expands_workspace_and_builds_env() {
    let cmd = ShellCommand::new();
    let mut ws = workspace(true);
    let mut inherited = EnvMap::new();
    inherited.insert("PATH".to_string(), "/bin".to_string());
    inherited.insert("YAAB_BUILD_CONFIG".to_string(), "stale".to_string());
    let mut args = shell_args("cfg", "");
    args.env = vec!["EXTRA=1".to_string()];
    let r = cmd.execute(&args, &orig_line(), &inherited, false, &mut ws).unwrap();
    assert_eq!(ws.config().init_env(), "/work/build/envsetup.sh");
    match r {
        ShellAction::Run(ExecPlan::Native { cmd_line, env }) => {
            assert_eq!(cmd_line, vec!["/bin/bash".to_string(), "-i".to_string()]);
            assert_eq!(env.get("PATH").unwrap(), "/bin");
            assert_eq!(env.get("EXTRA").unwrap(), "1");
            assert_eq!(env.get("YAAB_WORKSPACE_DIR").unwrap(), "/work");
            assert_eq!(env.get("YAAB_BUILD_CONFIG").unwrap(), "cfg");
            assert_eq!(env.get("YAAB_BUILD_VARIANT").unwrap(), "userdebug");
            assert_eq!(env.get("YAAB_PRODUCT_NAME").unwrap(), "product");
        },
        _ => panic!("expected a native session plan"),
    }
}

#[test]
fn test_execute_run_cmd_quotes_command() {
    let cmd = ShellCommand::new();
    let mut ws = workspace(true);
    let r = cmd
        .execute(&shell_args("cfg", "make all"), &orig_line(), &EnvMap::new(), false, &mut ws)
        .unwrap();
    match r {
        ShellAction::Run(ExecPlan::Native { cmd_line, .. }) => {
            let expected: Vec<String> = vec!["/bin/bash", "-i", "-c", "\"make all\""]
                .iter()
                .map(|s| s.to_string())
                .collect();
            assert_eq!(cmd_line, expected);
        },
        _ => panic!("expected a native session plan"),
    }
}

#[test]
fn test_execute_docker_session_uses_image() {
    let cmd = ShellCommand::new();
    let mut ws = workspace(true);
    let mut args = shell_args("cfg", "");
    args.docker = "img:2".to_string();
    let r = cmd.execute(&args, &orig_line(), &EnvMap::new(), false, &mut ws).unwrap();
    match r {
        ShellAction::Run(ExecPlan::Container { image, work_dir, interactive, .. }) => {
            assert_eq!(image, "img:2");
            assert_eq!(work_dir, "/work");
            assert!(interactive);
        },
        _ => panic!("a session with an image runs in a container"),
    }
}

#[test]
fn test_execute_unresolved_template_fails() {
    let cmd = ShellCommand::new();
    let config = WsConfigData::new("5".to_string(), "cfg".to_string(), "$#[NOPE]".to_string());
    let mut ws = Workspace::new(
        settings(true),
        config,
        "product".to_string(),
        vec!["cfg".to_string()],
    );
    let err = cmd
        .execute(&shell_args("cfg", ""), &orig_line(), &EnvMap::new(), false, &mut ws)
        .unwrap_err();
    assert!(matches!(err, BError::ContextExpansionError(_)));
}

#[test]
fn test_plan_bootstrap_requires_engine() {
    let ws = workspace(false);
    let err = plan_bootstrap(false, &orig_line(), &EnvMap::new(), &ws, &Vec::new(), true)
        .unwrap_err();
    assert!(matches!(err, BError::ContainerEngineMissing));
}

#[test]
fn test_plan_bootstrap_launch_data() {
    let ws = workspace(false);
    let mut env = EnvMap::new();
    env.insert("HOME".to_string(), "/root".to_string());
    let volumes = vec!["v:w".to_string()];
    let plan = plan_bootstrap(true, &orig_line(), &env, &ws, &volumes, true).unwrap();
    assert_eq!(plan.image, "registry/yaab:1.0");
    assert_eq!(plan.cmd_line, orig_line());
    assert_eq!(plan.env.get("HOME").unwrap(), "/root");
    assert_eq!(plan.top_dir, "/top");
    assert_eq!(plan.work_dir, "/work");
    assert_eq!(plan.docker_args, vec!["--rm".to_string()]);
    assert_eq!(plan.volumes, volumes);
    assert!(plan.interactive);
}

#[test]
fn test_setup_context_parses_pairs() {
    let cmd = ShellCommand::new();
    assert_eq!(cmd.cmd_str(), "shell");
    assert!(cmd.is_docker_required());
    assert_eq!(cmd.get_config_name(), "default");
    let ctx = cmd.setup_context(vec!["A=1".to_string(), "B=2".to_string()]);
    assert_eq!(ctx.get("A").unwrap(), "1");
    assert_eq!(ctx.get("B").unwrap(), "2");
}

#[test]
fn test_workspace_valid_config() {
    let ws = workspace(true);
    assert!(ws.valid_config("cfg"));
    assert!(!ws.valid_config("other"));
}
