use yaab::envmap::EnvMap;
use yaab::executers::{BuildExecuter, CleanExecuter, ExecPlan, TaskExecuter};
use yaab::task::WsTaskData;

fn task_from(json_task_config: &str, work_dir: &str) -> WsTaskData {
    WsTaskData::from_str(json_task_config, work_dir).expect("Failed to parse task config")
}

#[test]
fn test_yaab_executer() {
    let work_dir = "/yaab-test-dir";
    let build_dir = "/yaab-test-dir/test-dir";
    let env_variables = EnvMap::new();
    let json_task_config: &str = r#"
        {
            "index": "1",
            "name": "task-name",
            "builddir": "test-dir",
            "build": "test.sh",
            "clean": "rm -rf test-dir"
        }"#;
    let task_data = task_from(json_task_config, work_dir);
    let inherited = EnvMap::new();
    let executer = BuildExecuter::new(&inherited, &task_data);
    let plan = executer
        .exec(&env_variables, false, true)
        .expect("Failed to execute task");
    match plan {
        ExecPlan::Native { cmd_line, env } => {
            let expected: Vec<String> = vec!["cd", build_dir, "&&", "test.sh"]
                .iter()
                .map(|s| s.to_string())
                .collect();
            assert_eq!(cmd_line, expected);
            assert!(env.entries().is_empty());
        },
        _ => panic!("expected a native plan"),
    }
}

#[test]
fn test_yaab_executer_dry_run() {
    let work_dir = "/yaab-test-dir";
    let env_variables = EnvMap::new();
    let json_task_config: &str = r#"
        {
            "index": "1",
            "name": "task-name",
            "builddir": "test-dir",
            "build": "test.sh",
            "clean": "rm -rf test-dir"
        }"#;
    let task_data = task_from(json_task_config, work_dir);
    let inherited = EnvMap::new();
    let executer = BuildExecuter::new(&inherited, &task_data);
    let plan = executer
        .exec(&env_variables, true, true)
        .expect("Failed to execute task");
    match plan {
        ExecPlan::Skip { info } => assert_eq!(info, "Dry run. Skipping build!"),
        _ => panic!("a dry run must execute nothing"),
    }
}

#[test]
fn test_yaab_clean_executer() {
    let work_dir = "/yaab-test-dir";
    let build_dir = "/yaab-test-dir/test-dir";
    let env_variables = EnvMap::new();
    let json_task_config: &str = r#"
        {
            "index": "1",
            "name": "task-name",
            "builddir": "test-dir",
            "build": "test.sh",
            "clean": "rm -rf dir-to-delete"
        }"#;
    let task_data = task_from(json_task_config, work_dir);
    let executer = CleanExecuter::new(&task_data);
    let plan = executer
        .exec(&env_variables, false, true)
        .expect("Failed to execute task");
    match plan {
        ExecPlan::Native { cmd_line, env } => {
            let expected: Vec<String> = vec!["cd", build_dir, "&&", "rm", "-rf", "dir-to-delete"]
                .iter()
                .map(|s| s.to_string())
                .collect();
            assert_eq!(cmd_line, expected);
            assert!(env.entries().is_empty());
        },
        _ => panic!("expected a native plan"),
    }
}

#[test]
fn test_yaab_clean_executer_ignores_dry_run() {
    let task_data = task_from(
        r#"{"name": "t", "builddir": "d", "build": "b.sh", "clean": "c.sh"}"#,
        "/w",
    );
    let executer = CleanExecuter::new(&task_data);
    let plan = executer.exec(&EnvMap::new(), true, false).unwrap();
    assert!(matches!(plan, ExecPlan::Native { .. }));
}

#[test]
fn test_yaab_executer_docker_task() {
    let json_task_config: &str = r#"
        {
            "index": "1",
            "name": "task-name",
            "docker": "test-registry/task-docker:0.1",
            "builddir": "test-dir",
            "build": "test.sh",
            "clean": "rm -rf test-dir"
        }"#;
    let task_data = task_from(json_task_config, "/yaab-test-dir");
    let inherited = EnvMap::new();
    let executer = BuildExecuter::new(&inherited, &task_data);
    let plan = executer.exec(&EnvMap::new(), false, true).unwrap();
    match plan {
        ExecPlan::Container { image, cmd_line, work_dir, interactive, .. } => {
            assert_eq!(image, "test-registry/task-docker:0.1");
            assert_eq!(cmd_line[0], "cd");
            assert_eq!(cmd_line[1], "/yaab-test-dir/test-dir");
            assert_eq!(work_dir, "/yaab-test-dir/test-dir");
            assert!(interactive);
        },
        _ => panic!("a task with an image must run in a container"),
    }
}

#[test]
fn test_yaab_executer_sentinel_image_is_native() {
    let task_data = task_from(
        r#"{"name": "t", "builddir": "d", "build": "b.sh", "clean": "c.sh", "docker": "NA"}"#,
        "/w",
    );
    assert!(!task_data.requires_container());
    let inherited = EnvMap::new();
    let executer = BuildExecuter::new(&inherited, &task_data);
    let plan = executer.exec(&EnvMap::new(), false, false).unwrap();
    assert!(matches!(plan, ExecPlan::Native { .. }));
}

#[test]
fn test_build_native_env_overrides_inherited() {
    let mut inherited = EnvMap::new();
    inherited.insert("A".to_string(), "parent".to_string());
    inherited.insert("B".to_string(), "kept".to_string());
    let mut overrides = EnvMap::new();
    overrides.insert("A".to_string(), "override".to_string());
    let task_data = task_from(
        r#"{"name": "t", "builddir": "d", "build": "b.sh", "clean": "c.sh"}"#,
        "/w",
    );
    let executer = BuildExecuter::new(&inherited, &task_data);
    let plan = executer.exec(&overrides, false, false).unwrap();
    match plan {
        ExecPlan::Native { env, .. } => {
            assert_eq!(env.get("A").unwrap(), "override");
            assert_eq!(env.get("B").unwrap(), "kept");
        },
        _ => panic!("expected a native plan"),
    }
}

#[test]
fn test_task_parse_missing_field_fails() {
    let err = WsTaskData::from_str(r#"{"name": "t", "builddir": "d"}"#, "/w").unwrap_err();
    assert!(matches!(err, yaab::error::BError::ConfigParseError(_)));
}
