use yaab::envmap::{env_from_args, merge_env, EnvMap};

fn env_of(pairs: &[(&str, &str)]) -> EnvMap {
    let mut m = EnvMap::new();
    for (k, v) in pairs {
        m.insert(k.to_string(), v.to_string());
    }
    m
}

#[test]
fn test_env_map_get_latest_binding_wins() {
    let m = env_of(&[("K", "old"), ("K", "new")]);
    assert_eq!(m.get("K").unwrap(), "new");
    assert!(m.get("MISSING").is_none());
}

#[test]
fn test_merged_over_overrides_base() {
    let base = env_of(&[("A", "base-a"), ("B", "base-b")]);
    let over = env_of(&[("B", "over-b"), ("C", "over-c")]);
    let merged = over.merged_over(&base);
    assert_eq!(merged.get("A").unwrap(), "base-a");
    assert_eq!(merged.get("B").unwrap(), "over-b");
    assert_eq!(merged.get("C").unwrap(), "over-c");
}

#[test]
fn test_merge_env_precedence_order() {
    let inherited = env_of(&[("P", "inherited"), ("Q", "inherited"), ("R", "inherited"), ("S", "inherited")]);
    let sourced = env_of(&[("Q", "sourced"), ("R", "sourced"), ("S", "sourced")]);
    let cli = env_of(&[("R", "cli"), ("S", "cli")]);
    let derived = env_of(&[("S", "derived")]);
    let merged = merge_env(&inherited, &sourced, &cli, &derived);
    assert_eq!(merged.get("P").unwrap(), "inherited");
    assert_eq!(merged.get("Q").unwrap(), "sourced");
    assert_eq!(merged.get("R").unwrap(), "cli");
    assert_eq!(merged.get("S").unwrap(), "derived");
}

#[test]
fn test_env_from_args() {
    let args = vec!["A=1".to_string(), "B=two".to_string(), "A=3".to_string()];
    let m = env_from_args(&args);
    assert_eq!(m.get("A").unwrap(), "3");
    assert_eq!(m.get("B").unwrap(), "two");
}

#[test]
fn test_env_from_args_empty_value() {
    let args = vec!["EMPTY=".to_string()];
    let m = env_from_args(&args);
    assert_eq!(m.get("EMPTY").unwrap(), "");
}

#[test]
fn test_duplicate_keeps_bindings() {
    let m = env_of(&[("A", "1"), ("B", "2")]);
    let d = m.duplicate();
    assert_eq!(d.get("A").unwrap(), "1");
    assert_eq!(d.get("B").unwrap(), "2");
}
