use tiptune_sidecar::environment::{build_sidecar_env, decimal_string, EnvVar};

fn lookup<'a>(vars: &'a [EnvVar], name: &str) -> Vec<&'a str> {
    vars.iter().filter(|v| v.name == name).map(|v| v.value.as_str()).collect()
}

fn pairs(vars: &[EnvVar]) -> Vec<(String, String)> {
    vars.iter().map(|v| (v.name.clone(), v.value.clone())).collect()
}

#[test]
fn decimal_string_writes_digits() {
    assert_eq!(decimal_string(0), "0");
    assert_eq!(decimal_string(7), "7");
    assert_eq!(decimal_string(10), "10");
    assert_eq!(decimal_string(4242), "4242");
    assert_eq!(decimal_string(u32::MAX), "4294967295");
}

#[test]
fn log_level_defaults_to_info() {
    let vars = build_sidecar_env(1234, None, None, None);
    assert_eq!(lookup(&vars, "TIPTUNE_LOG_LEVEL"), vec!["INFO"]);
}

#[test]
fn log_level_override_is_preserved() {
    let vars = build_sidecar_env(1234, Some("DEBUG".to_string()), None, None);
    assert_eq!(lookup(&vars, "TIPTUNE_LOG_LEVEL"), vec!["DEBUG"]);
}

#[test]
fn log_path_is_derived_from_app_data_dir() {
    let vars = build_sidecar_env(1, None, None, Some("/home/u/.local/share/tiptune".to_string()));
    assert_eq!(
        lookup(&vars, "TIPTUNE_DEFAULT_LOG_PATH"),
        vec!["/home/u/.local/share/tiptune/tiptune-sidecar.log"]
    );
}

#[test]
fn log_path_override_is_preserved_verbatim() {
    let vars = build_sidecar_env(
        1,
        None,
        Some("C:\\logs\\mine.log".to_string()),
        Some("/data".to_string()),
    );
    assert_eq!(lookup(&vars, "TIPTUNE_DEFAULT_LOG_PATH"), vec!["C:\\logs\\mine.log"]);
    assert!(vars.iter().all(|v| v.value != "/data/tiptune-sidecar.log"));
}

#[test]
fn log_path_is_left_out_without_dir_or_override() {
    let vars = build_sidecar_env(1, None, None, None);
    assert!(lookup(&vars, "TIPTUNE_DEFAULT_LOG_PATH").is_empty());
    assert_eq!(vars.len(), 4);
}

#[test]
fn environment_lists_every_entry_in_order() {
    let vars = build_sidecar_env(987654, Some("WARNING".to_string()), None, Some("/d".to_string()));
    let expected: Vec<(String, String)> = vec![
        ("TIPTUNE_PARENT_PID".to_string(), "987654".to_string()),
        ("TIPTUNE_WEB_HOST".to_string(), "127.0.0.1".to_string()),
        ("TIPTUNE_WEB_PORT".to_string(), "8765".to_string()),
        ("TIPTUNE_LOG_LEVEL".to_string(), "WARNING".to_string()),
        ("TIPTUNE_DEFAULT_LOG_PATH".to_string(), "/d/tiptune-sidecar.log".to_string()),
    ];
    assert_eq!(pairs(&vars), expected);
}

#[test]
fn parent_pid_is_always_set() {
    let vars = build_sidecar_env(0, Some("X".to_string()), Some("p".to_string()), None);
    assert_eq!(lookup(&vars, "TIPTUNE_PARENT_PID"), vec!["0"]);
}
