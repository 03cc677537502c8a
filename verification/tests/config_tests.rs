use rtk_sync::cli::{ConfigArgs, InspectArgs, MachineIdArgs, ResetArgs, StatusArgs, SyncArgs};
use rtk_sync::config::{
    apply_config_args, default_config_content, first_string, inspect_config, machine_config,
    reset_config, resolve_db_path, resolve_state_path, status_config, sync_allow_insecure_http,
    sync_config, validate_endpoint,
    ConfigEnv, ConfigError, FileConfig,
};
use rtk_sync::env::EnvVars;

fn env_of(pairs: &[(&str, &str)]) -> ConfigEnv {
    ConfigEnv {
        vars: EnvVars {
            vars: pairs
                .iter()
                .map(|(k, v)| (k.to_string(), v.to_string()))
                .collect(),
        },
        default_db_path: "/default/rtk/history.db".to_string(),
        default_state_path: "/default/rtk-sync/state.json".to_string(),
    }
}

fn sync_args() -> SyncArgs {
    SyncArgs {
        config: None,
        db: None,
        state: None,
        endpoint: None,
        token_env: None,
        machine_id: None,
        batch_size: None,
        allow_insecure_http: false,
        dry_run: false,
    }
}

fn config_args() -> ConfigArgs {
    ConfigArgs {
        config: None,
        endpoint: None,
        token: None,
        token_env: None,
        machine_id: None,
        batch_size: None,
        interval: None,
        allow_insecure_http: None,
        db: None,
        state: None,
    }
}

#[test]
fn rejects_insecure_http_by_default() {
    assert!(validate_endpoint("http://127.0.0.1:8080", false).is_err());
}

#[test]
fn allows_insecure_http_when_flagged() {
    assert!(validate_endpoint("http://127.0.0.1:8080", true).is_ok());
}

#[test]
fn allows_https() {
    assert!(validate_endpoint("https://example.com/api", false).is_ok());
}

#[test]
fn config_db_overrides_default() {
    let file = FileConfig {
        db: Some("/tmp/history.db".to_string()),
        ..FileConfig::default()
    };
    assert_eq!(resolve_db_path(None, &file, &env_of(&[])), "/tmp/history.db".to_string());
}

#[test]
fn endpoint_other_schemes_are_refused_even_when_flagged() {
    assert_eq!(validate_endpoint("ftp://example.com", true), Err(ConfigError::InsecureEndpoint));
    assert_eq!(validate_endpoint("HTTPS://example.com", false), Err(ConfigError::InsecureEndpoint));
    assert_eq!(validate_endpoint("", true), Err(ConfigError::InsecureEndpoint));
}

#[test]
fn db_path_precedence_is_cli_env_file_default() {
    let file = FileConfig { db: Some("/file.db".to_string()), ..FileConfig::default() };
    let env = env_of(&[("RTK_DB_PATH", "/rtk.db"), ("RTK_SYNC_DB", "/sync.db")]);
    assert_eq!(resolve_db_path(Some("/cli.db".to_string()), &file, &env), "/cli.db");
    assert_eq!(resolve_db_path(None, &file, &env), "/sync.db");
    assert_eq!(resolve_db_path(None, &file, &env_of(&[("RTK_DB_PATH", "/rtk.db")])), "/rtk.db");
    assert_eq!(resolve_db_path(None, &file, &env_of(&[])), "/file.db");
    assert_eq!(resolve_db_path(None, &FileConfig::default(), &env_of(&[])), "/default/rtk/history.db");
}

#[test]
fn state_path_precedence_is_cli_env_file_default() {
    let file = FileConfig { state: Some("/file.json".to_string()), ..FileConfig::default() };
    let env = env_of(&[("RTK_SYNC_STATE", "/env.json")]);
    assert_eq!(resolve_state_path(Some("/cli.json".to_string()), &file, &env), "/cli.json");
    assert_eq!(resolve_state_path(None, &file, &env), "/env.json");
    assert_eq!(resolve_state_path(None, &file, &env_of(&[])), "/file.json");
    assert_eq!(
        resolve_state_path(None, &FileConfig::default(), &env_of(&[])),
        "/default/rtk-sync/state.json"
    );
}

#[test]
fn first_string_takes_first_present() {
    assert_eq!(first_string(None, Some("b".into()), Some("c".into())), Some("b".to_string()));
    assert_eq!(first_string(Some("a".into()), Some("b".into()), None), Some("a".to_string()));
    assert_eq!(first_string(None, None, Some("c".into())), Some("c".to_string()));
    assert_eq!(first_string(None, None, None), None);
}

#[test]
fn small_configs_resolve_paths_and_machine_id() {
    let file = FileConfig { machine_id: Some("from-file".to_string()), ..FileConfig::default() };
    let env = env_of(&[("RTK_SYNC_MACHINE_ID", "from-env")]);
    let inspect = inspect_config(InspectArgs { config: None, db: Some("/x.db".into()) }, &file, &env);
    assert_eq!(inspect.db_path, "/x.db");
    let machine = machine_config(
        MachineIdArgs { config: None, state: None, machine_id: None },
        &file,
        &env,
    );
    assert_eq!(machine.machine_id.as_deref(), Some("from-env"));
    assert_eq!(machine.state_path, "/default/rtk-sync/state.json");
    let machine = machine_config(
        MachineIdArgs { config: None, state: None, machine_id: None },
        &file,
        &env_of(&[]),
    );
    assert_eq!(machine.machine_id.as_deref(), Some("from-file"));
    assert_eq!(reset_config(ResetArgs { config: None, state: Some("/s.json".into()) }, &file, &env), "/s.json");
    let status = status_config(StatusArgs { config: None, db: None, state: None }, &file, &env);
    assert_eq!(status.db_path, "/default/rtk/history.db");
    assert_eq!(status.state_path, "/default/rtk-sync/state.json");
}

#[test]
fn sync_config_takes_token_from_named_env_var() {
    let file = FileConfig {
        endpoint: Some("https://example.com/api".to_string()),
        token_env: Some("MY_TOKEN".to_string()),
        token: Some("file-token".to_string()),
        ..FileConfig::default()
    };
    let env = env_of(&[("MY_TOKEN", "env-token"), ("RTK_SYNC_TOKEN", "other")]);
    let config = sync_config(sync_args(), &file, &env).expect("valid config");
    assert_eq!(config.token, "env-token");
    assert_eq!(config.token_env, "MY_TOKEN");
    assert_eq!(config.endpoint, "https://example.com/api");
    assert_eq!(config.batch_size, 100);
    assert_eq!(config.interval, 60);
    assert!(!config.dry_run);

    let config = sync_config(sync_args(), &file, &env_of(&[])).expect("valid config");
    assert_eq!(config.token, "file-token");
}

#[test]
fn sync_config_errors_come_in_order() {
    let mut file = FileConfig { batch_size: Some(0), interval: Some(0), ..FileConfig::default() };
    let env = env_of(&[]);
    assert!(matches!(sync_config(sync_args(), &file, &env), Err(ConfigError::ZeroBatchSize)));
    file.batch_size = Some(5);
    assert!(matches!(sync_config(sync_args(), &file, &env), Err(ConfigError::ZeroInterval)));
    file.interval = Some(30);
    assert!(matches!(sync_config(sync_args(), &file, &env), Err(ConfigError::MissingEndpoint)));
    file.endpoint = Some("http://localhost:3000".to_string());
    assert!(matches!(sync_config(sync_args(), &file, &env), Err(ConfigError::InsecureEndpoint)));
    file.allow_insecure_http = Some(true);
    match sync_config(sync_args(), &file, &env) {
        Err(ConfigError::MissingToken { token_env }) => assert_eq!(token_env, "RTK_SYNC_TOKEN"),
        other => panic!("unexpected {:?}", other),
    }
    let env = env_of(&[("RTK_SYNC_TOKEN", " \t\n")]);
    assert!(matches!(sync_config(sync_args(), &file, &env), Err(ConfigError::EmptyToken)));
    let env = env_of(&[("RTK_SYNC_TOKEN", " t ")]);
    let config = sync_config(sync_args(), &file, &env).expect("valid");
    assert_eq!(config.token, " t ");
    assert_eq!(config.batch_size, 5);
    assert_eq!(config.interval, 30);
}

#[test]
fn dry_run_needs_no_endpoint_or_token() {
    let mut args = sync_args();
    args.dry_run = true;
    let config = sync_config(args.clone(), &FileConfig::default(), &env_of(&[])).expect("valid");
    assert_eq!(config.endpoint, "");
    assert_eq!(config.token, "");
    assert!(config.dry_run);
    let file = FileConfig { endpoint: Some("http://insecure".into()), token: Some("x".into()), ..FileConfig::default() };
    let config = sync_config(args, &file, &env_of(&[])).expect("valid");
    assert_eq!(config.endpoint, "http://insecure");
    assert_eq!(config.token, "");
}

#[test]
fn batch_size_env_var_is_used_when_it_parses() {
    let mut args = sync_args();
    args.dry_run = true;
    let file = FileConfig { batch_size: Some(7), ..FileConfig::default() };
    let config = sync_config(args.clone(), &file, &env_of(&[("RTK_SYNC_BATCH_SIZE", "25")])).unwrap();
    assert_eq!(config.batch_size, 25);
    let config = sync_config(args.clone(), &file, &env_of(&[("RTK_SYNC_BATCH_SIZE", "x25")])).unwrap();
    assert_eq!(config.batch_size, 7);
    let config = sync_config(args.clone(), &file, &env_of(&[("RTK_SYNC_BATCH_SIZE", "+9")])).unwrap();
    assert_eq!(config.batch_size, 9);
    args.batch_size = Some(3);
    let config = sync_config(args.clone(), &file, &env_of(&[("RTK_SYNC_BATCH_SIZE", "25")])).unwrap();
    assert_eq!(config.batch_size, 3);
    let config = sync_config(args, &file, &env_of(&[("RTK_SYNC_BATCH_SIZE", "0")])).unwrap();
    assert_eq!(config.batch_size, 3);
}

#[test]
fn cli_endpoint_beats_env_and_file() {
    let mut args = sync_args();
    args.endpoint = Some("https://cli".to_string());
    args.token_env = Some("TOK".to_string());
    let file = FileConfig { endpoint: Some("https://file".into()), ..FileConfig::default() };
    let env = env_of(&[("RTK_SYNC_ENDPOINT", "https://env"), ("TOK", "secret")]);
    assert_eq!(sync_config(args, &file, &env).unwrap().endpoint, "https://cli");
    let mut args = sync_args();
    args.token_env = Some("TOK".to_string());
    assert_eq!(sync_config(args, &file, &env).unwrap().endpoint, "https://env");
}

#[test]
fn config_command_overrides_given_values_only() {
    let file = FileConfig {
        endpoint: Some("https://old".to_string()),
        token: Some("old-token".to_string()),
        batch_size: Some(10),
        ..FileConfig::default()
    };
    let mut args = config_args();
    args.token = Some("new-token".to_string());
    args.interval = Some(30);
    let merged = apply_config_args(file.clone(), args).expect("valid");
    assert_eq!(merged.endpoint.as_deref(), Some("https://old"));
    assert_eq!(merged.token.as_deref(), Some("new-token"));
    assert_eq!(merged.batch_size, Some(10));
    assert_eq!(merged.interval, Some(30));
    assert_eq!(merged.allow_insecure_http, None);
}

#[test]
fn config_command_refuses_bad_values() {
    let mut args = config_args();
    args.batch_size = Some(0);
    args.interval = Some(0);
    assert!(matches!(apply_config_args(FileConfig::default(), args), Err(ConfigError::ZeroBatchSize)));
    let mut args = config_args();
    args.interval = Some(0);
    assert!(matches!(apply_config_args(FileConfig::default(), args), Err(ConfigError::ZeroInterval)));
    let mut args = config_args();
    args.endpoint = Some("http://localhost:3000".to_string());
    assert!(matches!(apply_config_args(FileConfig::default(), args), Err(ConfigError::InsecureEndpoint)));
    let mut args = config_args();
    args.endpoint = Some("http://localhost:3000".to_string());
    args.allow_insecure_http = Some(true);
    let merged = apply_config_args(FileConfig::default(), args).expect("valid");
    assert_eq!(merged.allow_insecure_http, Some(true));
    let file = FileConfig { endpoint: Some("http://x".into()), allow_insecure_http: Some(true), ..FileConfig::default() };
    let mut args = config_args();
    args.allow_insecure_http = Some(false);
    assert!(matches!(apply_config_args(file, args), Err(ConfigError::InsecureEndpoint)));
}

#[test]
fn default_config_content_sets_defaults() {
    let text = default_config_content();
    assert!(text.starts_with("# rtk-sync config\n"));
    assert!(text.contains("\nbatch_size = 100\n"));
    assert!(text.contains("\ninterval = 60\n"));
    assert!(text.contains("token_env = \"RTK_SYNC_TOKEN\"\n"));
    assert!(text.ends_with("allow_insecure_http = false\n"));
}

#[test]
fn insecure_http_env_var_allows_plain_http() {
    let file = FileConfig {
        endpoint: Some("http://127.0.0.1:8080/api/rtk/events".to_string()),
        ..FileConfig::default()
    };
    let env = env_of(&[("RTK_SYNC_ALLOW_INSECURE_HTTP", "true"), ("RTK_SYNC_TOKEN", "t")]);
    let config = sync_config(sync_args(), &file, &env).expect("plain http allowed by the environment");
    assert_eq!(config.endpoint, "http://127.0.0.1:8080/api/rtk/events");
    let env = env_of(&[("RTK_SYNC_ALLOW_INSECURE_HTTP", "1"), ("RTK_SYNC_TOKEN", "t")]);
    assert!(sync_config(sync_args(), &file, &env).is_ok());
    let env = env_of(&[("RTK_SYNC_TOKEN", "t")]);
    assert!(matches!(sync_config(sync_args(), &file, &env), Err(ConfigError::InsecureEndpoint)));
}

#[test]
fn insecure_http_env_var_overrides_file_and_yields_to_flag() {
    let file = FileConfig { allow_insecure_http: Some(true), ..FileConfig::default() };
    let off = env_of(&[("RTK_SYNC_ALLOW_INSECURE_HTTP", "false")]);
    assert!(!sync_allow_insecure_http(&sync_args(), &file, &off));
    assert!(sync_allow_insecure_http(&sync_args(), &file, &env_of(&[])));
    assert!(!sync_allow_insecure_http(&sync_args(), &FileConfig::default(), &env_of(&[])));
    let mut flagged = sync_args();
    flagged.allow_insecure_http = true;
    assert!(sync_allow_insecure_http(&flagged, &FileConfig::default(), &off));
}
