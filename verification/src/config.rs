//! Configuration: where each setting comes from, and which settings are refused.
//!
//! Every setting is taken from the first source that provides it: the command
//! line, then the environment, then `config.toml`, then a built-in default.
use vstd::prelude::*;
use crate::cli::{ConfigArgs, InspectArgs, MachineIdArgs, ResetArgs, StatusArgs, SyncArgs};
use crate::env::{view_opt, EnvVars};
use crate::text::{
    all_whitespace, has_prefix, is_blank, parse_usize, parse_usize_spec, starts_with, str_eq, to_string,
};

verus! {

/// Directory, under the local data directory, that holds RTK's database.
pub const RTK_DATA_DIR: &'static str = "rtk";

/// File name of RTK's tracking database.
pub const RTK_HISTORY_DB: &'static str = "history.db";

/// Directory, under the data and config directories, that holds this tool's files.
pub const RTK_SYNC_DATA_DIR: &'static str = "rtk-sync";

/// File name of the sync state.
pub const RTK_SYNC_STATE: &'static str = "state.json";

/// File name of the config file.
pub const RTK_SYNC_CONFIG: &'static str = "config.toml";

/// Environment variable that holds the upload token unless configured otherwise.
pub const DEFAULT_TOKEN_ENV: &'static str = "RTK_SYNC_TOKEN";

/// Events uploaded per batch unless configured otherwise.
pub const DEFAULT_BATCH_SIZE: usize = 100;

/// Seconds between background sync runs unless configured otherwise.
pub const DEFAULT_INTERVAL_SECONDS: u64 = 60;

#[derive(Clone, Debug)]
pub struct InspectConfig {
    pub db_path: String,
}

#[derive(Clone, Debug)]
pub struct MachineConfig {
    pub state_path: String,
    pub machine_id: Option<String>,
}

#[derive(Clone, Debug)]
pub struct StatusConfig {
    pub db_path: String,
    pub state_path: String,
}

#[derive(Clone, Debug)]
pub struct SyncConfig {
    pub db_path: String,
    pub state_path: String,
    pub endpoint: String,
    pub token_env: String,
    pub token: String,
    pub machine_id: Option<String>,
    pub batch_size: usize,
    pub interval: u64,
    pub dry_run: bool,
}

/// The settings that `config.toml` may hold; each is optional.
#[derive(Clone, Debug)]
pub struct FileConfig {
    pub db: Option<String>,
    pub state: Option<String>,
    pub endpoint: Option<String>,
    pub token_env: Option<String>,
    pub token: Option<String>,
    pub machine_id: Option<String>,
    pub batch_size: Option<usize>,
    pub interval: Option<u64>,
    pub allow_insecure_http: Option<bool>,
}

impl Default for FileConfig {
    fn default() -> (f: FileConfig)
        ensures
            f.db is None,
            f.state is None,
            f.endpoint is None,
            f.token_env is None,
            f.token is None,
            f.machine_id is None,
            f.batch_size is None,
            f.interval is None,
            f.allow_insecure_http is None,
    {
        FileConfig {
            db: None,
            state: None,
            endpoint: None,
            token_env: None,
            token: None,
            machine_id: None,
            batch_size: None,
            interval: None,
            allow_insecure_http: None,
        }
    }
}

/// What the configuration reads from the machine it runs on: the environment,
/// and the platform's default locations of RTK's database and of the state file.
#[derive(Clone, Debug)]
pub struct ConfigEnv {
    pub vars: EnvVars,
    pub default_db_path: String,
    pub default_state_path: String,
}

/// Why a configuration is refused.
#[derive(Clone, Debug, PartialEq, Eq)]
pub enum ConfigError {
    /// The batch size is zero.
    ZeroBatchSize,
    /// The sync interval is zero.
    ZeroInterval,
    /// No endpoint is configured for a real sync.
    MissingEndpoint,
    /// The endpoint is neither https nor an allowed plain http URL.
    InsecureEndpoint,
    /// No token is configured; the environment variable that was consulted.
    MissingToken { token_env: String },
    /// The token is empty once whitespace is trimmed.
    EmptyToken,
}

/// The first value that is present, in the order given.
pub open spec fn first_of(a: Option<Seq<char>>, b: Option<Seq<char>>, c: Option<Seq<char>>) -> Option<Seq<char>> {
    match a {
        Some(x) => Some(x),
        None => match b {
            Some(x) => Some(x),
            None => c,
        },
    }
}

/// An endpoint is accepted when it is https, or plain http with insecure http allowed.
pub open spec fn endpoint_allowed(endpoint: Seq<char>, allow_insecure_http: bool) -> bool {
    has_prefix(endpoint, "https://"@) || (allow_insecure_http && has_prefix(endpoint, "http://"@))
}

/// RTK database path: `--db`, `RTK_SYNC_DB`, `RTK_DB_PATH`, `db` in the file, the default.
pub open spec fn db_path_spec(cli: Option<Seq<char>>, file: FileConfig, env: ConfigEnv) -> Seq<char> {
    match first_of(cli, env.vars.lookup("RTK_SYNC_DB"@), env.vars.lookup("RTK_DB_PATH"@)) {
        Some(p) => p,
        None => match file.db {
            Some(p) => p@,
            None => env.default_db_path@,
        },
    }
}

/// State file path: `--state`, `RTK_SYNC_STATE`, `state` in the file, the default.
pub open spec fn state_path_spec(cli: Option<Seq<char>>, file: FileConfig, env: ConfigEnv) -> Seq<char> {
    match first_of(cli, env.vars.lookup("RTK_SYNC_STATE"@), view_opt(file.state)) {
        Some(p) => p,
        None => env.default_state_path@,
    }
}

/// Configured machine ID: `--machine-id`, `RTK_SYNC_MACHINE_ID`, `machine_id` in the file.
pub open spec fn machine_id_spec(cli: Option<Seq<char>>, file: FileConfig, env: ConfigEnv) -> Option<Seq<char>> {
    first_of(cli, env.vars.lookup("RTK_SYNC_MACHINE_ID"@), view_opt(file.machine_id))
}

/// Upload endpoint: `--endpoint`, `RTK_SYNC_ENDPOINT`, `endpoint` in the file.
pub open spec fn endpoint_spec(args: SyncArgs, file: FileConfig, env: ConfigEnv) -> Option<Seq<char>> {
    first_of(view_opt(args.endpoint), env.vars.lookup("RTK_SYNC_ENDPOINT"@), view_opt(file.endpoint))
}

/// Name of the token variable: `--token-env`, `token_env` in the file, `RTK_SYNC_TOKEN`.
pub open spec fn token_env_spec(args: SyncArgs, file: FileConfig) -> Seq<char> {
    match first_of(view_opt(args.token_env), None, view_opt(file.token_env)) {
        Some(t) => t,
        None => "RTK_SYNC_TOKEN"@,
    }
}

/// Batch size: `--batch-size`, `RTK_SYNC_BATCH_SIZE` when it parses, the file, 100.
pub open spec fn batch_size_spec(args: SyncArgs, file: FileConfig, env: ConfigEnv) -> usize {
    let from_file = match file.batch_size {
        Some(b) => b,
        None => 100usize,
    };
    match args.batch_size {
        Some(b) => b,
        None => match env.vars.lookup("RTK_SYNC_BATCH_SIZE"@) {
            Some(t) => match parse_usize_spec(t) {
                Some(b) => b,
                None => from_file,
            },
            None => from_file,
        },
    }
}

/// Sync interval: `interval` in the file, else 60 seconds.
pub open spec fn interval_spec(file: FileConfig) -> u64 {
    match file.interval {
        Some(i) => i,
        None => 60u64,
    }
}

/// A boolean environment setting is on when its value is `true` or `1`.
pub open spec fn env_flag_on(value: Seq<char>) -> bool {
    value == "true"@ || value == "1"@
}

/// Plain http is allowed by `--allow-insecure-http`; without it,
/// `RTK_SYNC_ALLOW_INSECURE_HTTP` decides when it is set, else
/// `allow_insecure_http` in the file.
pub open spec fn allow_insecure_spec(args: SyncArgs, file: FileConfig, env: ConfigEnv) -> bool {
    args.allow_insecure_http || match env.vars.lookup("RTK_SYNC_ALLOW_INSECURE_HTTP"@) {
        Some(v) => env_flag_on(v),
        None => file.allow_insecure_http == Some(true),
    }
}

/// Token: the variable named by the token setting, else `token` in the file.
pub open spec fn token_spec(args: SyncArgs, file: FileConfig, env: ConfigEnv) -> Option<Seq<char>> {
    first_of(env.vars.lookup(token_env_spec(args, file)), None, view_opt(file.token))
}

/// Precedence of the sync settings: a value on the command line wins over the
/// environment, which wins over `config.toml`, which wins over the default.
pub proof fn lemma_sync_setting_precedence(args: SyncArgs, file: FileConfig, env: ConfigEnv)
    ensures
        args.endpoint matches Some(e) ==> endpoint_spec(args, file, env) == Some(e@),
        args.endpoint is None && env.vars.lookup("RTK_SYNC_ENDPOINT"@) is Some ==> endpoint_spec(args, file, env)
            == env.vars.lookup("RTK_SYNC_ENDPOINT"@),
        args.endpoint is None && env.vars.lookup("RTK_SYNC_ENDPOINT"@) is None ==> endpoint_spec(args, file, env)
            == view_opt(file.endpoint),
        args.batch_size matches Some(b) ==> batch_size_spec(args, file, env) == b,
        args.batch_size is None && env.vars.lookup("RTK_SYNC_BATCH_SIZE"@) is None ==> batch_size_spec(args, file, env)
            == (match file.batch_size { Some(b) => b, None => DEFAULT_BATCH_SIZE }),
        args.db matches Some(p) ==> db_path_spec(view_opt(args.db), file, env) == p@,
        args.db is None && env.vars.lookup("RTK_SYNC_DB"@) is None && env.vars.lookup("RTK_DB_PATH"@) is None
            ==> db_path_spec(view_opt(args.db), file, env) == (match file.db { Some(p) => p@, None => env.default_db_path@ }),
        args.state matches Some(p) ==> state_path_spec(view_opt(args.state), file, env) == p@,
        args.machine_id matches Some(m) ==> machine_id_spec(view_opt(args.machine_id), file, env) == Some(m@),
        args.token_env matches Some(t) ==> token_env_spec(args, file) == t@,
        args.allow_insecure_http ==> allow_insecure_spec(args, file, env),
        !args.allow_insecure_http ==> (env.vars.lookup("RTK_SYNC_ALLOW_INSECURE_HTTP"@) matches Some(v)
            ==> allow_insecure_spec(args, file, env) == env_flag_on(v)),
        !args.allow_insecure_http && env.vars.lookup("RTK_SYNC_ALLOW_INSECURE_HTTP"@) is None
            ==> allow_insecure_spec(args, file, env) == (file.allow_insecure_http == Some(true)),
{
}

/// The first present value of three.
pub fn first_string(
    cli_value: Option<String>,
    env_value: Option<String>,
    config_value: Option<String>,
) -> (r: Option<String>)
    ensures
        view_opt(r) == first_of(view_opt(cli_value), view_opt(env_value), view_opt(config_value)),
{
    match cli_value {
        Some(v) => Some(v),
        None => match env_value {
            Some(v) => Some(v),
            None => config_value,
        },
    }
}

/// Accepts https endpoints, and plain http ones when `allow_insecure_http` is set.
pub fn validate_endpoint(endpoint: &str, allow_insecure_http: bool) -> (r: Result<(), ConfigError>)
    ensures
        r is Ok <==> endpoint_allowed(endpoint@, allow_insecure_http),
        r is Err ==> r == Err::<(), ConfigError>(ConfigError::InsecureEndpoint),
{
    if starts_with(endpoint, "https://") || (allow_insecure_http && starts_with(endpoint, "http://")) {
        return Ok(());
    }
    Err(ConfigError::InsecureEndpoint)
}

/// The RTK database path, taken from the first source that gives one.
pub fn resolve_db_path(cli_path: Option<String>, file: &FileConfig, env: &ConfigEnv) -> (r: String)
    ensures
        r@ == db_path_spec(view_opt(cli_path), *file, *env),
{
    if let Some(path) = cli_path {
        return path;
    }
    if let Some(path) = env.vars.get("RTK_SYNC_DB") {
        return path;
    }
    if let Some(path) = env.vars.get("RTK_DB_PATH") {
        return path;
    }
    if let Some(path) = &file.db {
        return path.clone();
    }
    env.default_db_path.clone()
}

/// The state file path, taken from the first source that gives one.
pub fn resolve_state_path(cli_path: Option<String>, file: &FileConfig, env: &ConfigEnv) -> (r: String)
    ensures
        r@ == state_path_spec(view_opt(cli_path), *file, *env),
{
    if let Some(path) = cli_path {
        return path;
    }
    if let Some(path) = env.vars.get("RTK_SYNC_STATE") {
        return path;
    }
    if let Some(path) = &file.state {
        return path.clone();
    }
    env.default_state_path.clone()
}

/// Settings of `inspect`.
pub fn inspect_config(args: InspectArgs, file: &FileConfig, env: &ConfigEnv) -> (c: InspectConfig)
    ensures
        c.db_path@ == db_path_spec(view_opt(args.db), *file, *env),
{
    InspectConfig { db_path: resolve_db_path(args.db, file, env) }
}

/// Settings of `machine-id`.
pub fn machine_config(args: MachineIdArgs, file: &FileConfig, env: &ConfigEnv) -> (c: MachineConfig)
    ensures
        c.state_path@ == state_path_spec(view_opt(args.state), *file, *env),
        view_opt(c.machine_id) == machine_id_spec(view_opt(args.machine_id), *file, *env),
{
    MachineConfig {
        state_path: resolve_state_path(args.state, file, env),
        machine_id: first_string(
            args.machine_id,
            env.vars.get("RTK_SYNC_MACHINE_ID"),
            file.machine_id.clone(),
        ),
    }
}

/// The state file that `reset` removes.
pub fn reset_config(args: ResetArgs, file: &FileConfig, env: &ConfigEnv) -> (r: String)
    ensures
        r@ == state_path_spec(view_opt(args.state), *file, *env),
{
    resolve_state_path(args.state, file, env)
}

/// Settings of `status`.
pub fn status_config(args: StatusArgs, file: &FileConfig, env: &ConfigEnv) -> (c: StatusConfig)
    ensures
        c.db_path@ == db_path_spec(view_opt(args.db), *file, *env),
        c.state_path@ == state_path_spec(view_opt(args.state), *file, *env),
{
    StatusConfig {
        db_path: resolve_db_path(args.db, file, env),
        state_path: resolve_state_path(args.state, file, env),
    }
}

/// The config file written on first run: every setting at its default, the
/// optional ones commented out.
pub const DEFAULT_CONFIG_CONTENT: &'static str = "# rtk-sync config\n# This file is created automatically with OS-specific defaults left implicit.\n# Environment variables override these values; CLI flags override both.\n\n# db = \"/path/to/rtk/history.db\"\n# state = \"/path/to/rtk-sync/state.json\"\nendpoint = \"https://example.com/api/rtk/events\"\ntoken_env = \"RTK_SYNC_TOKEN\"\n# token = \"replace-me\"\n# machine_id = \"macbook-123124\"\nbatch_size = 100\ninterval = 60\nallow_insecure_http = false\n";

/// The text of the config file written on first run.
pub fn default_config_content() -> (r: &'static str)
    ensures
        r@ == DEFAULT_CONFIG_CONTENT@,
{
    DEFAULT_CONFIG_CONTENT
}

/// The file settings after `config` has written the given values over them.
pub open spec fn merged_endpoint(file: FileConfig, args: ConfigArgs) -> Option<Seq<char>> {
    first_of(view_opt(args.endpoint), None, view_opt(file.endpoint))
}

pub open spec fn merged_allow(file: FileConfig, args: ConfigArgs) -> bool {
    match args.allow_insecure_http {
        Some(a) => a,
        None => file.allow_insecure_http == Some(true),
    }
}

/// Writes the values given to `config` over the file settings.  A zero batch
/// size or interval is refused, and so is an endpoint that the resulting
/// settings would not allow.
pub fn apply_config_args(file: FileConfig, args: ConfigArgs) -> (r: Result<FileConfig, ConfigError>)
    ensures
        r == Err::<FileConfig, ConfigError>(ConfigError::ZeroBatchSize) <==> args.batch_size == Some(0usize),
        r == Err::<FileConfig, ConfigError>(ConfigError::ZeroInterval) <==> args.batch_size != Some(0usize)
            && args.interval == Some(0u64),
        r == Err::<FileConfig, ConfigError>(ConfigError::InsecureEndpoint) <==> args.batch_size != Some(0usize)
            && args.interval != Some(0u64) && merged_endpoint(file, args) is Some
            && !endpoint_allowed(merged_endpoint(file, args)->0, merged_allow(file, args)),
        r is Err ==> r == Err::<FileConfig, ConfigError>(ConfigError::ZeroBatchSize)
            || r == Err::<FileConfig, ConfigError>(ConfigError::ZeroInterval)
            || r == Err::<FileConfig, ConfigError>(ConfigError::InsecureEndpoint),
        r matches Ok(f) ==> {
            &&& view_opt(f.db) == first_of(view_opt(args.db), None, view_opt(file.db))
            &&& view_opt(f.state) == first_of(view_opt(args.state), None, view_opt(file.state))
            &&& view_opt(f.endpoint) == merged_endpoint(file, args)
            &&& view_opt(f.token) == first_of(view_opt(args.token), None, view_opt(file.token))
            &&& view_opt(f.token_env) == first_of(view_opt(args.token_env), None, view_opt(file.token_env))
            &&& view_opt(f.machine_id) == first_of(view_opt(args.machine_id), None, view_opt(file.machine_id))
            &&& f.batch_size == (if args.batch_size is Some { args.batch_size } else { file.batch_size })
            &&& f.interval == (if args.interval is Some { args.interval } else { file.interval })
            &&& f.allow_insecure_http == (if args.allow_insecure_http is Some { args.allow_insecure_http } else { file.allow_insecure_http })
        },
        // Without a new `--allow-insecure-http`, the value stored in the file
        // decides: a stored `true` keeps a plain http endpoint acceptable.
        args.batch_size != Some(0usize) && args.interval != Some(0u64) && args.allow_insecure_http is None
            && file.allow_insecure_http == Some(true)
            && (match (if args.endpoint is Some { args.endpoint } else { file.endpoint }) {
                Some(e) => has_prefix(e@, "http://"@) || has_prefix(e@, "https://"@),
                None => true,
            }) ==> r is Ok,
        // A stored or given `false` refuses a plain http endpoint.
        args.batch_size != Some(0usize) && args.interval != Some(0u64)
            && (args.allow_insecure_http == Some(false) || (args.allow_insecure_http is None
                && file.allow_insecure_http != Some(true)))
            && (match (if args.endpoint is Some { args.endpoint } else { file.endpoint }) {
                Some(e) => !has_prefix(e@, "https://"@),
                None => false,
            }) ==> r == Err::<FileConfig, ConfigError>(ConfigError::InsecureEndpoint),
{
    let mut file = file;
    if let Some(db) = args.db {
        file.db = Some(db);
    }
    if let Some(state) = args.state {
        file.state = Some(state);
    }
    if let Some(endpoint) = args.endpoint {
        file.endpoint = Some(endpoint);
    }
    if let Some(token) = args.token {
        file.token = Some(token);
    }
    if let Some(token_env) = args.token_env {
        file.token_env = Some(token_env);
    }
    if let Some(machine_id) = args.machine_id {
        file.machine_id = Some(machine_id);
    }
    if let Some(batch_size) = args.batch_size {
        if batch_size == 0 {
            return Err(ConfigError::ZeroBatchSize);
        }
        file.batch_size = Some(batch_size);
    }
    if let Some(interval) = args.interval {
        if interval == 0 {
            return Err(ConfigError::ZeroInterval);
        }
        file.interval = Some(interval);
    }
    if let Some(allow_insecure_http) = args.allow_insecure_http {
        file.allow_insecure_http = Some(allow_insecure_http);
    }
    let allow: bool = match file.allow_insecure_http {
        Some(a) => a,
        None => false,
    };
    if let Some(endpoint) = &file.endpoint {
        validate_endpoint(endpoint.as_str(), allow)?;
    }
    Ok(file)
}

/// A config change that gives no `--allow-insecure-http` keeps the stored
/// choice: the endpoint check then allows plain http exactly when the file
/// says `allow_insecure_http = true`; a given value decides on its own.
pub proof fn lemma_config_keeps_stored_insecure_choice(file: FileConfig, args: ConfigArgs)
    ensures
        args.allow_insecure_http is None ==> (merged_allow(file, args) <==> file.allow_insecure_http == Some(true)),
        args.allow_insecure_http matches Some(a) ==> merged_allow(file, args) == a,
{
}

/// The name of the variable that holds the token: `--token-env`, then
/// `token_env` in the file, then `RTK_SYNC_TOKEN`.
pub fn sync_token_env(args: &SyncArgs, file: &FileConfig) -> (r: String)
    ensures
        r@ == token_env_spec(*args, *file),
{
    match first_string(args.token_env.clone(), None, file.token_env.clone()) {
        Some(t) => t,
        None => to_string(DEFAULT_TOKEN_ENV),
    }
}

/// The batch size: `--batch-size`, then `RTK_SYNC_BATCH_SIZE` when it parses
/// as a number, then `batch_size` in the file, then 100.
pub fn sync_batch_size(args: &SyncArgs, file: &FileConfig, env: &ConfigEnv) -> (r: usize)
    ensures
        r == batch_size_spec(*args, *file, *env),
{
    if let Some(b) = args.batch_size {
        return b;
    }
    if let Some(text) = env.vars.get("RTK_SYNC_BATCH_SIZE") {
        if let Some(b) = parse_usize(text.as_str()) {
            return b;
        }
    }
    match file.batch_size {
        Some(b) => b,
        None => DEFAULT_BATCH_SIZE,
    }
}

/// The environment setting allows plain http for the values `true` and `1`
/// only: any other value (`0`, `false`, `no`, empty, ...) refuses it, and
/// overrides the file; the command-line flag allows it whatever they say.
pub proof fn lemma_insecure_http_env_values(args: SyncArgs, file: FileConfig, env: ConfigEnv)
    ensures
        args.allow_insecure_http ==> allow_insecure_spec(args, file, env),
        !args.allow_insecure_http ==> (env.vars.lookup("RTK_SYNC_ALLOW_INSECURE_HTTP"@) matches Some(v)
            ==> (allow_insecure_spec(args, file, env) <==> (v == "true"@ || v == "1"@))),
        !args.allow_insecure_http ==> (env.vars.lookup("RTK_SYNC_ALLOW_INSECURE_HTTP"@) matches Some(v)
            ==> (v != "true"@ && v != "1"@ ==> !allow_insecure_spec(args, file, env))),
{
}

/// Whether plain http endpoints are allowed: `--allow-insecure-http`, then
/// `RTK_SYNC_ALLOW_INSECURE_HTTP` (`true` or `1` allows, any other value
/// refuses), then `allow_insecure_http` in the file, then refused.
pub fn sync_allow_insecure_http(args: &SyncArgs, file: &FileConfig, env: &ConfigEnv) -> (r: bool)
    ensures
        r == allow_insecure_spec(*args, *file, *env),
        args.allow_insecure_http ==> r,
        !args.allow_insecure_http ==> (env.vars.lookup("RTK_SYNC_ALLOW_INSECURE_HTTP"@) matches Some(v)
            ==> (r <==> (v == "true"@ || v == "1"@))),
        !args.allow_insecure_http && env.vars.lookup("RTK_SYNC_ALLOW_INSECURE_HTTP"@) is None
            ==> (r <==> file.allow_insecure_http == Some(true)),
{
    if args.allow_insecure_http {
        return true;
    }
    match env.vars.get("RTK_SYNC_ALLOW_INSECURE_HTTP") {
        Some(v) => str_eq(v.as_str(), "true") || str_eq(v.as_str(), "1"),
        None => match file.allow_insecure_http {
            Some(a) => a,
            None => false,
        },
    }
}

/// Settings of a sync run (`once` and the service).
///
/// The batch size and the interval must be positive.  Unless this is a dry
/// run, an endpoint that `validate_endpoint` accepts and a token that is not
/// blank are required; a dry run uses the endpoint if there is one and no token.
pub fn sync_config(args: SyncArgs, file: &FileConfig, env: &ConfigEnv) -> (r: Result<SyncConfig, ConfigError>)
    ensures
        ({
            let batch = batch_size_spec(args, *file, *env);
            let interval = interval_spec(*file);
            let endpoint = endpoint_spec(args, *file, *env);
            let allow = allow_insecure_spec(args, *file, *env);
            let token = token_spec(args, *file, *env);
            let base_ok = batch != 0 && interval != 0;
            let endpoint_ok = endpoint is Some && endpoint_allowed(endpoint->0, allow);
            &&& (r == Err::<SyncConfig, ConfigError>(ConfigError::ZeroBatchSize) <==> batch == 0)
            &&& (r == Err::<SyncConfig, ConfigError>(ConfigError::ZeroInterval) <==> batch != 0 && interval == 0)
            &&& (r == Err::<SyncConfig, ConfigError>(ConfigError::MissingEndpoint) <==> base_ok && !args.dry_run
                && endpoint is None)
            &&& (r == Err::<SyncConfig, ConfigError>(ConfigError::InsecureEndpoint) <==> base_ok && !args.dry_run
                && endpoint is Some && !endpoint_allowed(endpoint->0, allow))
            &&& (r is Err && r->Err_0 is MissingToken <==> base_ok && !args.dry_run && endpoint_ok
                && token is None)
            &&& (r matches Err(ConfigError::MissingToken { token_env }) ==> token_env@ == token_env_spec(args, *file))
            &&& (r == Err::<SyncConfig, ConfigError>(ConfigError::EmptyToken) <==> base_ok && !args.dry_run
                && endpoint_ok && token is Some && all_whitespace(token->0))
            &&& (r is Ok <==> base_ok && (args.dry_run || (endpoint_ok && token is Some && !all_whitespace(token->0))))
            &&& (r matches Ok(c) ==> {
                &&& c.db_path@ == db_path_spec(view_opt(args.db), *file, *env)
                &&& c.state_path@ == state_path_spec(view_opt(args.state), *file, *env)
                &&& c.endpoint@ == (match endpoint { Some(e) => e, None => Seq::<char>::empty() })
                &&& c.token@ == (if args.dry_run { Seq::<char>::empty() } else { token->0 })
                &&& c.token_env@ == token_env_spec(args, *file)
                &&& view_opt(c.machine_id) == machine_id_spec(view_opt(args.machine_id), *file, *env)
                &&& c.batch_size == batch
                &&& c.interval == interval
                &&& c.dry_run == args.dry_run
            })
        }),
{
    let endpoint = first_string(
        args.endpoint.clone(),
        env.vars.get("RTK_SYNC_ENDPOINT"),
        file.endpoint.clone(),
    );
    let token_env = sync_token_env(&args, file);
    let machine_id = first_string(
        args.machine_id.clone(),
        env.vars.get("RTK_SYNC_MACHINE_ID"),
        file.machine_id.clone(),
    );
    let batch_size: usize = sync_batch_size(&args, file, env);
    let interval: u64 = match file.interval {
        Some(i) => i,
        None => DEFAULT_INTERVAL_SECONDS,
    };
    let allow_insecure_http: bool = sync_allow_insecure_http(&args, file, env);

    if batch_size == 0 {
        return Err(ConfigError::ZeroBatchSize);
    }
    if interval == 0 {
        return Err(ConfigError::ZeroInterval);
    }
    let (endpoint, token) = if args.dry_run {
        let e = match endpoint {
            Some(e) => e,
            None => String::new(),
        };
        (e, String::new())
    } else {
        let endpoint = match endpoint {
            Some(e) => e,
            None => {
                return Err(ConfigError::MissingEndpoint);
            },
        };
        validate_endpoint(endpoint.as_str(), allow_insecure_http)?;
        let token = match first_string(env.vars.get(token_env.as_str()), None, file.token.clone()) {
            Some(t) => t,
            None => {
                return Err(ConfigError::MissingToken { token_env });
            },
        };
        if is_blank(token.as_str()) {
            return Err(ConfigError::EmptyToken);
        }
        (endpoint, token)
    };

    Ok(SyncConfig {
        db_path: resolve_db_path(args.db, file, env),
        state_path: resolve_state_path(args.state, file, env),
        endpoint,
        token_env,
        token,
        machine_id,
        batch_size,
        interval,
        dry_run: args.dry_run,
    })
}

} // verus!
