use std::cell::Cell;

use glance::cache::{cache_schema, init_cache, load_cached_schema};
use glance::config::{
    config_dir_in, delete_connection, file_in, get_cache_path, get_config_path, save_connection, set_default_connection, AppConfig,
    Connection, Settings,
};
use glance::coordinator::{
    get_schema, host_of, index_schema, plan_connection, prepare_index, refresh_schema, test_connection,
    refresh_schema_with, AuthMethod, RefreshPolicy, SchemaError,
};
use glance::schema::{SchemaData, Table};

fn profile(id: &str, auth: &str, username: Option<&str>, is_default: bool) -> Connection {
    Connection {
        id: id.to_string(),
        name: format!("profile {}", id),
        server: "localhost\\SQLEXPRESS".to_string(),
        database: "Shop".to_string(),
        auth_type: auth.to_string(),
        username: username.map(|u| u.to_string()),
        is_default,
    }
}

fn config(conns: Vec<Connection>) -> AppConfig {
    let mut c = AppConfig::default();
    c.connections = conns;
    c
}

fn one_table(name: &str) -> SchemaData {
    SchemaData {
        tables: vec![Table { schema: "dbo".to_string(), name: name.to_string(), description: None }],
        columns: vec![],
        foreign_keys: vec![],
        primary_keys: vec![],
    }
}

#[test]
fn failed_extraction_serves_cache() {
    let mut cache = init_cache();
    cache_schema(&mut cache, &one_table("Orders"), "a");
    let r = index_schema(&mut cache, "a", Err("Failed to connect to SQL Server: timed out".to_string()));
    assert_eq!(r, Ok(one_table("Orders")));
    assert_eq!(load_cached_schema(&cache, "a").unwrap(), one_table("Orders"));
}

#[test]
fn failed_extraction_without_cache_keeps_cause() {
    let mut cache = init_cache();
    cache_schema(&mut cache, &one_table("Orders"), "other");
    let cause = "Failed to authenticate with SQL Server: login failed".to_string();
    let r = index_schema(&mut cache, "a", Err(cause.clone()));
    assert_eq!(r, Err(SchemaError::Connectivity(cause.clone())));
    let msg = r.unwrap_err().message();
    assert_eq!(msg, format!("SQL Server connection failed: {}", cause));
}

#[test]
fn fresh_extraction_is_written_through() {
    let mut cache = init_cache();
    cache_schema(&mut cache, &one_table("Old"), "a");
    let r = index_schema(&mut cache, "a", Ok(one_table("New")));
    assert_eq!(r, Ok(one_table("New")));
    assert_eq!(load_cached_schema(&cache, "a").unwrap(), one_table("New"));
}

#[test]
fn refresh_falls_back_like_index() {
    let mut cache = init_cache();
    cache_schema(&mut cache, &one_table("Orders"), "a");
    assert_eq!(refresh_schema(&mut cache, "a", Err("down".to_string())), Ok(one_table("Orders")));
    assert_eq!(
        refresh_schema(&mut cache, "b", Err("down".to_string())),
        Err(SchemaError::Connectivity("down".to_string()))
    );
}

#[test]
fn no_default_profile_is_precondition_error() {
    let cfg = config(vec![profile("a", "sql", Some("sa"), false)]);
    let mut cache = init_cache();
    cache_schema(&mut cache, &one_table("Orders"), "a");
    assert_eq!(
        get_schema(&cfg, &cache, None),
        Err(SchemaError::Precondition("No default connection configured".to_string()))
    );
}

#[test]
fn default_profile_is_read_from_cache() {
    let cfg = config(vec![profile("a", "sql", Some("sa"), false), profile("b", "sql", Some("sa"), true)]);
    let mut cache = init_cache();
    cache_schema(&mut cache, &one_table("A"), "a");
    cache_schema(&mut cache, &one_table("B"), "b");
    assert_eq!(get_schema(&cfg, &cache, None), Ok(one_table("B")));
    assert_eq!(get_schema(&cfg, &cache, Some("a".to_string())), Ok(one_table("A")));
}

#[test]
fn missing_cache_is_not_found() {
    let cfg = config(vec![profile("a", "sql", Some("sa"), true)]);
    let cache = init_cache();
    assert_eq!(
        get_schema(&cfg, &cache, None),
        Err(SchemaError::NotFound("No cached schema found. Please connect with password first.".to_string()))
    );
}

fn run_index(cfg: &AppConfig, id: &str, password: Option<&str>, calls: &Cell<u32>) -> Result<SchemaData, SchemaError> {
    let mut cache = init_cache();
    match prepare_index(cfg, id, password.map(|p| p.to_string()), false) {
        Ok(_plan) => {
            calls.set(calls.get() + 1);
            index_schema(&mut cache, id, Ok(one_table("T")))
        }
        Err(e) => Err(e),
    }
}

#[test]
fn sql_auth_without_credentials_never_connects() {
    let calls = Cell::new(0);
    let cfg = config(vec![profile("a", "sql", None, false), profile("b", "sql", Some(""), false), profile("c", "sql", Some("sa"), false)]);
    let user_msg = SchemaError::Precondition("Username is required for SQL authentication".to_string());
    let pwd_msg = SchemaError::Precondition("Password is required for SQL authentication".to_string());
    assert_eq!(run_index(&cfg, "a", Some("pw"), &calls), Err(user_msg.clone()));
    assert_eq!(run_index(&cfg, "b", Some("pw"), &calls), Err(user_msg));
    assert_eq!(run_index(&cfg, "c", None, &calls), Err(pwd_msg.clone()));
    assert_eq!(run_index(&cfg, "c", Some(""), &calls), Err(pwd_msg));
    assert_eq!(calls.get(), 0);
    assert_eq!(run_index(&cfg, "c", Some("pw"), &calls), Ok(one_table("T")));
    assert_eq!(calls.get(), 1);
}

#[test]
fn unknown_profile_is_not_found() {
    let cfg = config(vec![profile("a", "sql", Some("sa"), false)]);
    assert_eq!(
        prepare_index(&cfg, "zzz", Some("pw".to_string()), true),
        Err(SchemaError::NotFound("Connection not found".to_string()))
    );
}

#[test]
fn plan_carries_host_and_login() {
    let p = plan_connection(&profile("a", "sql", Some("sa"), false), Some("pw".to_string()), false).unwrap();
    assert_eq!(p.host, "localhost");
    assert_eq!(p.port, 1433);
    assert_eq!(p.database, "Shop");
    assert_eq!(p.auth, AuthMethod::SqlServer { username: "sa".to_string(), password: "pw".to_string() });
}

#[test]
fn integrated_auth_depends_on_platform() {
    let c = profile("a", "windows", None, false);
    assert_eq!(
        plan_connection(&c, None, false),
        Err(SchemaError::Precondition("Windows authentication is only available on Windows".to_string()))
    );
    assert_eq!(plan_connection(&c, None, true).unwrap().auth, AuthMethod::Integrated);
}

#[test]
fn empty_server_or_database_rejected() {
    let mut c = profile("a", "sql", Some("sa"), false);
    c.database = String::new();
    assert_eq!(
        plan_connection(&c, Some("pw".to_string()), true),
        Err(SchemaError::Precondition("Database cannot be empty".to_string()))
    );
    c.server = String::new();
    assert_eq!(
        plan_connection(&c, Some("pw".to_string()), true),
        Err(SchemaError::Precondition("Server cannot be empty".to_string()))
    );
}

#[test]
fn host_is_text_before_instance() {
    assert_eq!(host_of("localhost\\SQLEXPRESS"), "localhost");
    assert_eq!(host_of("db.example.com"), "db.example.com");
    assert_eq!(host_of("\\inst"), "");
    assert_eq!(host_of(""), "");
}

#[test]
fn connection_test_checks_inputs() {
    assert_eq!(
        test_connection("srv".to_string(), "db".to_string(), "sql".to_string(), Some("sa".to_string()), Some("pw".to_string())),
        Ok("Connection test successful: srv\\db".to_string())
    );
    assert_eq!(
        test_connection(String::new(), "db".to_string(), "sql".to_string(), None, None),
        Err("Server cannot be empty".to_string())
    );
    assert_eq!(
        test_connection("srv".to_string(), String::new(), "sql".to_string(), None, None),
        Err("Database cannot be empty".to_string())
    );
    assert_eq!(
        test_connection("srv".to_string(), "db".to_string(), "sql".to_string(), Some(String::new()), None),
        Err("Username is required for SQL authentication".to_string())
    );
    assert_eq!(
        test_connection("srv".to_string(), "db".to_string(), "sql".to_string(), Some("sa".to_string()), None),
        Err("Password is required for SQL authentication".to_string())
    );
    assert_eq!(
        test_connection("srv".to_string(), "db".to_string(), "windows".to_string(), None, None),
        Ok("Connection test successful: srv\\db".to_string())
    );
}

#[test]
fn saving_profiles() {
    let mut cfg = config(vec![profile("a", "sql", Some("sa"), true)]);
    save_connection(&mut cfg, profile("b", "sql", Some("u"), true));
    assert_eq!(cfg.connections.len(), 2);
    assert!(!cfg.connections[0].is_default);
    assert!(cfg.connections[1].is_default);
    let mut renamed = profile("a", "sql", Some("other"), false);
    renamed.name = "renamed".to_string();
    save_connection(&mut cfg, renamed.clone());
    assert_eq!(cfg.connections[0], renamed);
    assert!(cfg.connections[1].is_default);
    save_connection(&mut cfg, profile("c", "windows", None, false));
    assert_eq!(cfg.connections.len(), 3);
    assert!(cfg.connections[1].is_default);
}

#[test]
fn deleting_and_flagging_profiles() {
    let mut cfg = config(vec![profile("a", "sql", None, false), profile("b", "sql", None, true), profile("c", "sql", None, false)]);
    set_default_connection(&mut cfg, "c");
    let flags: Vec<bool> = cfg.connections.iter().map(|c| c.is_default).collect();
    assert_eq!(flags, vec![false, false, true]);
    delete_connection(&mut cfg, "b");
    let ids: Vec<&str> = cfg.connections.iter().map(|c| c.id.as_str()).collect();
    assert_eq!(ids, vec!["a", "c"]);
    delete_connection(&mut cfg, "zzz");
    assert_eq!(cfg.connections.len(), 2);
}

#[test]
fn default_settings() {
    let s = Settings::default();
    assert_eq!(s.hotkey, "Ctrl+Shift+Space");
    assert_eq!(s.row_limit, 100);
    assert_eq!(s.theme, "system");
    assert!(!s.auto_refresh);
    assert_eq!(s.copy_behavior, "copyOnly");
    assert_eq!(s.groups_file_path, None);
    let c = AppConfig::default();
    assert!(c.connections.is_empty());
    assert!(c.recent.is_empty());
}

#[test]
fn application_files_live_in_own_directory() {
    match get_config_path() {
        Ok(p) => assert!(p.ends_with("glance/config.json")),
        Err(e) => assert_eq!(e, "Could not determine config directory"),
    }
    match get_cache_path() {
        Ok(p) => assert!(p.ends_with("glance/schema_cache.db")),
        Err(e) => assert_eq!(e, "Could not determine config directory"),
    }
}

#[test]
fn strict_refresh_reports_failure_despite_cache() {
    let mut cache = init_cache();
    cache_schema(&mut cache, &one_table("Orders"), "a");
    assert_eq!(
        refresh_schema_with(&mut cache, "a", Err("down".to_string()), RefreshPolicy::Strict),
        Err(SchemaError::Connectivity("down".to_string()))
    );
    assert_eq!(load_cached_schema(&cache, "a").unwrap(), one_table("Orders"));
    assert_eq!(
        refresh_schema_with(&mut cache, "a", Err("down".to_string()), RefreshPolicy::FallBackToCache),
        Ok(one_table("Orders"))
    );
    assert_eq!(refresh_schema_with(&mut cache, "a", Ok(one_table("New")), RefreshPolicy::Strict), Ok(one_table("New")));
    assert_eq!(load_cached_schema(&cache, "a").unwrap(), one_table("New"));
}

#[test]
fn cached_empty_database_is_served_on_failure() {
    let mut cache = init_cache();
    assert_eq!(index_schema(&mut cache, "a", Ok(SchemaData::empty())), Ok(SchemaData::empty()));
    assert_eq!(index_schema(&mut cache, "a", Err("down".to_string())), Ok(SchemaData::empty()));
    let cfg = config(vec![profile("a", "sql", Some("sa"), true)]);
    assert_eq!(get_schema(&cfg, &cache, None), Ok(SchemaData::empty()));
}

#[test]
fn paths_from_platform_directory() {
    let dir = config_dir_in(Some(std::path::PathBuf::from("/home/u/.config"))).unwrap();
    assert_eq!(dir, std::path::PathBuf::from("/home/u/.config/glance"));
    assert_eq!(
        file_in(Ok(dir), "config.json").unwrap(),
        std::path::PathBuf::from("/home/u/.config/glance/config.json")
    );
    assert_eq!(config_dir_in(None), Err("Could not determine config directory".to_string()));
    assert_eq!(file_in(Err("nope".to_string()), "config.json"), Err("nope".to_string()));
}

#[test]
fn first_profile_with_identifier_decides() {
    let cfg = config(vec![profile("a", "sql", Some("sa"), false), profile("a", "sql", None, false)]);
    assert!(prepare_index(&cfg, "a", Some("pw".to_string()), false).is_ok());
    let cfg = config(vec![profile("a", "sql", None, false), profile("a", "sql", Some("sa"), false)]);
    assert!(matches!(prepare_index(&cfg, "a", Some("pw".to_string()), false), Err(SchemaError::Precondition(_))));
}
