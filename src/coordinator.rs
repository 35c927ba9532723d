//! The policy around an extraction: what must hold before a connection is
//! tried, how its outcome meets the cache, and how a cache read picks its
//! connection.

use vstd::prelude::*;
use vstd::string::{StrSliceExecFns, StringExecFns};

use crate::cache::{SchemaCache, cache_schema, has_cached_schema, load_cached_schema, replaced};
use crate::config::{AppConfig, Connection, default_connection_id, find_connection, first_default_from, ids_unique};
use crate::schema::SchemaData;

verus! {

/// Why a schema request failed.
#[derive(Debug, Clone, PartialEq, Eq)]
pub enum SchemaError {
    /// The request is ruled out before any connection is tried.
    Precondition(String),
    /// The live extraction failed (network, authentication or query); holds its cause.
    Connectivity(String),
    /// There is nothing to serve: no such profile, or no cached schema.
    NotFound(String),
}

impl SchemaError {
    /// The text shown to the user.
    pub fn message(&self) -> (r: String)
        ensures
            self matches SchemaError::Precondition(m) ==> r@ == m@,
            self matches SchemaError::Connectivity(m) ==> r@ == "SQL Server connection failed: "@ + m@,
            self matches SchemaError::NotFound(m) ==> r@ == m@,
    {
        match self {
            SchemaError::Precondition(m) => m.clone(),
            SchemaError::Connectivity(m) => String::from_str("SQL Server connection failed: ").concat(m.as_str()),
            SchemaError::NotFound(m) => m.clone(),
        }
    }
}

/// How the client authenticates.
#[derive(Debug, Clone, PartialEq, Eq)]
pub enum AuthMethod {
    /// A server login and its password.
    SqlServer { username: String, password: String },
    /// The security context of the platform's signed-in user.
    Integrated,
}

/// Everything a client needs to open one connection.
#[derive(Debug, Clone, PartialEq, Eq)]
pub struct ConnectPlan {
    pub host: String,
    pub port: u16,
    pub database: String,
    pub auth: AuthMethod,
}

/// The port the server listens on.
pub const DEFAULT_PORT: u16 = 1433;

/// `host` is `server` up to its first backslash (a named instance follows it),
/// or all of `server` when it has none.
pub open spec fn is_host_of(host: Seq<char>, server: Seq<char>) -> bool {
    &&& host.len() <= server.len()
    &&& host == server.subrange(0, host.len() as int)
    &&& forall|j: int| 0 <= j < host.len() ==> host[j] != '\\'
    &&& host.len() < server.len() ==> server[host.len() as int] == '\\'
}

/// The host part of a server name.
pub fn host_of(server: &str) -> (r: String)
    ensures
        is_host_of(r@, server@),
{
    let n = server.unicode_len();
    let mut k: usize = 0;
    while k < n
        invariant
            n == server@.len(),
            k <= n,
            forall|j: int| 0 <= j < k ==> server@[j] != '\\',
        ensures
            k <= n,
            forall|j: int| 0 <= j < k ==> server@[j] != '\\',
            k < n ==> server@[k as int] == '\\',
        decreases n - k,
    {
        if server.get_char(k) == '\\' {
            break;
        }
        k = k + 1;
    }
    server.substring_char(0, k).to_owned()
}

/// The text is present and not empty.
pub open spec fn is_given(t: Option<String>) -> bool {
    t matches Some(s) && s@.len() > 0
}

/// Whether an optional text is present and not empty.
fn given(t: &Option<String>) -> (r: bool)
    ensures
        r == is_given(*t),
{
    match t {
        Some(s) => s.unicode_len() > 0,
        None => false,
    }
}

/// The first rule that the inputs of a connection break, as its message:
/// server and database must not be empty, and login authentication needs a
/// user name and a password.
pub open spec fn input_failure(
    server: Seq<char>,
    database: Seq<char>,
    auth_type: Seq<char>,
    username: Option<String>,
    password: Option<String>,
) -> Option<Seq<char>> {
    if server.len() == 0 {
        Some("Server cannot be empty"@)
    } else if database.len() == 0 {
        Some("Database cannot be empty"@)
    } else if auth_type == "sql"@ && !is_given(username) {
        Some("Username is required for SQL authentication"@)
    } else if auth_type == "sql"@ && !is_given(password) {
        Some("Password is required for SQL authentication"@)
    } else {
        None
    }
}

/// The first rule that a connection attempt breaks: those of its inputs, and
/// integrated authentication only where the platform offers it.
pub open spec fn plan_failure(c: Connection, password: Option<String>, integrated_supported: bool) -> Option<Seq<char>> {
    match input_failure(c.server@, c.database@, c.auth_type@, c.username, password) {
        Some(m) => Some(m),
        None => if c.auth_type@ != "sql"@ && !integrated_supported {
            Some("Windows authentication is only available on Windows"@)
        } else {
            None
        },
    }
}

/// `r` is what connecting with profile `c` and `password` must give: the
/// first broken rule as a precondition error, else the plan for the profile.
pub open spec fn planned(
    r: Result<ConnectPlan, SchemaError>,
    c: Connection,
    password: Option<String>,
    integrated_supported: bool,
) -> bool {
    match plan_failure(c, password, integrated_supported) {
        Some(m) => (r matches Err(SchemaError::Precondition(e)) && e@ == m),
        None => match r {
            Ok(p) => {
                &&& is_host_of(p.host@, c.server@)
                &&& p.port == DEFAULT_PORT
                &&& p.database@ == c.database@
                &&& if c.auth_type@ == "sql"@ {
                    login_of(p.auth, c.username, password)
                } else {
                    p.auth is Integrated
                }
            },
            Err(_) => false,
        },
    }
}

/// `a` logs in with the given user name and password.
pub open spec fn login_of(a: AuthMethod, username: Option<String>, password: Option<String>) -> bool {
    match (a, username, password) {
        (AuthMethod::SqlServer { username: x, password: y }, Some(u), Some(q)) => x@ == u@ && y@ == q@,
        _ => false,
    }
}

/// The first broken rule of a connection's inputs, checked without any network work.
fn check_inputs(
    server: &str,
    database: &str,
    auth_type: &String,
    username: &Option<String>,
    password: &Option<String>,
) -> (r: Option<String>)
    ensures
        r is None <==> input_failure(server@, database@, auth_type@, *username, *password) is None,
        r matches Some(m) ==> input_failure(server@, database@, auth_type@, *username, *password) == Some(m@),
{
    let sql = auth_type.eq(&String::from_str("sql"));
    if server.unicode_len() == 0 {
        Some(String::from_str("Server cannot be empty"))
    } else if database.unicode_len() == 0 {
        Some(String::from_str("Database cannot be empty"))
    } else if sql && !given(username) {
        Some(String::from_str("Username is required for SQL authentication"))
    } else if sql && !given(password) {
        Some(String::from_str("Password is required for SQL authentication"))
    } else {
        None
    }
}

/// Checks the inputs of a connection as a user typed them, without connecting.
pub fn test_connection(
    server: String,
    database: String,
    auth_type: String,
    username: Option<String>,
    password: Option<String>,
) -> (r: Result<String, String>)
    ensures
        input_failure(server@, database@, auth_type@, username, password) matches Some(m) ==> (r matches Err(e)
            && e@ == m),
        input_failure(server@, database@, auth_type@, username, password) is None ==> (r matches Ok(t) && t@
            == "Connection test successful: "@ + server@ + "\\"@ + database@),
{
    match check_inputs(server.as_str(), database.as_str(), &auth_type, &username, &password) {
        Some(m) => Err(m),
        None => Ok(String::from_str("Connection test successful: ").concat(server.as_str()).concat("\\").concat(database.as_str())),
    }
}

/// The plan for connecting with profile `connection`, or the first rule the
/// request breaks; decided before any network work.
pub fn plan_connection(connection: &Connection, password: Option<String>, integrated_supported: bool) -> (r: Result<
    ConnectPlan,
    SchemaError,
>)
    ensures
        planned(r, *connection, password, integrated_supported),
{
    match check_inputs(
        connection.server.as_str(),
        connection.database.as_str(),
        &connection.auth_type,
        &connection.username,
        &password,
    ) {
        Some(m) => {
            return Err(SchemaError::Precondition(m));
        },
        None => {},
    }
    let sql = connection.auth_type.eq(&String::from_str("sql"));
    let auth = if sql {
        match (&connection.username, password) {
            (Some(u), Some(p)) => AuthMethod::SqlServer { username: u.clone(), password: p },
            _ => {
                return Err(SchemaError::Precondition(String::from_str("Username is required for SQL authentication")));
            },
        }
    } else if integrated_supported {
        AuthMethod::Integrated
    } else {
        return Err(SchemaError::Precondition(String::from_str("Windows authentication is only available on Windows")));
    };
    Ok(ConnectPlan {
        host: host_of(connection.server.as_str()),
        port: DEFAULT_PORT,
        database: connection.database.clone(),
        auth,
    })
}

/// The first profile whose identifier is `id`.
pub open spec fn first_with_id(conns: Seq<Connection>, id: Seq<char>, i: int) -> bool {
    0 <= i < conns.len() && conns[i].id@ == id && forall|j: int| 0 <= j < i ==> conns[j].id@ != id
}

/// Decides, before any network work, whether a live extraction for profile
/// `connection_id` may start, and with which connection settings; a live
/// extraction follows only an `Ok`.
pub fn prepare_index(
    config: &AppConfig,
    connection_id: &str,
    password: Option<String>,
    integrated_supported: bool,
) -> (r: Result<ConnectPlan, SchemaError>)
    ensures
        (forall|j: int| 0 <= j < config.connections@.len() ==> config.connections@[j].id@ != connection_id@) ==> (r matches Err(
            SchemaError::NotFound(m),
        ) && m@ == "Connection not found"@),
        forall|i: int|
            first_with_id(config.connections@, connection_id@, i) ==> planned(
                r,
                #[trigger] config.connections@[i],
                password,
                integrated_supported,
            ),
        ids_unique(config.connections@) ==> forall|i: int|
            0 <= i < config.connections@.len() && #[trigger] config.connections@[i].id@ == connection_id@ ==> planned(
                r,
                config.connections@[i],
                password,
                integrated_supported,
            ),
{
    match find_connection(config, connection_id) {
        Some(i) => plan_connection(&config.connections[i], password, integrated_supported),
        None => Err(SchemaError::NotFound(String::from_str("Connection not found"))),
    }
}

/// Precondition gating: an index request for a profile with login
/// authentication that lacks a user name or a password is refused with a
/// precondition error, so no live extraction starts. `r` is what
/// `prepare_index` returned; the profile is the one it resolves to, the first
/// with that identifier (the only one where identifiers are unique).
pub proof fn lemma_login_gate(
    config: AppConfig,
    connection_id: Seq<char>,
    password: Option<String>,
    integrated_supported: bool,
    r: Result<ConnectPlan, SchemaError>,
    i: int,
)
    requires
        first_with_id(config.connections@, connection_id, i),
        planned(r, config.connections@[i], password, integrated_supported),
        config.connections@[i].auth_type@ == "sql"@,
        !is_given(config.connections@[i].username) || !is_given(password),
    ensures
        r matches Err(SchemaError::Precondition(_)),
{
}

/// Takes the outcome of a live extraction for `connection_id`. A fresh schema
/// replaces what the cache held for it and is returned. On failure the cached
/// schema is returned when there is one, and the cache is left as it was;
/// with none, the failure's cause is returned as a connectivity error.
pub fn index_schema(
    cache: &mut SchemaCache,
    connection_id: &str,
    extracted: Result<SchemaData, String>,
) -> (r: Result<SchemaData, SchemaError>)
    ensures
        extracted matches Ok(s) ==> replaced(*old(cache), *final(cache), connection_id@, s@) && (r matches Ok(t)
            && t@ == s@),
        extracted is Err ==> *final(cache) == *old(cache),
        extracted is Err && old(cache).holds(connection_id@) ==> (r matches Ok(t) && t@ == old(cache).lookup(
            connection_id@,
        )),
        extracted is Err && !old(cache).holds(connection_id@) ==> (r matches Err(SchemaError::Connectivity(m))
            && m@ == extracted->Err_0@),
{
    match extracted {
        Ok(s) => {
            cache_schema(cache, &s, connection_id);
            Ok(s)
        },
        Err(e) => match load_cached_schema(cache, connection_id) {
            Some(cached) => Ok(cached),
            None => Err(SchemaError::Connectivity(e)),
        },
    }
}

/// What a refresh does when its live extraction fails.
#[derive(Debug, Clone, Copy, PartialEq, Eq)]
pub enum RefreshPolicy {
    /// Serve the cached schema when there is one, as an index request does.
    FallBackToCache,
    /// Report the failure even where a cached schema exists.
    Strict,
}

/// A refresh under an explicit policy. A fresh schema replaces the cache's
/// entry and is returned. On failure the cache is left as it was; the cached
/// schema is returned only under `FallBackToCache` and when there is one,
/// otherwise the failure's cause comes back as a connectivity error.
pub fn refresh_schema_with(
    cache: &mut SchemaCache,
    connection_id: &str,
    extracted: Result<SchemaData, String>,
    policy: RefreshPolicy,
) -> (r: Result<SchemaData, SchemaError>)
    ensures
        extracted matches Ok(s) ==> replaced(*old(cache), *final(cache), connection_id@, s@) && (r matches Ok(t)
            && t@ == s@),
        extracted is Err ==> *final(cache) == *old(cache),
        extracted is Err && policy is FallBackToCache && old(cache).holds(connection_id@) ==> (r matches Ok(t) && t@
            == old(cache).lookup(connection_id@)),
        extracted is Err && (policy is Strict || !old(cache).holds(connection_id@)) ==> (r matches Err(
            SchemaError::Connectivity(m),
        ) && m@ == extracted->Err_0@),
{
    match policy {
        RefreshPolicy::FallBackToCache => index_schema(cache, connection_id, extracted),
        RefreshPolicy::Strict => match extracted {
            Ok(s) => {
                cache_schema(cache, &s, connection_id);
                Ok(s)
            },
            Err(e) => Err(SchemaError::Connectivity(e)),
        },
    }
}

/// A refresh takes the same path as an index request, fallback included;
/// `refresh_schema_with` offers the strict policy.
pub fn refresh_schema(
    cache: &mut SchemaCache,
    connection_id: &str,
    extracted: Result<SchemaData, String>,
) -> (r: Result<SchemaData, SchemaError>)
    ensures
        extracted matches Ok(s) ==> replaced(*old(cache), *final(cache), connection_id@, s@) && (r matches Ok(t)
            && t@ == s@),
        extracted is Err ==> *final(cache) == *old(cache),
        extracted is Err && old(cache).holds(connection_id@) ==> (r matches Ok(t) && t@ == old(cache).lookup(
            connection_id@,
        )),
        extracted is Err && !old(cache).holds(connection_id@) ==> (r matches Err(SchemaError::Connectivity(m))
            && m@ == extracted->Err_0@),
{
    refresh_schema_with(cache, connection_id, extracted, RefreshPolicy::FallBackToCache)
}

/// The connection a cache read is for: the one named, or else the first
/// profile flagged as default; `None` when neither exists.
pub open spec fn requested_id(config: AppConfig, connection_id: Option<String>) -> Option<Seq<char>> {
    match connection_id {
        Some(id) => Some(id@),
        None => match first_default_from(config.connections@, 0) {
            Some(i) => Some(config.connections@[i].id@),
            None => None,
        },
    }
}

/// Reads a schema from the cache alone, without connecting.
pub fn get_schema(config: &AppConfig, cache: &SchemaCache, connection_id: Option<String>) -> (r: Result<
    SchemaData,
    SchemaError,
>)
    ensures
        requested_id(*config, connection_id) is None ==> (r matches Err(SchemaError::Precondition(m)) && m@
            == "No default connection configured"@),
        requested_id(*config, connection_id) is Some && cache.holds(requested_id(*config, connection_id)->Some_0)
            ==> (r matches Ok(s) && s@ == cache.lookup(requested_id(*config, connection_id)->Some_0)),
        requested_id(*config, connection_id) is Some && !cache.holds(requested_id(*config, connection_id)->Some_0)
            ==> (r matches Err(
            SchemaError::NotFound(m),
        ) && m@ == "No cached schema found. Please connect with password first."@),
{
    let id = match connection_id {
        Some(id) => id,
        None => match default_connection_id(config) {
            Some(id) => id,
            None => {
                return Err(SchemaError::Precondition(String::from_str("No default connection configured")));
            },
        },
    };
    match load_cached_schema(cache, id.as_str()) {
        Some(s) => Ok(s),
        None => Err(SchemaError::NotFound(String::from_str("No cached schema found. Please connect with password first."))),
    }
}

/// Where no profile from `i` on is flagged, none is found; where `k` is the
/// first flagged one from `i` on, it is the one found.
proof fn lemma_first_default(conns: Seq<Connection>, i: int, k: Option<int>)
    requires
        0 <= i <= conns.len(),
        k matches Some(kk) ==> i <= kk < conns.len() && conns[kk].is_default,
        forall|j: int| i <= j < conns.len() && (k matches Some(kk) ==> j < kk) ==> !conns[j].is_default,
    ensures
        first_default_from(conns, i) == k,
    decreases conns.len() - i,
{
    if i < conns.len() {
        if k != Some(i) {
            lemma_first_default(conns, i + 1, k);
        }
    }
}

/// Default resolution: a cache read that names no connection is ruled out
/// when no profile is flagged as default, and is for the flagged profile
/// when exactly one is.
pub proof fn lemma_default_resolution(config: AppConfig)
    ensures
        (forall|j: int| 0 <= j < config.connections@.len() ==> !config.connections@[j].is_default)
            ==> requested_id(config, None) is None,
        forall|k: int|
            0 <= k < config.connections@.len() && #[trigger] config.connections@[k].is_default && (forall|j: int|
                0 <= j < config.connections@.len() && j != k ==> !config.connections@[j].is_default)
                ==> requested_id(config, None) == Some(config.connections@[k].id@),
{
    let conns = config.connections@;
    if forall|j: int| 0 <= j < conns.len() ==> !conns[j].is_default {
        lemma_first_default(conns, 0, None);
    }
    assert forall|k: int|
        0 <= k < conns.len() && #[trigger] conns[k].is_default && (forall|j: int|
            0 <= j < conns.len() && j != k ==> !conns[j].is_default)
            implies requested_id(config, None) == Some(conns[k].id@) by {
        lemma_first_default(conns, 0, Some(k));
    }
}

} // verus!
