//! Saved connection profiles, application settings, and where the
//! application keeps its files.

use vstd::prelude::*;
use vstd::string::StringExecFns;

use std::path::PathBuf;

verus! {

/// std's owned path, carried through unopened.
#[verifier::external_type_specification]
#[verifier::external_body]
pub struct ExPathBuf(PathBuf);

/// How to reach one database server; the credential is never part of it.
#[derive(Debug, Clone, PartialEq, Eq)]
pub struct Connection {
    pub id: String,
    pub name: String,
    pub server: String,
    pub database: String,
    pub auth_type: String,
    pub username: Option<String>,
    pub is_default: bool,
}

/// User preferences.
#[derive(Debug, Clone, PartialEq, Eq)]
pub struct Settings {
    pub hotkey: String,
    pub row_limit: u32,
    pub theme: String,
    pub auto_refresh: bool,
    pub copy_behavior: String,
    pub groups_file_path: Option<String>,
}

/// An entry of the recently used list.
#[derive(Debug, Clone, PartialEq, Eq)]
pub struct RecentItem {
    pub item_type: String,
    pub name: String,
    pub timestamp: String,
}

/// The whole configuration document.
#[derive(Debug, Clone, PartialEq, Eq)]
pub struct AppConfig {
    pub connections: Vec<Connection>,
    pub settings: Settings,
    pub recent: Vec<RecentItem>,
}

impl Default for Settings {
    fn default() -> (r: Settings)
        ensures
            r.hotkey@ == "Ctrl+Shift+Space"@,
            r.row_limit == 100,
            r.theme@ == "system"@,
            !r.auto_refresh,
            r.copy_behavior@ == "copyOnly"@,
            r.groups_file_path is None,
    {
        Settings {
            hotkey: String::from_str("Ctrl+Shift+Space"),
            row_limit: 100,
            theme: String::from_str("system"),
            auto_refresh: false,
            copy_behavior: String::from_str("copyOnly"),
            groups_file_path: None,
        }
    }
}

impl Default for AppConfig {
    fn default() -> (r: AppConfig)
        ensures
            r.connections@.len() == 0,
            r.recent@.len() == 0,
            r.settings.hotkey@ == "Ctrl+Shift+Space"@,
            r.settings.row_limit == 100,
            r.settings.theme@ == "system"@,
            !r.settings.auto_refresh,
            r.settings.copy_behavior@ == "copyOnly"@,
            r.settings.groups_file_path is None,
    {
        AppConfig { connections: Vec::new(), settings: Settings::default(), recent: Vec::new() }
    }
}

/// Relies on dirs::config_dir: the platform's per-user configuration
/// directory, or `None` where the platform has none.
#[verifier::external_body]
fn platform_config_dir() -> (r: Option<PathBuf>) {
    dirs::config_dir()
}

/// Relies on Path::join: `base` with `part` appended as a further component.
#[verifier::external_body]
fn join_path(base: &PathBuf, part: &str) -> (r: PathBuf) {
    base.join(part)
}

/// The application's own directory inside the platform's configuration
/// directory `base`, or an error where the platform has none.
pub fn config_dir_in(base: Option<PathBuf>) -> (r: Result<PathBuf, String>)
    ensures
        r is Ok <==> base is Some,
        r matches Err(e) ==> e@ == "Could not determine config directory"@,
{
    match base {
        Some(base) => Ok(join_path(&base, "glance")),
        None => Err(String::from_str("Could not determine config directory")),
    }
}

/// The file `name` inside the directory `dir`, or the error that `dir` carries.
pub fn file_in(dir: Result<PathBuf, String>, name: &str) -> (r: Result<PathBuf, String>)
    ensures
        r is Ok <==> dir is Ok,
        r matches Err(e) ==> (dir matches Err(d) && e@ == d@),
{
    match dir {
        Ok(dir) => Ok(join_path(&dir, name)),
        Err(e) => Err(e),
    }
}

/// The application's own directory inside the platform's configuration directory.
pub fn get_config_dir() -> (r: Result<PathBuf, String>)
    ensures
        r matches Err(e) ==> e@ == "Could not determine config directory"@,
{
    config_dir_in(platform_config_dir())
}

/// The configuration document's file.
pub fn get_config_path() -> (r: Result<PathBuf, String>)
    ensures
        r matches Err(e) ==> e@ == "Could not determine config directory"@,
{
    file_in(get_config_dir(), "config.json")
}

/// The schema cache's file.
pub fn get_cache_path() -> (r: Result<PathBuf, String>)
    ensures
        r matches Err(e) ==> e@ == "Could not determine config directory"@,
{
    file_in(get_config_dir(), "schema_cache.db")
}

/// The profile with its default flag set to `flag`, every other field kept.
pub open spec fn with_default_flag(c: Connection, flag: bool) -> Connection {
    Connection {
        id: c.id,
        name: c.name,
        server: c.server,
        database: c.database,
        auth_type: c.auth_type,
        username: c.username,
        is_default: flag,
    }
}

/// The profiles whose identifier is not `id`, in order.
pub open spec fn without_id(conns: Seq<Connection>, id: Seq<char>) -> Seq<Connection>
    decreases conns.len(),
{
    if conns.len() == 0 {
        Seq::empty()
    } else {
        let before = without_id(conns.drop_last(), id);
        if conns.last().id@ == id {
            before
        } else {
            before.push(conns.last())
        }
    }
}

/// The position of the first profile whose identifier is `id`.
pub fn find_connection(config: &AppConfig, id: &str) -> (r: Option<usize>)
    ensures
        r matches Some(i) ==> i < config.connections@.len() && config.connections@[i as int].id@ == id@
            && forall|j: int| 0 <= j < i ==> config.connections@[j].id@ != id@,
        r is None ==> forall|j: int| 0 <= j < config.connections@.len() ==> config.connections@[j].id@ != id@,
{
    let key = id.to_owned();
    let mut i: usize = 0;
    while i < config.connections.len()
        invariant
            i <= config.connections@.len(),
            key@ == id@,
            forall|j: int| 0 <= j < i ==> config.connections@[j].id@ != id@,
        decreases config.connections@.len() - i,
    {
        if config.connections[i].id.eq(&key) {
            return Some(i);
        }
        i = i + 1;
    }
    None
}

/// The position of the first profile flagged as default, counting from `i`.
pub open spec fn first_default_from(conns: Seq<Connection>, i: int) -> Option<int>
    decreases conns.len() - i,
{
    if i < 0 || i >= conns.len() {
        None
    } else if conns[i].is_default {
        Some(i)
    } else {
        first_default_from(conns, i + 1)
    }
}

/// The identifier of the first profile flagged as default.
pub fn default_connection_id(config: &AppConfig) -> (r: Option<String>)
    ensures
        r is None <==> first_default_from(config.connections@, 0) is None,
        r matches Some(id) ==> id@ == config.connections@[first_default_from(config.connections@, 0)->Some_0].id@,
{
    let mut i: usize = 0;
    while i < config.connections.len()
        invariant
            i <= config.connections@.len(),
            first_default_from(config.connections@, 0) == first_default_from(config.connections@, i as int),
        decreases config.connections@.len() - i,
    {
        if config.connections[i].is_default {
            return Some(config.connections[i].id.clone());
        }
        i = i + 1;
    }
    None
}

/// `after` is `before` with `connection` stored as `save_connection` stores it.
pub open spec fn saved(before: Seq<Connection>, after: Seq<Connection>, connection: Connection) -> bool {
    if exists|j: int| 0 <= j < before.len() && before[j].id@ == connection.id@ {
        exists|p: int|
            0 <= p < before.len() && before[p].id@ == connection.id@ && (forall|j: int|
                0 <= j < p ==> before[j].id@ != connection.id@) && after == before.update(p, connection)
    } else if connection.is_default {
        after.len() == before.len() + 1 && after.last() == connection && forall|j: int|
            0 <= j < before.len() ==> after[j] == with_default_flag(before[j], false)
    } else {
        after == before.push(connection)
    }
}

/// No two profiles share an identifier.
pub open spec fn ids_unique(conns: Seq<Connection>) -> bool {
    forall|i: int, j: int| 0 <= i < conns.len() && 0 <= j < conns.len() && i != j ==> conns[i].id@ != conns[j].id@
}

/// Storing profiles keeps their identifiers unique: a profile store built by
/// `save_connection` alone never holds two profiles with one identifier.
pub proof fn lemma_save_keeps_ids_unique(before: Seq<Connection>, after: Seq<Connection>, connection: Connection)
    requires
        ids_unique(before),
        saved(before, after, connection),
    ensures
        ids_unique(after),
{
    if exists|j: int| 0 <= j < before.len() && before[j].id@ == connection.id@ {
        let p = choose|p: int|
            0 <= p < before.len() && before[p].id@ == connection.id@ && (forall|j: int|
                0 <= j < p ==> before[j].id@ != connection.id@) && after == before.update(p, connection);
        assert forall|i: int, j: int| 0 <= i < after.len() && 0 <= j < after.len() && i != j implies after[i].id@
            != after[j].id@ by {
            assert(after[i].id@ == before[i].id@);
            assert(after[j].id@ == before[j].id@);
        }
    } else if connection.is_default {
        assert forall|i: int, j: int| 0 <= i < after.len() && 0 <= j < after.len() && i != j implies after[i].id@
            != after[j].id@ by {
            if i < before.len() {
                assert(after[i].id@ == before[i].id@);
            }
            if j < before.len() {
                assert(after[j].id@ == before[j].id@);
            }
        }
    } else {
        assert forall|i: int, j: int| 0 <= i < after.len() && 0 <= j < after.len() && i != j implies after[i].id@
            != after[j].id@ by {
            if i < before.len() {
                assert(after[i] == before[i]);
            }
            if j < before.len() {
                assert(after[j] == before[j]);
            }
        }
    }
}

/// Stores a profile: it replaces the first profile with the same identifier;
/// otherwise it is appended, and when it is flagged as default every other
/// profile loses that flag first.
pub fn save_connection(config: &mut AppConfig, connection: Connection)
    ensures
        final(config).settings == old(config).settings,
        final(config).recent == old(config).recent,
        saved(old(config).connections@, final(config).connections@, connection),
{
    match find_connection(config, connection.id.as_str()) {
        Some(p) => {
            config.connections.set(p, connection);
        },
        None => {
            if connection.is_default {
                clear_default_flags(&mut config.connections);
            }
            config.connections.push(connection);
        },
    }
}

/// Every profile's default flag cleared; nothing else changes.
fn clear_default_flags(conns: &mut Vec<Connection>)
    ensures
        final(conns)@.len() == old(conns)@.len(),
        forall|j: int| 0 <= j < old(conns)@.len() ==> final(conns)@[j] == with_default_flag(old(conns)@[j], false),
{
    let ghost before = conns@;
    let mut i: usize = 0;
    while i < conns.len()
        invariant
            conns@.len() == before.len(),
            i <= before.len(),
            forall|j: int| 0 <= j < i ==> conns@[j] == with_default_flag(before[j], false),
            forall|j: int| i <= j < before.len() ==> conns@[j] == before[j],
        decreases before.len() - i,
    {
        conns[i].is_default = false;
        i = i + 1;
    }
}

/// Removes every profile whose identifier is `id`; the others keep their order.
pub fn delete_connection(config: &mut AppConfig, id: &str)
    ensures
        final(config).settings == old(config).settings,
        final(config).recent == old(config).recent,
        final(config).connections@ == without_id(old(config).connections@, id@),
{
    let key = id.to_owned();
    let ghost conns = config.connections@;
    let mut kept: Vec<Connection> = Vec::new();
    let mut i: usize = 0;
    while i < config.connections.len()
        invariant
            i <= conns.len(),
            config.connections@ == conns,
            key@ == id@,
            kept@ == without_id(conns.subrange(0, i as int), id@),
        decreases conns.len() - i,
    {
        proof {
            assert(conns.subrange(0, i + 1).drop_last() =~= conns.subrange(0, i as int));
        }
        if !config.connections[i].id.eq(&key) {
            kept.push(connection_copy(&config.connections[i]));
        }
        i = i + 1;
    }
    assert(conns.subrange(0, conns.len() as int) =~= conns);
    config.connections = kept;
}

/// A field-by-field copy of a profile.
fn connection_copy(c: &Connection) -> (r: Connection)
    ensures
        r == *c,
{
    Connection {
        id: c.id.clone(),
        name: c.name.clone(),
        server: c.server.clone(),
        database: c.database.clone(),
        auth_type: c.auth_type.clone(),
        username: crate::schema::copy_text(&c.username),
        is_default: c.is_default,
    }
}

/// Flags exactly the profiles whose identifier is `id` as default.
pub fn set_default_connection(config: &mut AppConfig, id: &str)
    ensures
        final(config).settings == old(config).settings,
        final(config).recent == old(config).recent,
        final(config).connections@.len() == old(config).connections@.len(),
        forall|j: int|
            0 <= j < old(config).connections@.len() ==> final(config).connections@[j] == with_default_flag(
                old(config).connections@[j],
                old(config).connections@[j].id@ == id@,
            ),
{
    let key = id.to_owned();
    let ghost before = config.connections@;
    let mut i: usize = 0;
    while i < config.connections.len()
        invariant
            config.connections@.len() == before.len(),
            config.settings == old(config).settings,
            config.recent == old(config).recent,
            i <= before.len(),
            key@ == id@,
            forall|j: int| 0 <= j < i ==> config.connections@[j] == with_default_flag(before[j], before[j].id@ == id@),
            forall|j: int| i <= j < before.len() ==> config.connections@[j] == before[j],
        decreases before.len() - i,
    {
        let flag = config.connections[i].id.eq(&key);
        config.connections[i].is_default = flag;
        i = i + 1;
    }
}

} // verus!
