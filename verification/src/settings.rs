//! Settings values and the project-path context.
//!
//! Instead of a process-wide mutable project path, every operation that
//! needs a storage location takes an explicit context. The context starts
//! empty, is initialized once from the loaded settings, and is overridden
//! by an explicit update that changes the passed value rather than any
//! shared state. Reading and writing the settings file itself is plain
//! I/O and lives outside this crate; these functions hold the decisions:
//! which value each getter reports, and exactly which field each setter
//! changes.

use vstd::prelude::*;
use vstd::string::StringExecFns;

verus! {

/// The persisted settings: the chosen project path, the name of the last
/// connection used, and whether auto-connect is on. A missing field means
/// the setting was never written.
#[derive(Debug, Clone, PartialEq)]
pub struct Settings {
    pub project_path: Option<String>,
    pub last_connection: Option<String>,
    pub auto_connect_enabled: Option<bool>,
}

impl Settings {
    /// The settings as they stand before anything was ever written: every
    /// field absent (a missing settings file loads as this).
    pub fn empty() -> (s: Settings)
        ensures
            s.project_path is None,
            s.last_connection is None,
            s.auto_connect_enabled is None,
    {
        Settings { project_path: None, last_connection: None, auto_connect_enabled: None }
    }
}

/// The explicit context that replaces the process-wide project path: the
/// directory chosen for local files, if one was chosen.
#[derive(Debug, Clone, PartialEq)]
pub struct ProjectContext {
    pub project_path: Option<String>,
}

impl ProjectContext {
    /// The context at process start, before the settings were loaded: no
    /// project path chosen.
    pub fn new() -> (c: ProjectContext)
        ensures
            c.project_path is None,
    {
        ProjectContext { project_path: None }
    }
}

/// The directory where local files are stored: the context's project path
/// when one is set, otherwise the `.query` directory under the home
/// directory handed in by the caller.
pub fn get_app_dir(ctx: &ProjectContext, home_dir: &str) -> (r: String)
    ensures
        ctx.project_path is Some ==> r@ == ctx.project_path->0@,
        ctx.project_path is None ==> r@ == home_dir@ + "/.query"@,
{
    match &ctx.project_path {
        Some(p) => p.clone(),
        None => {
            let mut s = String::from_str(home_dir);
            s.append("/.query");
            s
        },
    }
}

/// The project path currently in effect, if one was set.
pub fn get_current_project_path_internal(ctx: &ProjectContext) -> (r: Option<String>)
    ensures
        r == ctx.project_path,
{
    match &ctx.project_path {
        Some(p) => Some(p.clone()),
        None => None,
    }
}

/// Override the project path: the context and the settings both record
/// the new path, and nothing else changes.
pub fn set_project_path_internal(ctx: &mut ProjectContext, settings: &mut Settings, path: String)
    ensures
        final(ctx).project_path == Some(path),
        final(settings).project_path == Some(path),
        final(settings).last_connection == old(settings).last_connection,
        final(settings).auto_connect_enabled == old(settings).auto_connect_enabled,
{
    ctx.project_path = Some(path.clone());
    settings.project_path = Some(path);
}

/// Initialize the context from the loaded settings: when the settings
/// hold a project path it takes effect, otherwise the context is left as
/// it was.
pub fn load_project_settings_internal(ctx: &mut ProjectContext, settings: &Settings)
    ensures
        settings.project_path is Some ==> final(ctx).project_path == settings.project_path,
        settings.project_path is None ==> *final(ctx) == *old(ctx),
{
    if let Some(p) = &settings.project_path {
        ctx.project_path = Some(p.clone());
    }
}

/// Record the name of the last connection used; nothing else changes.
pub fn set_last_connection_internal(settings: &mut Settings, connection_name: String)
    ensures
        final(settings).last_connection == Some(connection_name),
        final(settings).project_path == old(settings).project_path,
        final(settings).auto_connect_enabled == old(settings).auto_connect_enabled,
{
    settings.last_connection = Some(connection_name);
}

/// The name of the last connection used, if one was recorded.
pub fn get_last_connection_internal(settings: &Settings) -> (r: Option<String>)
    ensures
        r == settings.last_connection,
{
    match &settings.last_connection {
        Some(name) => Some(name.clone()),
        None => None,
    }
}

/// Record whether auto-connect is on; nothing else changes.
pub fn set_auto_connect_enabled_internal(settings: &mut Settings, enabled: bool)
    ensures
        final(settings).auto_connect_enabled == Some(enabled),
        final(settings).project_path == old(settings).project_path,
        final(settings).last_connection == old(settings).last_connection,
{
    settings.auto_connect_enabled = Some(enabled);
}

/// Whether auto-connect is on: the recorded value, or off when the
/// setting was never written.
pub fn get_auto_connect_enabled_internal(settings: &Settings) -> (r: bool)
    ensures
        r == (if settings.auto_connect_enabled is Some {
            settings.auto_connect_enabled->0
        } else {
            false
        }),
{
    match settings.auto_connect_enabled {
        Some(b) => b,
        None => false,
    }
}

} // verus!
