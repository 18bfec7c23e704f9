//! The command surface: one variant per user-facing operation, as
//! plain data. Argument parsing and help text live outside; dispatch
//! hands each variant's values to the verified components.
use vstd::prelude::*;

verus! {

/// One parsed invocation.
#[derive(Clone, Debug)]
pub enum SubCommand {
    /// List all remote versions.
    LsRemote,
    /// List all locally installed versions.
    LsLocal,
    /// Install a version.
    Install { version: Option<String> },
    /// Change the session's version.
    Use { version: Option<String> },
    /// Print the shell commands that set the environment up.
    Env { shell: Option<String> },
    /// Print shell completions.
    Completions { shell: Option<String> },
    /// Alias a version to a name.
    Alias { to_version: String, name: String },
    /// Remove an alias.
    Unalias { requested_alias: String },
    /// Set the `default` alias.
    SetDefault { version: String },
    /// Print the session's current version.
    Current,
    /// Run a command with a version's binaries on `PATH`.
    Exec { version: Option<String>, command: Vec<String> },
    /// Uninstall a version and sweep its aliases.
    Uninstall { version: Option<String> },
}

} // verus!
