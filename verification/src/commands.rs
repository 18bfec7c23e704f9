//! The pure part of each user-facing command: what is printed or
//! decided, given state the surrounding program gathered. Process
//! spawning, stream inheritance and exit codes stay outside.
use vstd::prelude::*;
use vstd::string::*;
use crate::version::{Version, spec_version_chars};
use crate::store::LocalStore;
use crate::config::{spec_bin_dir, bin_dir};

verus! {

/// The `current` command: prints the version the session's link
/// points at, or `none`.
pub struct Current {}

impl Current {
    /// The line `current` prints.
    pub fn render(cur: Option<&Version>) -> (r: String)
        ensures
            match cur {
                Some(v) => r@ == spec_version_chars(*v),
                None => r@ == "none"@,
            },
    {
        match cur {
            Some(v) => v.v_str(),
            None => "none".to_owned(),
        }
    }
}

/// Why a run-under-version request fails.
#[derive(Clone, Copy, PartialEq, Eq, Structural, Debug)]
pub enum ExecError {
    /// Resolution succeeded but the version is not installed; the
    /// executor never installs on its own.
    VersionNotInstalled,
}

/// The executor's decision: the directory to prepend to `PATH` for
/// a resolved version, or the error when that version is not
/// installed. Touches neither shell links nor aliases.
pub fn plan_exec(store: &LocalStore, base: &str, v: &Version, windows: bool) -> (r: Result<
    String,
    ExecError,
>)
    ensures
        store.spec_is_installed(*v) ==> (r matches Ok(p) && p@ == spec_bin_dir(
            base@,
            *v,
            windows,
        )),
        !store.spec_is_installed(*v) ==> r == Err::<String, ExecError>(
            ExecError::VersionNotInstalled,
        ),
{
    if store.is_installed(v) {
        Ok(bin_dir(base, v, windows))
    } else {
        Err(ExecError::VersionNotInstalled)
    }
}

} // verus!
